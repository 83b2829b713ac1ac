use child_window::engine::EngineCall;
use child_window::engine::Ui;
use child_window::id::Id;
use child_window::scalar::Scalar;
use child_window::scalar::Size2;
use child_window::window::ChildWindow;

fn sz(x: f32, y: f32) -> Size2 {
    Size2::new(Scalar::from_bits(x.to_bits()), Scalar::from_bits(y.to_bits()))
}

fn end_calls(ui: &Ui) -> usize {
    let mut n: usize = 0;
    let mut i: usize = 0;
    while i < ui.call_count() {
        if matches!(ui.call_at(i), EngineCall::EndChild) {
            n += 1;
        }
        i += 1;
    }
    n
}

fn calls_of_kind(ui: &Ui, content_size: bool, focus: bool, bg_alpha: bool) -> usize {
    let mut n: usize = 0;
    let mut i: usize = 0;
    while i < ui.call_count() {
        let hit = match ui.call_at(i) {
            EngineCall::SetNextWindowContentSize { .. } => content_size,
            EngineCall::SetNextWindowFocus => focus,
            EngineCall::SetNextWindowBgAlpha { .. } => bg_alpha,
            _ => false,
        };
        if hit {
            n += 1;
        }
        i += 1;
    }
    n
}

#[test]
fn explicit_end_pops_exactly_once() {
    let mut ui = Ui::new_frame();
    let token = ChildWindow::new(Id::Int(1)).begin(&mut ui);
    assert_eq!(ui.depth(), 1);
    token.end(&mut ui);
    assert_eq!(ui.depth(), 0);
    assert_eq!(end_calls(&ui), 1);
}

#[test]
fn scope_exit_release_alone_pops_exactly_once() {
    let mut ui = Ui::new_frame();
    let mut token = ChildWindow::new(Id::Int(1)).begin(&mut ui);
    token.release(&mut ui);
    assert_eq!(ui.depth(), 0);
    assert_eq!(end_calls(&ui), 1);
}

#[test]
fn explicit_release_then_scope_exit_pops_once() {
    let mut ui = Ui::new_frame();
    let mut token = ChildWindow::new(Id::Int(1)).begin(&mut ui);
    token.release(&mut ui);
    assert_eq!(end_calls(&ui), 1);
    token.release(&mut ui);
    assert_eq!(end_calls(&ui), 1);
    assert_eq!(ui.depth(), 0);
}

#[test]
fn build_invokes_content_when_visible_and_releases_once() {
    let mut ui = Ui::new_frame_with_visibility(vec![true]);
    let mut ran: u32 = 0;
    ChildWindow::new(Id::Int(1)).build(&mut ui, || ran += 1);
    assert_eq!(ran, 1);
    assert_eq!(end_calls(&ui), 1);
    assert_eq!(ui.depth(), 0);
}

#[test]
fn build_skips_content_when_not_visible_and_still_releases_once() {
    let mut ui = Ui::new_frame_with_visibility(vec![false]);
    let mut ran: u32 = 0;
    ChildWindow::new(Id::Int(1)).build(&mut ui, || ran += 1);
    assert_eq!(ran, 0);
    assert_eq!(end_calls(&ui), 1);
    assert_eq!(ui.depth(), 0);
}

#[test]
fn visibility_defaults_to_true_and_follows_the_script() {
    let mut ui = Ui::new_frame();
    let token = ChildWindow::new(Id::Int(1)).begin(&mut ui);
    assert!(token.should_render);
    token.end(&mut ui);

    let mut ui = Ui::new_frame_with_visibility(vec![false, true]);
    let first = ChildWindow::new(Id::Int(1)).begin(&mut ui);
    let second = ChildWindow::new(Id::Int(2)).begin(&mut ui);
    assert!(!first.should_render);
    assert!(second.should_render);
    second.end(&mut ui);
    first.end(&mut ui);
}

#[test]
fn nested_tokens_release_in_lifo_order() {
    let mut ui = Ui::new_frame();
    let outer = ChildWindow::new(Id::Int(1)).begin(&mut ui);
    let inner = ChildWindow::new(Id::Int(2)).begin(&mut ui);
    assert_eq!(ui.depth(), 2);
    inner.end(&mut ui);
    assert_eq!(ui.depth(), 1);
    outer.end(&mut ui);
    assert_eq!(ui.depth(), 0);
    assert_eq!(ui.call_count(), 6);
    assert!(matches!(ui.call_at(0), EngineCall::HashPtr { .. }));
    assert!(matches!(ui.call_at(1), EngineCall::BeginChild { .. }));
    assert!(matches!(ui.call_at(2), EngineCall::HashPtr { .. }));
    assert!(matches!(ui.call_at(3), EngineCall::BeginChild { .. }));
    assert!(matches!(ui.call_at(4), EngineCall::EndChild));
    assert!(matches!(ui.call_at(5), EngineCall::EndChild));
}

#[test]
fn default_descriptor_issues_no_preconfiguration_calls() {
    let mut ui = Ui::new_frame();
    ChildWindow::new(Id::Int(1)).begin(&mut ui).end(&mut ui);
    assert_eq!(calls_of_kind(&ui, true, true, true), 0);
    assert_eq!(ui.call_count(), 3);
}

#[test]
fn bg_alpha_call_fires_only_when_finite() {
    let mut ui = Ui::new_frame();
    let w = ChildWindow::new(Id::Int(1)).bg_alpha(Scalar::from_bits(0.25f32.to_bits()));
    w.begin(&mut ui).end(&mut ui);
    assert_eq!(calls_of_kind(&ui, false, false, true), 1);
    assert!(
        matches!(ui.call_at(0), EngineCall::SetNextWindowBgAlpha { alpha_bits } if alpha_bits == 0.25f32.to_bits())
    );

    let mut ui = Ui::new_frame();
    let w = ChildWindow::new(Id::Int(1)).bg_alpha(Scalar::from_bits(f32::INFINITY.to_bits()));
    w.begin(&mut ui).end(&mut ui);
    assert_eq!(calls_of_kind(&ui, false, false, true), 0);

    let mut ui = Ui::new_frame();
    let w = ChildWindow::new(Id::Int(1)).bg_alpha(Scalar::from_bits(f32::NAN.to_bits()));
    w.begin(&mut ui).end(&mut ui);
    assert_eq!(calls_of_kind(&ui, false, false, true), 0);
}

#[test]
fn content_size_call_fires_only_when_an_axis_is_nonzero() {
    let mut ui = Ui::new_frame();
    ChildWindow::new(Id::Int(1)).content_size(sz(0.0, 120.0)).begin(&mut ui).end(&mut ui);
    assert_eq!(calls_of_kind(&ui, true, false, false), 1);

    let mut ui = Ui::new_frame();
    ChildWindow::new(Id::Int(1)).content_size(sz(0.0, 0.0)).begin(&mut ui).end(&mut ui);
    assert_eq!(calls_of_kind(&ui, true, false, false), 0);

    // Negative zero on both axes still counts as zero.
    let mut ui = Ui::new_frame();
    ChildWindow::new(Id::Int(1)).content_size(sz(-0.0, -0.0)).begin(&mut ui).end(&mut ui);
    assert_eq!(calls_of_kind(&ui, true, false, false), 0);
}

#[test]
fn focus_call_fires_only_when_requested() {
    let mut ui = Ui::new_frame();
    ChildWindow::new(Id::Int(1)).focused(true).begin(&mut ui).end(&mut ui);
    assert_eq!(calls_of_kind(&ui, false, true, false), 1);

    let mut ui = Ui::new_frame();
    ChildWindow::new(Id::Int(1)).focused(false).begin(&mut ui).end(&mut ui);
    assert_eq!(calls_of_kind(&ui, false, true, false), 0);
}

#[test]
fn begin_child_records_size_border_and_flags() {
    let mut ui = Ui::new_frame();
    let w = ChildWindow::new(Id::Int(1)).size(sz(300.0, -4.0)).border(true).menu_bar(true);
    let expected_bits = w.flags.bits;
    w.begin(&mut ui).end(&mut ui);
    let call = ui.call_at(1);
    match call {
        EngineCall::BeginChild { x_bits, y_bits, border, flags_bits, .. } => {
            assert_eq!(x_bits, 300.0f32.to_bits());
            assert_eq!(y_bits, (-4.0f32).to_bits());
            assert!(border);
            assert_eq!(flags_bits, expected_bits);
        }
        _ => panic!("expected a window push as the second call"),
    }
}

#[test]
fn preconfiguration_calls_come_in_order() {
    let mut ui = Ui::new_frame();
    let w = ChildWindow::new(Id::Int(1))
        .content_size(sz(64.0, 0.0))
        .focused(true)
        .bg_alpha(Scalar::from_bits(1.0f32.to_bits()));
    w.begin(&mut ui).end(&mut ui);
    assert_eq!(ui.call_count(), 6);
    assert!(matches!(ui.call_at(0), EngineCall::SetNextWindowContentSize { .. }));
    assert!(matches!(ui.call_at(1), EngineCall::SetNextWindowFocus));
    assert!(matches!(ui.call_at(2), EngineCall::SetNextWindowBgAlpha { .. }));
    assert!(matches!(ui.call_at(3), EngineCall::HashPtr { .. }));
    assert!(matches!(ui.call_at(4), EngineCall::BeginChild { .. }));
    assert!(matches!(ui.call_at(5), EngineCall::EndChild));
}
