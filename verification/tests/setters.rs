use child_window::flags;
use child_window::flags::WindowFlags;
use child_window::id::Id;
use child_window::scalar::Scalar;
use child_window::scalar::Size2;
use child_window::scalar::UNSET_BITS;
use child_window::window::ChildWindow;

fn sz(x: f32, y: f32) -> Size2 {
    Size2::new(Scalar::from_bits(x.to_bits()), Scalar::from_bits(y.to_bits()))
}

#[test]
fn default_descriptor_fields() {
    let w = ChildWindow::new(Id::Int(1));
    assert_eq!(w.flags.bits, 0);
    assert_eq!(w.size.x.bits, 0);
    assert_eq!(w.size.y.bits, 0);
    assert_eq!(w.content_size.x.bits, 0);
    assert_eq!(w.content_size.y.bits, 0);
    assert!(!w.focused);
    assert_eq!(w.bg_alpha.bits, UNSET_BITS);
    assert!(f32::from_bits(w.bg_alpha.bits).is_nan());
    assert!(!w.border);
}

#[test]
fn field_setters_change_exactly_one_field() {
    let base = ChildWindow::new(Id::Int(9)).border(true).focused(true);

    let w = base.clone().size(sz(10.0, -20.0));
    assert_eq!(w.size.x.bits, 10.0f32.to_bits());
    assert_eq!(w.size.y.bits, (-20.0f32).to_bits());
    assert_eq!(w.content_size.x.bits, base.content_size.x.bits);
    assert_eq!(w.flags.bits, base.flags.bits);
    assert_eq!(w.bg_alpha.bits, base.bg_alpha.bits);
    assert!(w.border && w.focused);

    let w = base.clone().content_size(sz(640.0, 0.0));
    assert_eq!(w.content_size.x.bits, 640.0f32.to_bits());
    assert_eq!(w.content_size.y.bits, 0);
    assert_eq!(w.size.x.bits, base.size.x.bits);
    assert_eq!(w.flags.bits, base.flags.bits);

    let w = base.clone().bg_alpha(Scalar::from_bits(0.5f32.to_bits()));
    assert_eq!(w.bg_alpha.bits, 0.5f32.to_bits());
    assert_eq!(w.size.x.bits, base.size.x.bits);
    assert!(w.border && w.focused);

    let w = base.clone().focused(false);
    assert!(!w.focused);
    assert!(w.border);

    let w = base.clone().border(false);
    assert!(!w.border);
    assert!(w.focused);

    let w = base.clone().flags(WindowFlags::from_bits(0xdead));
    assert_eq!(w.flags.bits, 0xdead);
    assert!(w.border && w.focused);
}

#[test]
fn flag_setters_toggle_exactly_one_bit() {
    let w = ChildWindow::new(Id::Int(2));
    assert_eq!(w.clone().scroll_bar(false).flags.bits, flags::NO_SCROLLBAR);
    assert_eq!(w.clone().scroll_bar(true).flags.bits, 0);
    assert_eq!(w.clone().scrollable(false).flags.bits, flags::NO_SCROLL_WITH_MOUSE);
    assert_eq!(w.clone().always_auto_resize(true).flags.bits, flags::ALWAYS_AUTO_RESIZE);
    assert_eq!(w.clone().draw_background(false).flags.bits, flags::NO_BACKGROUND);
    assert_eq!(w.clone().mouse_inputs(false).flags.bits, flags::NO_MOUSE_INPUTS);
    assert_eq!(w.clone().menu_bar(true).flags.bits, flags::MENU_BAR);
    assert_eq!(w.clone().horizontal_scrollbar(true).flags.bits, flags::HORIZONTAL_SCROLLBAR);
    assert_eq!(w.clone().focus_on_appearing(false).flags.bits, flags::NO_FOCUS_ON_APPEARING);
    assert_eq!(
        w.clone().bring_to_front_on_focus(false).flags.bits,
        flags::NO_BRING_TO_FRONT_ON_FOCUS
    );
    assert_eq!(
        w.clone().always_vertical_scrollbar(true).flags.bits,
        flags::ALWAYS_VERTICAL_SCROLLBAR
    );
    assert_eq!(
        w.clone().always_horizontal_scrollbar(true).flags.bits,
        flags::ALWAYS_HORIZONTAL_SCROLLBAR
    );
    assert_eq!(
        w.clone().always_use_window_padding(true).flags.bits,
        flags::ALWAYS_USE_WINDOW_PADDING
    );
    assert_eq!(w.clone().nav_inputs(false).flags.bits, flags::NO_NAV_INPUTS);
    assert_eq!(w.clone().nav_focus(false).flags.bits, flags::NO_NAV_FOCUS);
}

#[test]
fn flag_setter_leaves_other_bits_alone() {
    let w = ChildWindow::new(Id::Int(3)).flags(WindowFlags::from_bits(0xffff_ffff));
    let cleared = w.clone().scroll_bar(true);
    assert_eq!(cleared.flags.bits, 0xffff_ffff & !flags::NO_SCROLLBAR);
    let again = cleared.clone().scroll_bar(false);
    assert_eq!(again.flags.bits, 0xffff_ffff);
}

#[test]
fn no_nav_equals_nav_setters_in_sequence() {
    let a = ChildWindow::new(Id::Int(4)).no_nav();
    let b = ChildWindow::new(Id::Int(4)).nav_inputs(false).nav_focus(false);
    assert_eq!(a.flags.bits, b.flags.bits);
    assert_eq!(a.flags.bits, flags::NO_NAV);
}

#[test]
fn no_inputs_equals_input_setters_in_sequence() {
    let a = ChildWindow::new(Id::Int(5)).no_inputs();
    let b = ChildWindow::new(Id::Int(5)).mouse_inputs(false).nav_inputs(false).nav_focus(false);
    assert_eq!(a.flags.bits, b.flags.bits);
    assert_eq!(a.flags.bits, flags::NO_INPUTS);
}

#[test]
fn shorthand_masks_are_unions_of_single_bits() {
    assert_eq!(flags::NO_NAV, flags::NO_NAV_INPUTS | flags::NO_NAV_FOCUS);
    assert_eq!(
        flags::NO_INPUTS,
        flags::NO_MOUSE_INPUTS | flags::NO_NAV_INPUTS | flags::NO_NAV_FOCUS
    );
}

#[test]
fn scalar_zero_and_finite_classification() {
    assert!(Scalar::from_bits(0.0f32.to_bits()).is_zero());
    assert!(Scalar::from_bits((-0.0f32).to_bits()).is_zero());
    assert!(!Scalar::from_bits(1.0f32.to_bits()).is_zero());
    assert!(!Scalar::from_bits(f32::NAN.to_bits()).is_zero());
    assert!(Scalar::from_bits(1.5f32.to_bits()).is_finite());
    assert!(Scalar::from_bits(0.0f32.to_bits()).is_finite());
    assert!(!Scalar::from_bits(f32::NAN.to_bits()).is_finite());
    assert!(!Scalar::from_bits(f32::INFINITY.to_bits()).is_finite());
    assert!(!Scalar::from_bits(f32::NEG_INFINITY.to_bits()).is_finite());
    assert!(!Scalar::unset().is_finite());
}
