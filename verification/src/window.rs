//! The child-window descriptor and its stack token.
//!
//! A `ChildWindow` collects configuration through chained setters with
//! value semantics and no engine interaction, then is consumed by `begin`,
//! which issues the pre-configuration engine calls, resolves the
//! identifier, pushes the window onto the window stack, and hands back a
//! `ChildWindowToken`. The token's release pops the stack exactly once,
//! guarded by a one-shot disarm flag, whichever way control leaves the
//! scope.

use vstd::prelude::*;

use crate::engine::EngineCall;
use crate::engine::Ui;
use crate::engine::UiModel;
use crate::engine::hash_bytes;
use crate::engine::hash_ptr;
use crate::engine::stack_pop;
use crate::engine::vis_advance;
use crate::engine::vis_next;
use crate::flags::NO_INPUTS;
use crate::flags::NO_NAV;
use crate::flags::NO_SCROLLBAR;
use crate::flags::NO_SCROLL_WITH_MOUSE;
use crate::flags::ALWAYS_AUTO_RESIZE;
use crate::flags::NO_BACKGROUND;
use crate::flags::NO_MOUSE_INPUTS;
use crate::flags::MENU_BAR;
use crate::flags::HORIZONTAL_SCROLLBAR;
use crate::flags::NO_FOCUS_ON_APPEARING;
use crate::flags::NO_BRING_TO_FRONT_ON_FOCUS;
use crate::flags::ALWAYS_VERTICAL_SCROLLBAR;
use crate::flags::ALWAYS_HORIZONTAL_SCROLLBAR;
use crate::flags::ALWAYS_USE_WINDOW_PADDING;
use crate::flags::NO_NAV_INPUTS;
use crate::flags::NO_NAV_FOCUS;
use crate::flags::WindowFlags;
use crate::flags::flag_set;
use crate::id::Id;
use crate::scalar::Scalar;
use crate::scalar::Size2;
use crate::scalar::bits_are_finite;
use crate::scalar::bits_are_zero;

verus! {

/// Builder for a child window.
#[derive(Clone, Debug)]
#[must_use]
pub struct ChildWindow {
    /// The identifier the window ID is derived from at commit time.
    pub id: Id,
    /// The behavioural flag bits.
    pub flags: WindowFlags,
    /// The window size; on each axis, positive is a fixed size, zero fills
    /// the remaining parent space, negative fills it minus the magnitude.
    pub size: Size2,
    /// The desired content size; a zero axis is left automatic.
    pub content_size: Size2,
    /// Whether the window should take focus when committed.
    pub focused: bool,
    /// The background alpha; non-finite (the default) means unset.
    pub bg_alpha: Scalar,
    /// Whether to draw the child-window border.
    pub border: bool,
}

/// The numeric window ID an identifier resolves to.
pub open spec fn resolved_id(id: Id) -> u64 {
    match id {
        Id::Int(v) => hash_ptr(v),
        Id::Ptr(p) => hash_ptr(p),
        Id::Str(b) => hash_bytes(b@),
    }
}

/// The hashing call an identifier routes through: the integer and pointer
/// forms hash their raw value through the pointer facility, the string
/// form hashes exactly its byte range.
pub open spec fn id_call(id: Id) -> EngineCall {
    match id {
        Id::Int(v) => EngineCall::HashPtr { value: v },
        Id::Ptr(p) => EngineCall::HashPtr { value: p },
        Id::Str(b) => EngineCall::HashRange { len: b@.len() as usize, hash: hash_bytes(b@) },
    }
}

/// Whether a descriptor asks for a content size: at least one axis is
/// non-zero.
pub open spec fn wants_content_size(w: ChildWindow) -> bool {
    !bits_are_zero(w.content_size.x.bits) || !bits_are_zero(w.content_size.y.bits)
}

/// Whether a descriptor carries a background alpha: the value is finite.
pub open spec fn wants_bg_alpha(w: ChildWindow) -> bool {
    bits_are_finite(w.bg_alpha.bits)
}

/// The pre-configuration calls a commit issues, in order: content size if
/// requested, then focus if requested, then background alpha if set.
pub open spec fn pre_calls(w: ChildWindow) -> Seq<EngineCall> {
    (if wants_content_size(w) {
        seq![
            EngineCall::SetNextWindowContentSize {
                x_bits: w.content_size.x.bits,
                y_bits: w.content_size.y.bits,
            },
        ]
    } else {
        Seq::<EngineCall>::empty()
    }) + (if w.focused {
        seq![EngineCall::SetNextWindowFocus]
    } else {
        Seq::<EngineCall>::empty()
    }) + (if wants_bg_alpha(w) {
        seq![EngineCall::SetNextWindowBgAlpha { alpha_bits: w.bg_alpha.bits }]
    } else {
        Seq::<EngineCall>::empty()
    })
}

/// The window push a commit ends with.
pub open spec fn begin_call(w: ChildWindow) -> EngineCall {
    EngineCall::BeginChild {
        id: resolved_id(w.id),
        x_bits: w.size.x.bits,
        y_bits: w.size.y.bits,
        border: w.border,
        flags_bits: w.flags.bits,
    }
}

/// Every engine call a commit issues, in order: the pre-configuration
/// calls, the identifier hash, and the window push.
pub open spec fn commit_calls(w: ChildWindow) -> Seq<EngineCall> {
    pre_calls(w) + seq![id_call(w.id)] + seq![begin_call(w)]
}

/// The frame context after committing a descriptor: the commit calls
/// appended to the log, the resolved ID pushed onto the window stack, and
/// one visibility answer consumed.
pub open spec fn commit_effect(m: UiModel, w: ChildWindow) -> UiModel {
    UiModel {
        calls: m.calls + commit_calls(w),
        stack: m.stack.push(resolved_id(w.id)),
        script: m.script,
        cursor: vis_advance(m),
    }
}

/// The frame context after a guarded release: one pop recorded and the
/// stack popped when the guard was still armed, nothing when it had
/// already been disarmed.
pub open spec fn release_effect(m: UiModel, armed: bool) -> UiModel {
    if armed {
        UiModel {
            calls: m.calls.push(EngineCall::EndChild),
            stack: stack_pop(m.stack),
            script: m.script,
            cursor: m.cursor,
        }
    } else {
        m
    }
}

impl ChildWindow {
    /// Creates a new child window builder with the given identifier and
    /// every other field at its default: empty flags, zero sizes, unset
    /// background alpha, not focused, no border.
    pub fn new(id: Id) -> (r: ChildWindow)
        ensures
            r.id == id,
            r.flags.bits == 0,
            r.size.x.bits == 0,
            r.size.y.bits == 0,
            r.content_size.x.bits == 0,
            r.content_size.y.bits == 0,
            !r.focused,
            r.bg_alpha.bits == crate::scalar::UNSET_BITS,
            !r.border,
            !wants_content_size(r),
            !wants_bg_alpha(r),
    {
        ChildWindow {
            id,
            flags: WindowFlags::empty(),
            size: Size2::zero(),
            content_size: Size2::zero(),
            focused: false,
            bg_alpha: Scalar::unset(),
            border: false,
        }
    }

    /// Replace current window flags with the given value.
    pub fn flags(self, flags: WindowFlags) -> (r: Self)
        ensures
            r.flags == flags,
            r.id == self.id,
            r.size == self.size,
            r.content_size == self.content_size,
            r.focused == self.focused,
            r.bg_alpha == self.bg_alpha,
            r.border == self.border,
    {
        let mut w = self;
        w.flags = flags;
        w
    }

    /// Sets the child window size.
    ///
    /// For each independent axis of size: positive is a fixed size, zero
    /// uses the remaining host window size, negative uses the remaining
    /// host window size minus the magnitude.
    pub fn size(self, size: Size2) -> (r: Self)
        ensures
            r.size == size,
            r.id == self.id,
            r.flags == self.flags,
            r.content_size == self.content_size,
            r.focused == self.focused,
            r.bg_alpha == self.bg_alpha,
            r.border == self.border,
    {
        let mut w = self;
        w.size = size;
        w
    }

    /// Sets the window content size, which can be used to enforce
    /// scrollbars. Set an axis to zero to leave it automatic.
    pub fn content_size(self, size: Size2) -> (r: Self)
        ensures
            r.content_size == size,
            r.id == self.id,
            r.flags == self.flags,
            r.size == self.size,
            r.focused == self.focused,
            r.bg_alpha == self.bg_alpha,
            r.border == self.border,
    {
        let mut w = self;
        w.content_size = size;
        w
    }

    /// Sets the window focused state, which can be used to bring the
    /// window to front.
    pub fn focused(self, focused: bool) -> (r: Self)
        ensures
            r.focused == focused,
            r.id == self.id,
            r.flags == self.flags,
            r.size == self.size,
            r.content_size == self.content_size,
            r.bg_alpha == self.bg_alpha,
            r.border == self.border,
    {
        let mut w = self;
        w.focused = focused;
        w
    }

    /// Sets the background colour alpha value.
    ///
    /// See also `draw_background`.
    pub fn bg_alpha(self, bg_alpha: Scalar) -> (r: Self)
        ensures
            r.bg_alpha == bg_alpha,
            r.id == self.id,
            r.flags == self.flags,
            r.size == self.size,
            r.content_size == self.content_size,
            r.focused == self.focused,
            r.border == self.border,
    {
        let mut w = self;
        w.bg_alpha = bg_alpha;
        w
    }

    /// Enables/disables the child window border.
    ///
    /// Disabled by default.
    pub fn border(self, border: bool) -> (r: Self)
        ensures
            r.border == border,
            r.id == self.id,
            r.flags == self.flags,
            r.size == self.size,
            r.content_size == self.content_size,
            r.focused == self.focused,
            r.bg_alpha == self.bg_alpha,
    {
        let mut w = self;
        w.border = border;
        w
    }

    /// Enables/disables scrollbars (scrolling is still possible with the
    /// mouse or programmatically).
    ///
    /// Enabled by default.
    pub fn scroll_bar(self, value: bool) -> (r: Self)
        ensures
            r.flags.bits == flag_set(self.flags.bits, NO_SCROLLBAR, !value),
            same_but_flags(r, self),
    {
        let mut w = self;
        w.flags.set(NO_SCROLLBAR, !value);
        w
    }

    /// Enables/disables vertical scrolling with the mouse wheel.
    ///
    /// Enabled by default.
    pub fn scrollable(self, value: bool) -> (r: Self)
        ensures
            r.flags.bits == flag_set(self.flags.bits, NO_SCROLL_WITH_MOUSE, !value),
            same_but_flags(r, self),
    {
        let mut w = self;
        w.flags.set(NO_SCROLL_WITH_MOUSE, !value);
        w
    }

    /// Enables/disables resizing the window to its content on every frame.
    ///
    /// Disabled by default.
    pub fn always_auto_resize(self, value: bool) -> (r: Self)
        ensures
            r.flags.bits == flag_set(self.flags.bits, ALWAYS_AUTO_RESIZE, value),
            same_but_flags(r, self),
    {
        let mut w = self;
        w.flags.set(ALWAYS_AUTO_RESIZE, value);
        w
    }

    /// Enables/disables drawing of background colour and outside border.
    ///
    /// Enabled by default.
    pub fn draw_background(self, value: bool) -> (r: Self)
        ensures
            r.flags.bits == flag_set(self.flags.bits, NO_BACKGROUND, !value),
            same_but_flags(r, self),
    {
        let mut w = self;
        w.flags.set(NO_BACKGROUND, !value);
        w
    }

    /// Enables/disables catching mouse input.
    ///
    /// Enabled by default. Hovering tests pass through when disabled.
    pub fn mouse_inputs(self, value: bool) -> (r: Self)
        ensures
            r.flags.bits == flag_set(self.flags.bits, NO_MOUSE_INPUTS, !value),
            same_but_flags(r, self),
    {
        let mut w = self;
        w.flags.set(NO_MOUSE_INPUTS, !value);
        w
    }

    /// Enables/disables the menu bar.
    ///
    /// Disabled by default.
    pub fn menu_bar(self, value: bool) -> (r: Self)
        ensures
            r.flags.bits == flag_set(self.flags.bits, MENU_BAR, value),
            same_but_flags(r, self),
    {
        let mut w = self;
        w.flags.set(MENU_BAR, value);
        w
    }

    /// Enables/disables the horizontal scrollbar.
    ///
    /// Disabled by default.
    pub fn horizontal_scrollbar(self, value: bool) -> (r: Self)
        ensures
            r.flags.bits == flag_set(self.flags.bits, HORIZONTAL_SCROLLBAR, value),
            same_but_flags(r, self),
    {
        let mut w = self;
        w.flags.set(HORIZONTAL_SCROLLBAR, value);
        w
    }

    /// Enables/disables taking focus when transitioning from hidden to
    /// visible state.
    ///
    /// Enabled by default.
    pub fn focus_on_appearing(self, value: bool) -> (r: Self)
        ensures
            r.flags.bits == flag_set(self.flags.bits, NO_FOCUS_ON_APPEARING, !value),
            same_but_flags(r, self),
    {
        let mut w = self;
        w.flags.set(NO_FOCUS_ON_APPEARING, !value);
        w
    }

    /// Enables/disables bringing the window to front when taking focus
    /// (e.g. clicking it or programmatically giving it focus).
    ///
    /// Enabled by default.
    pub fn bring_to_front_on_focus(self, value: bool) -> (r: Self)
        ensures
            r.flags.bits == flag_set(self.flags.bits, NO_BRING_TO_FRONT_ON_FOCUS, !value),
            same_but_flags(r, self),
    {
        let mut w = self;
        w.flags.set(NO_BRING_TO_FRONT_ON_FOCUS, !value);
        w
    }

    /// When enabled, forces the vertical scrollbar to render regardless of
    /// the content size.
    ///
    /// Disabled by default.
    pub fn always_vertical_scrollbar(self, value: bool) -> (r: Self)
        ensures
            r.flags.bits == flag_set(self.flags.bits, ALWAYS_VERTICAL_SCROLLBAR, value),
            same_but_flags(r, self),
    {
        let mut w = self;
        w.flags.set(ALWAYS_VERTICAL_SCROLLBAR, value);
        w
    }

    /// When enabled, forces the horizontal scrollbar to render regardless
    /// of the content size.
    ///
    /// Disabled by default.
    pub fn always_horizontal_scrollbar(self, value: bool) -> (r: Self)
        ensures
            r.flags.bits == flag_set(self.flags.bits, ALWAYS_HORIZONTAL_SCROLLBAR, value),
            same_but_flags(r, self),
    {
        let mut w = self;
        w.flags.set(ALWAYS_HORIZONTAL_SCROLLBAR, value);
        w
    }

    /// When enabled, ensures child windows without border use the style's
    /// window padding.
    ///
    /// Disabled by default.
    pub fn always_use_window_padding(self, value: bool) -> (r: Self)
        ensures
            r.flags.bits == flag_set(self.flags.bits, ALWAYS_USE_WINDOW_PADDING, value),
            same_but_flags(r, self),
    {
        let mut w = self;
        w.flags.set(ALWAYS_USE_WINDOW_PADDING, value);
        w
    }

    /// Enables/disables gamepad/keyboard navigation within the window.
    ///
    /// Enabled by default.
    pub fn nav_inputs(self, value: bool) -> (r: Self)
        ensures
            r.flags.bits == flag_set(self.flags.bits, NO_NAV_INPUTS, !value),
            same_but_flags(r, self),
    {
        let mut w = self;
        w.flags.set(NO_NAV_INPUTS, !value);
        w
    }

    /// Enables/disables focusing toward this window with gamepad/keyboard
    /// navigation (e.g. CTRL+TAB).
    ///
    /// Enabled by default.
    pub fn nav_focus(self, value: bool) -> (r: Self)
        ensures
            r.flags.bits == flag_set(self.flags.bits, NO_NAV_FOCUS, !value),
            same_but_flags(r, self),
    {
        let mut w = self;
        w.flags.set(NO_NAV_FOCUS, !value);
        w
    }

    /// Disable gamepad/keyboard navigation and focusing: shorthand for
    /// `nav_inputs(false)` followed by `nav_focus(false)`.
    pub fn no_nav(self) -> (r: Self)
        ensures
            r.flags.bits == flag_set(self.flags.bits, NO_NAV, true),
            same_but_flags(r, self),
    {
        let mut w = self;
        w.flags.set(NO_NAV, true);
        w
    }

    /// Don't handle input: shorthand for `mouse_inputs(false)`,
    /// `nav_inputs(false)`, `nav_focus(false)` in sequence.
    pub fn no_inputs(self) -> (r: Self)
        ensures
            r.flags.bits == flag_set(self.flags.bits, NO_INPUTS, true),
            same_but_flags(r, self),
    {
        let mut w = self;
        w.flags.set(NO_INPUTS, true);
        w
    }

    /// Builds this window, pushes it onto the window stack, and starts
    /// appending to it: issues the pre-configuration calls for the
    /// optional fields, resolves the identifier, and pushes the window,
    /// returning an armed token that carries the engine's visibility
    /// answer. This consumes the descriptor.
    pub fn begin(self, ui: &mut Ui) -> (t: ChildWindowToken)
        ensures
            final(ui)@ == commit_effect(old(ui)@, self),
            t.should_render == vis_next(old(ui)@),
            t.armed(),
    {
        if !self.content_size.x.is_zero() || !self.content_size.y.is_zero() {
            ui.set_next_window_content_size(self.content_size);
        }
        if self.focused {
            ui.set_next_window_focus();
        }
        if self.bg_alpha.is_finite() {
            ui.set_next_window_bg_alpha(self.bg_alpha.bits);
        }
        let id = match &self.id {
            Id::Int(v) => ui.hash_id_from_pointer(*v),
            Id::Ptr(p) => ui.hash_id_from_pointer(*p),
            Id::Str(bytes) => ui.hash_id_from_byte_range(bytes),
        };
        let should_render = ui.begin_child(id, self.size, self.border, self.flags.bits());
        proof {
            assert(ui@.calls =~= old(ui)@.calls + commit_calls(self));
            assert(ui@ =~= commit_effect(old(ui)@, self));
        }
        ChildWindowToken { should_render, should_end: true }
    }

    /// Builds this child window using the given closure to create the
    /// window content: commits the descriptor, invokes the closure only if
    /// the window's content is visible, and releases the token exactly
    /// once in either case.
    pub fn build<F: FnOnce()>(self, ui: &mut Ui, f: F)
        requires
            call_requires(f, ()),
        ensures
            final(ui)@ == release_effect(commit_effect(old(ui)@, self), true),
            vis_next(old(ui)@) ==> call_ensures(f, (), ()),
    {
        let token = self.begin(ui);
        if token.should_render {
            f();
        }
        token.end(ui);
    }
}

/// Whether two descriptors agree on every field but the flags.
pub open spec fn same_but_flags(r: ChildWindow, w: ChildWindow) -> bool {
    &&& r.id == w.id
    &&& r.size == w.size
    &&& r.content_size == w.content_size
    &&& r.focused == w.focused
    &&& r.bg_alpha == w.bg_alpha
    &&& r.border == w.border
}

/// Represents a child window pushed onto the window stack.
///
/// The pop is guarded by a one-shot disarm flag: `release` pops the stack
/// and disarms when the token is still armed, and does nothing once it has
/// been disarmed, so running it again at scope exit can never pop twice.
///
/// Tokens must be released in exactly the reverse of the order they were
/// created: nested child windows rely on strict stack discipline.
/// Releasing tokens out of that order pops the wrong window off the
/// engine's stack. This is a usage contract, not checked at runtime; it is
/// an open design question whether a debug-mode depth check at release
/// time would be worth adding.
pub struct ChildWindowToken {
    /// True if the child window contents should be rendered this frame.
    pub should_render: bool,
    /// The one-shot guard: true while the pop is still owed.
    pub should_end: bool,
}

impl ChildWindowToken {
    /// Whether the guard is still armed, i.e. the pop is still owed.
    pub open spec fn armed(self) -> bool {
        self.should_end
    }

    /// The guarded release: pops the window off the window stack and
    /// disarms the guard if it was still armed, and leaves the frame
    /// context untouched if it had already been disarmed. Scope-exit
    /// cleanup runs exactly this, so an explicit release followed by the
    /// cleanup pops only once.
    pub fn release(&mut self, ui: &mut Ui)
        ensures
            final(ui)@ == release_effect(old(ui)@, old(self).armed()),
            !final(self).armed(),
            final(self).should_render == old(self).should_render,
    {
        if self.should_end {
            self.should_end = false;
            ui.end_child();
        }
    }

    /// Finishes the current child window and pops it from the window
    /// stack, consuming the token.
    pub fn end(self, ui: &mut Ui)
        ensures
            final(ui)@ == release_effect(old(ui)@, self.armed()),
    {
        let mut token = self;
        token.release(ui);
    }
}

} // verus!
