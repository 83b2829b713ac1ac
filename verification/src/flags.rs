//! The window-behaviour bit set.
//!
//! A `WindowFlags` value is a pure bit set of independent boolean
//! behaviours. Each named behaviour occupies one bit; the two shorthand
//! masks (`NO_NAV`, `NO_INPUTS`) are fixed unions of existing bits, not new
//! ones. Setting a behaviour rewrites exactly the masked bits and never
//! reads engine state.

use vstd::prelude::*;

verus! {

/// Hide the scrollbars (scrolling stays possible).
pub const NO_SCROLLBAR: u32 = 0x0000_0008;

/// Do not scroll with the mouse wheel.
pub const NO_SCROLL_WITH_MOUSE: u32 = 0x0000_0010;

/// Resize the window to its content every frame.
pub const ALWAYS_AUTO_RESIZE: u32 = 0x0000_0040;

/// Do not draw the background colour and outside border.
pub const NO_BACKGROUND: u32 = 0x0000_0080;

/// Do not catch mouse input; hovering passes through.
pub const NO_MOUSE_INPUTS: u32 = 0x0000_0200;

/// Show a menu bar.
pub const MENU_BAR: u32 = 0x0000_0400;

/// Allow a horizontal scrollbar.
pub const HORIZONTAL_SCROLLBAR: u32 = 0x0000_0800;

/// Do not take focus when transitioning from hidden to visible.
pub const NO_FOCUS_ON_APPEARING: u32 = 0x0000_1000;

/// Do not bring the window to front when it takes focus.
pub const NO_BRING_TO_FRONT_ON_FOCUS: u32 = 0x0000_2000;

/// Always show the vertical scrollbar.
pub const ALWAYS_VERTICAL_SCROLLBAR: u32 = 0x0000_4000;

/// Always show the horizontal scrollbar.
pub const ALWAYS_HORIZONTAL_SCROLLBAR: u32 = 0x0000_8000;

/// Use the style's window padding even without a border.
pub const ALWAYS_USE_WINDOW_PADDING: u32 = 0x0001_0000;

/// Do not react to gamepad/keyboard navigation inputs.
pub const NO_NAV_INPUTS: u32 = 0x0004_0000;

/// Do not take focus through gamepad/keyboard navigation.
pub const NO_NAV_FOCUS: u32 = 0x0008_0000;

/// Shorthand: the union of the two navigation bits.
pub const NO_NAV: u32 = NO_NAV_INPUTS | NO_NAV_FOCUS;

/// Shorthand: the union of the mouse bit and the two navigation bits.
pub const NO_INPUTS: u32 = NO_MOUSE_INPUTS | NO_NAV_INPUTS | NO_NAV_FOCUS;

/// The result of driving the bits selected by `mask` to `on` while leaving
/// every other bit alone.
pub open spec fn flag_set(bits: u32, mask: u32, on: bool) -> u32 {
    if on {
        bits | mask
    } else {
        bits & !mask
    }
}

/// An opaque bit set of window behaviours.
#[derive(Clone, Copy, PartialEq, Eq, Structural, Debug)]
pub struct WindowFlags {
    pub bits: u32,
}

impl WindowFlags {
    /// The empty bit set: every behaviour at its default.
    pub fn empty() -> (r: WindowFlags)
        ensures
            r.bits == 0,
    {
        WindowFlags { bits: 0 }
    }

    /// Wraps a raw bit value.
    pub fn from_bits(bits: u32) -> (r: WindowFlags)
        ensures
            r.bits == bits,
    {
        WindowFlags { bits }
    }

    /// The numeric encoding handed to the engine.
    pub fn bits(&self) -> (r: u32)
        ensures
            r == self.bits,
    {
        self.bits
    }

    /// Drives the bits selected by `mask` to `on`, leaving the rest alone.
    pub fn set(&mut self, mask: u32, on: bool)
        ensures
            final(self).bits == flag_set(old(self).bits, mask, on),
    {
        if on {
            self.bits = self.bits | mask;
        } else {
            self.bits = self.bits & !mask;
        }
    }

    /// Whether every bit of `mask` is set.
    pub fn contains(&self, mask: u32) -> (r: bool)
        ensures
            r == (self.bits & mask == mask),
    {
        self.bits & mask == mask
    }
}

/// A flag update touches only the masked bits: any probe disjoint from the
/// mask reads the same bits before and after the update.
pub proof fn lemma_flag_set_frame(bits: u32, mask: u32, on: bool, probe: u32)
    requires
        probe & mask == 0,
    ensures
        flag_set(bits, mask, on) & probe == bits & probe,
{
    if on {
        assert((bits | mask) & probe == bits & probe) by (bit_vector)
            requires
                probe & mask == 0,
        ;
    } else {
        assert((bits & !mask) & probe == bits & probe) by (bit_vector)
            requires
                probe & mask == 0,
        ;
    }
}

/// A flag update drives the masked bits to the requested state: after the
/// update the masked bits read all-on or all-off.
pub proof fn lemma_flag_set_effect(bits: u32, mask: u32, on: bool)
    ensures
        flag_set(bits, mask, on) & mask == if on {
            mask
        } else {
            0u32
        },
{
    if on {
        assert((bits | mask) & mask == mask) by (bit_vector);
    } else {
        assert((bits & !mask) & mask == 0) by (bit_vector);
    }
}

/// The shorthand masks are exactly the compositions they document:
/// or-ing in `NO_NAV` equals disabling nav inputs and then nav focus, and
/// or-ing in `NO_INPUTS` equals disabling mouse inputs, nav inputs, and
/// then nav focus, bit for bit.
pub proof fn lemma_shorthand_compositions(bits: u32)
    ensures
        flag_set(bits, NO_NAV, true) == flag_set(
            flag_set(bits, NO_NAV_INPUTS, true),
            NO_NAV_FOCUS,
            true,
        ),
        flag_set(bits, NO_INPUTS, true) == flag_set(
            flag_set(flag_set(bits, NO_MOUSE_INPUTS, true), NO_NAV_INPUTS, true),
            NO_NAV_FOCUS,
            true,
        ),
{
    assert(bits | (0x0004_0000u32 | 0x0008_0000u32) == (bits | 0x0004_0000u32)
        | 0x0008_0000u32) by (bit_vector);
    assert(bits | (0x0000_0200u32 | 0x0004_0000u32 | 0x0008_0000u32) == ((bits | 0x0000_0200u32)
        | 0x0004_0000u32) | 0x0008_0000u32) by (bit_vector);
}

} // verus!
