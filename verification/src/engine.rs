//! The frame context, modelled as a recording engine.
//!
//! The rendering engine proper (layout, clipping, drawing, hit-testing) is
//! outside this unit: the child-window logic only issues a small set of
//! engine calls against the active frame context. `Ui` models that context
//! as a recording engine: every engine call is appended to a call log, the
//! window stack is tracked explicitly, and the visibility answer of each
//! window push is taken from a script so that callers can drive either
//! outcome. The call log is the ground truth that the commit and release
//! contracts are stated over.

use vstd::prelude::*;

use crate::scalar::Size2;

verus! {

/// The seed of the byte-range hash.
pub const HASH_SEED: u64 = 0x517c_c1b7_2722_0a95;

/// The constant mixed into a pointer value to derive its window ID.
pub const PTR_HASH_MIX: u64 = 0x9e37_79b9_7f4a_7c15;

/// One step of the byte-range hash: rotate the accumulator left by five
/// bits, then fold in the next byte.
pub open spec fn hash_step(h: u64, b: u8) -> u64 {
    ((h << 5) | (h >> 59)) ^ (b as u64)
}

/// The window ID derived from a byte range: the hash seed folded over the
/// bytes in order.
pub open spec fn hash_bytes(s: Seq<u8>) -> u64
    decreases s.len(),
{
    if s.len() == 0 {
        HASH_SEED
    } else {
        hash_step(hash_bytes(s.drop_last()), s.last())
    }
}

/// The window ID derived from a pointer value (or an integer reinterpreted
/// as an address-sized value).
pub open spec fn hash_ptr(v: u64) -> u64 {
    v ^ PTR_HASH_MIX
}

/// One engine call, as the frame context records it.
#[derive(Clone, Copy, PartialEq, Eq, Structural, Debug)]
pub enum EngineCall {
    /// The desired content size of the next window to be opened.
    SetNextWindowContentSize { x_bits: u32, y_bits: u32 },
    /// The next window should take focus.
    SetNextWindowFocus,
    /// The background alpha of the next window.
    SetNextWindowBgAlpha { alpha_bits: u32 },
    /// A window ID was derived from a pointer-sized value.
    HashPtr { value: u64 },
    /// A window ID was derived from a byte range of the given length.
    HashRange { len: usize, hash: u64 },
    /// A window was pushed onto the window stack.
    BeginChild { id: u64, x_bits: u32, y_bits: u32, border: bool, flags_bits: u32 },
    /// The top window was popped off the window stack.
    EndChild,
}

/// The mathematical state of a frame context: the engine calls made so
/// far, the window stack, and the visibility script with its cursor.
#[verifier::ext_equal]
pub ghost struct UiModel {
    /// Every engine call made this frame, in order.
    pub calls: Seq<EngineCall>,
    /// The IDs of the currently open windows, bottom first.
    pub stack: Seq<u64>,
    /// The scripted visibility answers, consumed front to back.
    pub script: Seq<bool>,
    /// How many script entries have been consumed.
    pub cursor: nat,
}

/// The visibility answer the next window push will receive: the next
/// scripted entry, or visible once the script is exhausted.
pub open spec fn vis_next(m: UiModel) -> bool {
    if m.cursor < m.script.len() {
        m.script[m.cursor as int]
    } else {
        true
    }
}

/// The script cursor after one window push: advanced while scripted
/// answers remain, unchanged once the script is exhausted.
pub open spec fn vis_advance(m: UiModel) -> nat {
    if m.cursor < m.script.len() {
        m.cursor + 1
    } else {
        m.cursor
    }
}

/// The window stack after one pop: the top element removed, or the empty
/// stack left as it is.
pub open spec fn stack_pop(s: Seq<u64>) -> Seq<u64> {
    if s.len() > 0 {
        s.drop_last()
    } else {
        s
    }
}

/// The active frame context: a recording engine.
pub struct Ui {
    calls: Vec<EngineCall>,
    stack: Vec<u64>,
    vis_script: Vec<bool>,
    vis_cursor: usize,
}

impl View for Ui {
    type V = UiModel;

    closed spec fn view(&self) -> UiModel {
        UiModel {
            calls: self.calls@,
            stack: self.stack@,
            script: self.vis_script@,
            cursor: self.vis_cursor as nat,
        }
    }
}

impl Ui {
    /// Opens a fresh frame: no calls made, no windows open, every window
    /// push reporting its content as visible.
    pub fn new_frame() -> (ui: Ui)
        ensures
            ui@ == (UiModel {
                calls: Seq::<EngineCall>::empty(),
                stack: Seq::<u64>::empty(),
                script: Seq::<bool>::empty(),
                cursor: 0,
            }),
    {
        Ui { calls: Vec::new(), stack: Vec::new(), vis_script: Vec::new(), vis_cursor: 0 }
    }

    /// Opens a fresh frame whose window pushes answer with the given
    /// visibility script, front to back, then visible once it is spent.
    pub fn new_frame_with_visibility(script: Vec<bool>) -> (ui: Ui)
        ensures
            ui@ == (UiModel {
                calls: Seq::<EngineCall>::empty(),
                stack: Seq::<u64>::empty(),
                script: script@,
                cursor: 0,
            }),
    {
        Ui { calls: Vec::new(), stack: Vec::new(), vis_script: script, vis_cursor: 0 }
    }

    /// How many engine calls have been made this frame.
    pub fn call_count(&self) -> (n: usize)
        ensures
            n == self@.calls.len(),
    {
        self.calls.len()
    }

    /// The `i`th engine call of the frame.
    pub fn call_at(&self, i: usize) -> (c: EngineCall)
        requires
            i < self@.calls.len(),
        ensures
            c == self@.calls[i as int],
    {
        self.calls[i]
    }

    /// How many windows are currently open.
    pub fn depth(&self) -> (n: usize)
        ensures
            n == self@.stack.len(),
    {
        self.stack.len()
    }

    /// The ID of the `i`th open window, bottom first.
    pub fn stack_at(&self, i: usize) -> (id: u64)
        requires
            i < self@.stack.len(),
        ensures
            id == self@.stack[i as int],
    {
        self.stack[i]
    }

    /// Records the desired content size of the next window to be opened.
    pub fn set_next_window_content_size(&mut self, size: Size2)
        ensures
            final(self)@ == (UiModel {
                calls: old(self)@.calls.push(
                    EngineCall::SetNextWindowContentSize {
                        x_bits: size.x.bits,
                        y_bits: size.y.bits,
                    },
                ),
                stack: old(self)@.stack,
                script: old(self)@.script,
                cursor: old(self)@.cursor,
            }),
    {
        self.calls.push(
            EngineCall::SetNextWindowContentSize { x_bits: size.x.bits, y_bits: size.y.bits },
        );
    }

    /// Records that the next window to be opened should take focus.
    pub fn set_next_window_focus(&mut self)
        ensures
            final(self)@ == (UiModel {
                calls: old(self)@.calls.push(EngineCall::SetNextWindowFocus),
                stack: old(self)@.stack,
                script: old(self)@.script,
                cursor: old(self)@.cursor,
            }),
    {
        self.calls.push(EngineCall::SetNextWindowFocus);
    }

    /// Records the background alpha of the next window to be opened.
    pub fn set_next_window_bg_alpha(&mut self, alpha_bits: u32)
        ensures
            final(self)@ == (UiModel {
                calls: old(self)@.calls.push(EngineCall::SetNextWindowBgAlpha { alpha_bits }),
                stack: old(self)@.stack,
                script: old(self)@.script,
                cursor: old(self)@.cursor,
            }),
    {
        self.calls.push(EngineCall::SetNextWindowBgAlpha { alpha_bits });
    }

    /// Derives a window ID from a pointer-sized value and records the call.
    pub fn hash_id_from_pointer(&mut self, value: u64) -> (id: u64)
        ensures
            id == hash_ptr(value),
            final(self)@ == (UiModel {
                calls: old(self)@.calls.push(EngineCall::HashPtr { value }),
                stack: old(self)@.stack,
                script: old(self)@.script,
                cursor: old(self)@.cursor,
            }),
    {
        self.calls.push(EngineCall::HashPtr { value });
        value ^ PTR_HASH_MIX
    }

    /// Derives a window ID from a byte range and records the call.
    pub fn hash_id_from_byte_range(&mut self, bytes: &Vec<u8>) -> (id: u64)
        ensures
            id == hash_bytes(bytes@),
            final(self)@ == (UiModel {
                calls: old(self)@.calls.push(
                    EngineCall::HashRange { len: bytes@.len() as usize, hash: hash_bytes(bytes@) },
                ),
                stack: old(self)@.stack,
                script: old(self)@.script,
                cursor: old(self)@.cursor,
            }),
    {
        let mut h: u64 = HASH_SEED;
        let mut i: usize = 0;
        while i < bytes.len()
            invariant
                i <= bytes.len(),
                h == hash_bytes(bytes@.take(i as int)),
            decreases bytes.len() - i,
        {
            let b = bytes[i];
            h = ((h << 5u64) | (h >> 59u64)) ^ (b as u64);
            proof {
                assert(bytes@.take(i + 1).drop_last() =~= bytes@.take(i as int));
                assert(bytes@.take(i + 1).last() == bytes@[i as int]);
            }
            i = i + 1;
        }
        proof {
            assert(bytes@.take(bytes@.len() as int) =~= bytes@);
        }
        self.calls.push(EngineCall::HashRange { len: bytes.len(), hash: h });
        h
    }

    /// Pushes a window onto the window stack, records the call, and
    /// answers whether the window's content is visible this frame.
    pub fn begin_child(&mut self, id: u64, size: Size2, border: bool, flags_bits: u32) -> (visible:
        bool)
        ensures
            visible == vis_next(old(self)@),
            final(self)@ == (UiModel {
                calls: old(self)@.calls.push(
                    EngineCall::BeginChild {
                        id,
                        x_bits: size.x.bits,
                        y_bits: size.y.bits,
                        border,
                        flags_bits,
                    },
                ),
                stack: old(self)@.stack.push(id),
                script: old(self)@.script,
                cursor: vis_advance(old(self)@),
            }),
    {
        self.calls.push(
            EngineCall::BeginChild {
                id,
                x_bits: size.x.bits,
                y_bits: size.y.bits,
                border,
                flags_bits,
            },
        );
        self.stack.push(id);
        if self.vis_cursor < self.vis_script.len() {
            let v = self.vis_script[self.vis_cursor];
            self.vis_cursor = self.vis_cursor + 1;
            v
        } else {
            true
        }
    }

    /// Pops the top window off the window stack and records the call. On an
    /// empty stack the pop is recorded and the stack left empty.
    pub fn end_child(&mut self)
        ensures
            final(self)@ == (UiModel {
                calls: old(self)@.calls.push(EngineCall::EndChild),
                stack: stack_pop(old(self)@.stack),
                script: old(self)@.script,
                cursor: old(self)@.cursor,
            }),
    {
        self.calls.push(EngineCall::EndChild);
        if self.stack.len() > 0 {
            let _ = self.stack.pop();
        }
    }
}

} // verus!
