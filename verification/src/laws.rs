//! The lifecycle and configuration laws of the child-window unit, stated
//! over the engine model and proved once for all descriptors and frame
//! states.
//!
//! The flag-level laws (a setter rewrites only its own mask; the shorthand
//! masks are exactly the compositions they document) live beside the flag
//! type in `flags`. The laws here govern the engine-call sequences of
//! commit and release: release-exactly-once, the balanced push/pop of
//! `build`, strict LIFO nesting, the conditional pre-configuration calls,
//! and identifier routing.

use vstd::prelude::*;

use crate::engine::EngineCall;
use crate::engine::UiModel;
use crate::engine::hash_bytes;
use crate::id::Id;
use crate::scalar::UNSET_BITS;
use crate::scalar::bits_are_zero;
use crate::window::ChildWindow;
use crate::window::begin_call;
use crate::window::commit_calls;
use crate::window::commit_effect;
use crate::window::id_call;
use crate::window::pre_calls;
use crate::window::release_effect;
use crate::window::resolved_id;
use crate::window::wants_bg_alpha;
use crate::window::wants_content_size;

verus! {

/// How many pops (`EndChild`) a call sequence holds.
pub open spec fn count_end_calls(s: Seq<EngineCall>) -> nat
    decreases s.len(),
{
    if s.len() == 0 {
        0nat
    } else {
        count_end_calls(s.drop_last()) + (if s.last() is EndChild {
            1nat
        } else {
            0nat
        })
    }
}

/// How many background-alpha calls a call sequence holds.
pub open spec fn count_bg_alpha_calls(s: Seq<EngineCall>) -> nat
    decreases s.len(),
{
    if s.len() == 0 {
        0nat
    } else {
        count_bg_alpha_calls(s.drop_last()) + (if s.last() is SetNextWindowBgAlpha {
            1nat
        } else {
            0nat
        })
    }
}

/// How many content-size calls a call sequence holds.
pub open spec fn count_content_size_calls(s: Seq<EngineCall>) -> nat
    decreases s.len(),
{
    if s.len() == 0 {
        0nat
    } else {
        count_content_size_calls(s.drop_last()) + (if s.last() is SetNextWindowContentSize {
            1nat
        } else {
            0nat
        })
    }
}

proof fn lemma_count_end_add(a: Seq<EngineCall>, b: Seq<EngineCall>)
    ensures
        count_end_calls(a + b) == count_end_calls(a) + count_end_calls(b),
    decreases b.len(),
{
    if b.len() == 0 {
        assert(a + b =~= a);
    } else {
        assert((a + b).drop_last() =~= a + b.drop_last());
        lemma_count_end_add(a, b.drop_last());
    }
}

proof fn lemma_count_bg_alpha_add(a: Seq<EngineCall>, b: Seq<EngineCall>)
    ensures
        count_bg_alpha_calls(a + b) == count_bg_alpha_calls(a) + count_bg_alpha_calls(b),
    decreases b.len(),
{
    if b.len() == 0 {
        assert(a + b =~= a);
    } else {
        assert((a + b).drop_last() =~= a + b.drop_last());
        lemma_count_bg_alpha_add(a, b.drop_last());
    }
}

proof fn lemma_count_content_size_add(a: Seq<EngineCall>, b: Seq<EngineCall>)
    ensures
        count_content_size_calls(a + b) == count_content_size_calls(a)
            + count_content_size_calls(b),
    decreases b.len(),
{
    if b.len() == 0 {
        assert(a + b =~= a);
    } else {
        assert((a + b).drop_last() =~= a + b.drop_last());
        lemma_count_content_size_add(a, b.drop_last());
    }
}

proof fn lemma_counts_singleton(c: EngineCall)
    ensures
        count_end_calls(seq![c]) == if c is EndChild {
            1nat
        } else {
            0nat
        },
        count_bg_alpha_calls(seq![c]) == if c is SetNextWindowBgAlpha {
            1nat
        } else {
            0nat
        },
        count_content_size_calls(seq![c]) == if c is SetNextWindowContentSize {
            1nat
        } else {
            0nat
        },
{
    assert(seq![c].drop_last() =~= Seq::<EngineCall>::empty());
    assert(seq![c].last() == c);
    assert(count_end_calls(Seq::<EngineCall>::empty()) == 0);
    assert(count_bg_alpha_calls(Seq::<EngineCall>::empty()) == 0);
    assert(count_content_size_calls(Seq::<EngineCall>::empty()) == 0);
}

/// Exactly one release per commit. Releasing an armed token appends
/// exactly one pop to the call log and disarms the guard; a guarded
/// release of a disarmed token — the scope-exit path after an explicit
/// release — changes nothing at all. So the explicit path followed by
/// scope exit, and the scope-exit-only path, each pop exactly once.
pub proof fn lemma_release_exactly_once(m: UiModel)
    ensures
        count_end_calls(release_effect(m, true).calls) == count_end_calls(m.calls) + 1,
        release_effect(release_effect(m, true), false) == release_effect(m, true),
        release_effect(m, false) == m,
{
    assert(m.calls.push(EngineCall::EndChild).drop_last() =~= m.calls);
}

/// `build` balances the window stack whatever the visibility answer was:
/// the call log gains the commit calls followed by exactly one pop, and
/// the window stack returns to its prior state.
pub proof fn lemma_build_balances(m: UiModel, w: ChildWindow)
    ensures
        release_effect(commit_effect(m, w), true).calls == m.calls + commit_calls(w) + seq![
            EngineCall::EndChild,
        ],
        release_effect(commit_effect(m, w), true).stack == m.stack,
        count_end_calls(release_effect(commit_effect(m, w), true).calls) == count_end_calls(
            m.calls + commit_calls(w),
        ) + 1,
{
    assert(m.stack.push(resolved_id(w.id)).drop_last() =~= m.stack);
    assert((m.calls + commit_calls(w)).push(EngineCall::EndChild) =~= m.calls + commit_calls(w)
        + seq![EngineCall::EndChild]);
    lemma_release_exactly_once(commit_effect(m, w));
}

/// Strict LIFO nesting: committing descriptor `a`, committing descriptor
/// `b` inside it, then releasing the inner token and the outer token in
/// that order, pops the pushes in exactly reverse order — the inner
/// release restores the stack the outer commit left, the outer release
/// restores the stack as it stood before either commit, and the call log
/// holds the two commit sequences followed by the two pops.
pub proof fn lemma_nested_commits_release_lifo(m: UiModel, a: ChildWindow, b: ChildWindow)
    ensures
        ({
            let committed_a = commit_effect(m, a);
            let committed_b = commit_effect(committed_a, b);
            let released_b = release_effect(committed_b, true);
            let released_a = release_effect(released_b, true);
            &&& released_b.stack == committed_a.stack
            &&& released_a.stack == m.stack
            &&& released_a.calls == m.calls + commit_calls(a) + commit_calls(b) + seq![
                EngineCall::EndChild,
            ] + seq![EngineCall::EndChild]
        }),
{
    let committed_a = commit_effect(m, a);
    let committed_b = commit_effect(committed_a, b);
    assert(committed_b.stack.drop_last() =~= committed_a.stack);
    assert(committed_a.stack.drop_last() =~= m.stack);
    let released_b = release_effect(committed_b, true);
    let released_a = release_effect(released_b, true);
    assert(released_a.calls =~= m.calls + commit_calls(a) + commit_calls(b) + seq![
        EngineCall::EndChild,
    ] + seq![EngineCall::EndChild]);
}

/// A commit issues the background-alpha call exactly when the descriptor's
/// alpha is finite: once when it is, never when it is not.
pub proof fn lemma_bg_alpha_fires_iff_finite(w: ChildWindow)
    ensures
        count_bg_alpha_calls(commit_calls(w)) == if wants_bg_alpha(w) {
            1nat
        } else {
            0nat
        },
{
    lemma_count_bg_alpha_add(pre_calls(w) + seq![id_call(w.id)], seq![begin_call(w)]);
    lemma_count_bg_alpha_add(pre_calls(w), seq![id_call(w.id)]);
    lemma_pre_call_counts(w);
    lemma_counts_singleton(id_call(w.id));
    lemma_counts_singleton(begin_call(w));
}

/// The unset alpha sentinel of a default-constructed descriptor is not
/// finite, so such a descriptor never triggers the background-alpha call.
pub proof fn lemma_unset_alpha_never_fires(w: ChildWindow)
    requires
        w.bg_alpha.bits == UNSET_BITS,
    ensures
        count_bg_alpha_calls(commit_calls(w)) == 0,
{
    assert(0x7fc0_0000u32 & 0x7f80_0000u32 == 0x7f80_0000u32) by (bit_vector);
    lemma_bg_alpha_fires_iff_finite(w);
}

/// A commit issues the content-size call exactly when at least one axis of
/// the desired content size is non-zero: once when one is, never when both
/// are zero.
pub proof fn lemma_content_size_fires_iff_nonzero(w: ChildWindow)
    ensures
        count_content_size_calls(commit_calls(w)) == if wants_content_size(w) {
            1nat
        } else {
            0nat
        },
{
    lemma_count_content_size_add(pre_calls(w) + seq![id_call(w.id)], seq![begin_call(w)]);
    lemma_count_content_size_add(pre_calls(w), seq![id_call(w.id)]);
    lemma_pre_call_counts(w);
    lemma_counts_singleton(id_call(w.id));
    lemma_counts_singleton(begin_call(w));
}

/// A descriptor whose content size is zero on both axes never triggers the
/// content-size call.
pub proof fn lemma_zero_content_size_never_fires(w: ChildWindow)
    requires
        bits_are_zero(w.content_size.x.bits),
        bits_are_zero(w.content_size.y.bits),
    ensures
        count_content_size_calls(commit_calls(w)) == 0,
{
    lemma_content_size_fires_iff_nonzero(w);
}

/// Identifier routing: the hashing call of a commit stands directly before
/// the window push, the integer and pointer forms both route through the
/// pointer facility with their raw value, and the string form routes
/// through the byte-range facility spanning exactly its bytes.
pub proof fn lemma_identifier_routing(w: ChildWindow)
    ensures
        commit_calls(w).len() == pre_calls(w).len() + 2,
        commit_calls(w)[commit_calls(w).len() - 2] == id_call(w.id),
        w.id matches Id::Int(v) ==> id_call(w.id) == (EngineCall::HashPtr { value: v }),
        w.id matches Id::Ptr(p) ==> id_call(w.id) == (EngineCall::HashPtr { value: p }),
        w.id matches Id::Str(b) ==> id_call(w.id) == (EngineCall::HashRange {
            len: b@.len() as usize,
            hash: hash_bytes(b@),
        }),
{
    let n = pre_calls(w).len() as int;
    assert(commit_calls(w)[n] == id_call(w.id));
}

proof fn lemma_pre_call_counts(w: ChildWindow)
    ensures
        count_bg_alpha_calls(pre_calls(w)) == if wants_bg_alpha(w) {
            1nat
        } else {
            0nat
        },
        count_content_size_calls(pre_calls(w)) == if wants_content_size(w) {
            1nat
        } else {
            0nat
        },
        count_end_calls(pre_calls(w)) == 0,
{
    let cs = if wants_content_size(w) {
        seq![
            EngineCall::SetNextWindowContentSize {
                x_bits: w.content_size.x.bits,
                y_bits: w.content_size.y.bits,
            },
        ]
    } else {
        Seq::<EngineCall>::empty()
    };
    let fc = if w.focused {
        seq![EngineCall::SetNextWindowFocus]
    } else {
        Seq::<EngineCall>::empty()
    };
    let bg = if wants_bg_alpha(w) {
        seq![EngineCall::SetNextWindowBgAlpha { alpha_bits: w.bg_alpha.bits }]
    } else {
        Seq::<EngineCall>::empty()
    };
    lemma_count_bg_alpha_add(cs + fc, bg);
    lemma_count_bg_alpha_add(cs, fc);
    lemma_count_content_size_add(cs + fc, bg);
    lemma_count_content_size_add(cs, fc);
    lemma_count_end_add(cs + fc, bg);
    lemma_count_end_add(cs, fc);
    if wants_content_size(w) {
        lemma_counts_singleton(cs[0]);
    }
    if w.focused {
        lemma_counts_singleton(fc[0]);
    }
    if wants_bg_alpha(w) {
        lemma_counts_singleton(bg[0]);
    }
}

} // verus!
