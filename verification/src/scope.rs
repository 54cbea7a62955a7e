//! The scope-depth model of a rendered opcode stream: how each opcode
//! moves the depth counter, and the law that a closing opcode is laid out
//! at the same indentation as the opener it matches.

use vstd::prelude::*;

verus! {

/// How one opcode acts on the scope counter: whether it opens a scope
/// after its line, and whether it closes one before its line.
pub struct ScopeEv {
    pub opens: bool,
    pub closes: bool,
}

/// The depth an opcode's own line is laid out at: a closing opcode steps
/// down first, and the counter never goes below zero.
pub open spec fn scope_emit(depth: nat, ev: ScopeEv) -> nat {
    if ev.closes && depth > 0 {
        (depth - 1) as nat
    } else {
        depth
    }
}

/// The depth after an opcode: its layout depth, plus one if it opens a
/// scope.
pub open spec fn scope_step(depth: nat, ev: ScopeEv) -> nat {
    if ev.opens {
        scope_emit(depth, ev) + 1
    } else {
        scope_emit(depth, ev)
    }
}

/// The depth after the first `k` events, starting from `d0`.
pub open spec fn depth_after(evs: Seq<ScopeEv>, d0: nat, k: int) -> nat
    decreases k,
{
    if k <= 0 {
        d0
    } else {
        scope_step(depth_after(evs, d0, k - 1), evs[k - 1])
    }
}

/// The layout depth of each event in turn.
pub open spec fn emit_depths(evs: Seq<ScopeEv>, d0: nat) -> Seq<nat> {
    Seq::new(evs.len(), |k: int| scope_emit(depth_after(evs, d0, k), evs[k]))
}

/// Prepending one event shifts the fold: the depth after `k` events of
/// the extended sequence is the depth after `k - 1` events of the tail,
/// started one step further.
pub proof fn lemma_depth_shift(t: Seq<ScopeEv>, e: ScopeEv, d0: nat, k: int)
    requires
        1 <= k <= t.len() + 1,
    ensures
        depth_after(seq![e] + t, d0, k) == depth_after(t, scope_step(d0, e), k - 1),
    decreases k,
{
    if k == 1 {
        assert((seq![e] + t)[0] == e);
        assert(depth_after(seq![e] + t, d0, 1) == scope_step(
            depth_after(seq![e] + t, d0, 0),
            (seq![e] + t)[0],
        ));
    } else {
        lemma_depth_shift(t, e, d0, k - 1);
        assert((seq![e] + t)[k - 1] == t[k - 2]);
        assert(depth_after(seq![e] + t, d0, k) == scope_step(
            depth_after(seq![e] + t, d0, k - 1),
            (seq![e] + t)[k - 1],
        ));
        assert(depth_after(t, scope_step(d0, e), k - 1) == scope_step(
            depth_after(t, scope_step(d0, e), k - 2),
            t[k - 2],
        ));
    }
}

/// Scope balance: where an event opens a scope, and `j` is the first
/// later point at which the depth falls back below the depth just after
/// the opener, the event at `j` closes a scope and its line is laid out
/// at exactly the opener's layout depth.
pub proof fn lemma_scope_balance(evs: Seq<ScopeEv>, d0: nat, i: int, j: int)
    requires
        0 <= i < j < evs.len(),
        evs[i].opens,
        depth_after(evs, d0, j + 1) < depth_after(evs, d0, i + 1),
        forall|k: int|
            i < k < j ==> #[trigger] depth_after(evs, d0, k + 1) >= depth_after(evs, d0, i + 1),
    ensures
        evs[j].closes,
        !evs[j].opens,
        emit_depths(evs, d0)[j] == emit_depths(evs, d0)[i],
{
    let dd = depth_after(evs, d0, i + 1);
    assert(depth_after(evs, d0, i + 1) == scope_step(depth_after(evs, d0, i), evs[i]));
    assert(dd == scope_emit(depth_after(evs, d0, i), evs[i]) + 1);
    if j == i + 1 {
        assert(depth_after(evs, d0, j) == dd);
    } else {
        assert(depth_after(evs, d0, (j - 1) + 1) >= dd);
    }
    let dj = depth_after(evs, d0, j);
    assert(dj >= dd);
    assert(depth_after(evs, d0, j + 1) == scope_step(dj, evs[j]));
    assert(scope_step(dj, evs[j]) < dd);
    assert(evs[j].closes && !evs[j].opens && scope_emit(dj, evs[j]) == dj - 1 && dj == dd);
    assert(emit_depths(evs, d0)[j] == dd - 1);
    assert(emit_depths(evs, d0)[i] == scope_emit(depth_after(evs, d0, i), evs[i]));
}

} // verus!
