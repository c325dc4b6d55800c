use vstd::prelude::*;
use crate::change::{ChangeSpec, lemma_backward_forward};
use crate::model::Session;

verus! {

/// The buffer after each change of `cs` is carried out on `d`, in order.
pub open spec fn forward_all(d: Seq<u8>, cs: Seq<ChangeSpec>) -> Seq<u8>
    decreases cs.len(),
{
    if cs.len() == 0 {
        d
    } else {
        cs.last().forward(forward_all(d, cs.drop_last()))
    }
}

/// Each change of `cs` fits the buffer it is carried out on.
pub open spec fn fits_in_turn(d: Seq<u8>, cs: Seq<ChangeSpec>) -> bool {
    forall|i: int| 0 <= i < cs.len() ==> #[trigger] cs[i].fits(forward_all(d, cs.take(i)))
}

/// The session after each change of `cs` is applied, in order.
pub open spec fn apply_all(s: Session, cs: Seq<ChangeSpec>) -> Session
    decreases cs.len(),
{
    if cs.len() == 0 {
        s
    } else {
        apply_all(s, cs.drop_last()).do_change(cs.last())
    }
}

/// The session after `n` undos.
pub open spec fn undo_times(s: Session, n: nat) -> Session
    decreases n,
{
    if n == 0 {
        s
    } else {
        undo_times(s.undo(), (n - 1) as nat)
    }
}

proof fn lemma_apply_all_data(s: Session, cs: Seq<ChangeSpec>)
    ensures
        apply_all(s, cs).data == forward_all(s.data, cs),
    decreases cs.len(),
{
    if cs.len() > 0 {
        lemma_apply_all_data(s, cs.drop_last());
    }
}

/// Undos act on the buffer and the history alone: two sessions that agree on
/// those agree on them after the same number of undos.
proof fn lemma_undo_times_congruent(a: Session, b: Session, n: nat)
    requires
        a.data == b.data,
        a.changes == b.changes,
    ensures
        undo_times(a, n).data == undo_times(b, n).data,
        undo_times(a, n).changes == undo_times(b, n).changes,
    decreases n,
{
    if n > 0 {
        lemma_undo_times_congruent(a.undo(), b.undo(), (n - 1) as nat);
    }
}

/// Applying a run of changes, each of which fits the buffer it meets, and
/// then undoing as many times, gives back the buffer and the history of
/// applied changes that were there before.
pub proof fn lemma_undo_round_trip(s: Session, cs: Seq<ChangeSpec>)
    requires
        fits_in_turn(s.data, cs),
    ensures
        undo_times(apply_all(s, cs), cs.len()).data == s.data,
        undo_times(apply_all(s, cs), cs.len()).changes == s.changes,
    decreases cs.len(),
{
    if cs.len() > 0 {
        let rest = cs.drop_last();
        let c = cs.last();
        assert forall|i: int| 0 <= i < rest.len() implies #[trigger] rest[i].fits(
            forward_all(s.data, rest.take(i)),
        ) by {
            assert(rest.take(i) =~= cs.take(i));
            assert(cs[i] == rest[i]);
        }
        lemma_undo_round_trip(s, rest);
        let t = apply_all(s, rest);
        lemma_apply_all_data(s, rest);
        assert(cs.take(rest.len() as int) =~= rest);
        assert(c.fits(t.data));
        lemma_backward_forward(c, t.data);
        let u = t.do_change(c).undo();
        assert(u.changes =~= t.changes);
        assert(u.data == t.data);
        lemma_undo_times_congruent(u, t, rest.len());
    }
}

/// Undo followed by redo leaves the buffer and the history of applied changes
/// as they were, when the most recent change fits the buffer it was applied to.
pub proof fn lemma_undo_redo(s: Session, before: Seq<u8>)
    requires
        s.changes.len() > 0,
        s.changes.last().fits(before),
        s.data == s.changes.last().forward(before),
    ensures
        s.undo().redo().data == s.data,
        s.undo().redo().changes == s.changes,
{
    lemma_backward_forward(s.changes.last(), before);
    assert(s.changes.drop_last().push(s.changes.last()) =~= s.changes);
}

/// A change applied after one or more undos discards what could be redone,
/// so a redo right after it does nothing.
pub proof fn lemma_history_truncation(s: Session, n: nat, c: ChangeSpec)
    requires
        n >= 1,
    ensures
        undo_times(s, n).do_change(c).redo() == undo_times(s, n).do_change(c),
        undo_times(s, n).do_change(c).made_changes.len() == 0,
{
}

} // verus!
