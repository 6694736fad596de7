//! Positional diff and patch for ordered, resizable sequences.
//!
//! Two vectors are compared position by position over their common prefix;
//! each differing position yields one `SetAt` action carrying the nested
//! element diff, in increasing index order. A longer base is then cut down by
//! one trailing `Truncate`, a shorter one extended by one trailing `Append`.
//! This is a purely positional diff: no alignment search is attempted, so an
//! insertion in the middle shows up as a cascade of positional edits plus a
//! length adjustment.

use vstd::prelude::*;
use crate::actions_applied;
use crate::actions_apply_to;
use crate::Apply;
use crate::Diff;
use crate::Field;

verus! {

/// One step in evolving a vector: edit one position in place, push one
/// element, drop everything beyond a length, or add elements at the end.
pub enum VecAction<T: Diff> {
    SetAt(usize, Field<T, <T as Diff>::Changeset, <T as Diff>::Action>),
    Push(T),
    Truncate(usize),
    Append(Vec<T>),
}

impl<T: Diff> Apply<Vec<T>> for VecAction<T> {
    open spec fn applies_to(self, target: Vec<T>) -> bool {
        match self {
            // An in-place edit must land on an existing position.
            VecAction::SetAt(i, field) => i < target@.len() && field.applies_to(
                target@[i as int],
            ),
            VecAction::Push(_) => true,
            VecAction::Truncate(_) => true,
            VecAction::Append(_) => true,
        }
    }

    open spec fn applied(self, before: Vec<T>, after: Vec<T>) -> bool {
        match self {
            VecAction::SetAt(i, field) => i < before@.len() && after@.len() == before@.len()
                && field.applied(before@[i as int], after@[i as int]) && (forall|j: int|
                0 <= j < before@.len() && j != i ==> after@[j] == before@[j]),
            VecAction::Push(value) => after@ == before@.push(value),
            VecAction::Truncate(len) => after@ == (if len <= before@.len() {
                before@.subrange(0, len as int)
            } else {
                before@
            }),
            VecAction::Append(items) => after@ == before@ + items@,
        }
    }

    fn apply(self, target: &mut Vec<T>)
        ensures
            self.applied(*old(target), *final(target)),
    {
        match self {
            VecAction::SetAt(index, field) => {
                field.apply(&mut target[index]);
            }
            VecAction::Push(value) => target.push(value),
            VecAction::Truncate(len) => target.truncate(len),
            VecAction::Append(items) => {
                let mut items = items;
                target.append(&mut items);
            }
        }
    }
}

/// Sequences are diffed purely through actions; their changeset slot is a
/// placeholder that never alters the target.
pub struct VecChangeset<T: Diff>(Field<T, <T as Diff>::Changeset, <T as Diff>::Action>);

impl<T: Diff> Apply<Vec<T>> for VecChangeset<T> {
    open spec fn applies_to(self, target: Vec<T>) -> bool {
        true
    }

    open spec fn applied(self, before: Vec<T>, after: Vec<T>) -> bool {
        after == before
    }

    fn apply(self, target: &mut Vec<T>)
        ensures
            *final(target) == *old(target),
    {
    }
}

/// The position an in-place edit touches (and a marker otherwise).
pub open spec fn set_action_index<T: Diff>(act: VecAction<T>) -> int {
    match act {
        VecAction::SetAt(i, _) => i as int,
        _ => -1,
    }
}

/// Whether `act` is an in-place edit of one position on which `a` and `b`
/// genuinely differ, carrying a nested diff that turns `a`'s element into
/// `b`'s.
pub open spec fn is_entry_edit<T: Diff>(act: VecAction<T>, a: Seq<T>, b: Seq<T>) -> bool {
    act matches VecAction::SetAt(i, field) && {
        &&& (i as int) < a.len()
        &&& (i as int) < b.len()
        &&& !a[i as int].same(b[i as int])
        &&& !(field is Unchanged)
        &&& field.applies_to(a[i as int])
        &&& forall|after: T| #[trigger] field.applied(a[i as int], after) ==> after.same(
            b[i as int],
        )
    }
}

/// Whether some action in the list edits position `i`.
pub open spec fn has_edit_at<T: Diff>(acts: Seq<VecAction<T>>, i: int) -> bool {
    exists|k: int| 0 <= k < acts.len() && set_action_index(#[trigger] acts[k]) == i
}

/// The in-place edits the positional diff emits for positions below `upto`:
/// every action is a genuine edit at a position below `upto`, the positions
/// strictly increase, and every differing position below `upto` is edited.
pub open spec fn positional_edits<T: Diff>(
    acts: Seq<VecAction<T>>,
    a: Seq<T>,
    b: Seq<T>,
    upto: int,
) -> bool {
    &&& forall|k: int|
        0 <= k < acts.len() ==> is_entry_edit(#[trigger] acts[k], a, b) && set_action_index(
            acts[k],
        ) < upto
    &&& forall|k1: int, k2: int|
        0 <= k1 < k2 < acts.len() ==> set_action_index(#[trigger] acts[k1]) < set_action_index(
            #[trigger] acts[k2],
        )
    &&& forall|i: int| 0 <= i < upto && !(#[trigger] a[i].same(b[i])) ==> has_edit_at(acts, i)
}

/// Appending one action: the extended list turns `before` into `fin` exactly
/// when the unextended list can reach some middle state that the new action
/// then turns into `fin`.
proof fn lemma_actions_applied_push<T, A: Apply<T>>(s: Seq<A>, act: A, before: T, fin: T)
    ensures
        actions_applied(s.push(act), before, fin) <==> (exists|mid: T|
            #[trigger] actions_applied(s, before, mid) && act.applied(mid, fin)),
    decreases s.len(),
{
    if s.len() == 0 {
        assert(s.push(act).first() == act);
        assert(s.push(act).drop_first() =~= Seq::<A>::empty());
        if actions_applied(s.push(act), before, fin) {
            let mid = choose|mid: T|
                #[trigger] s.push(act).first().applied(before, mid) && actions_applied(
                    s.push(act).drop_first(),
                    mid,
                    fin,
                );
            assert(fin == mid);
            assert(actions_applied(s, before, before) && act.applied(before, fin));
        }
        if exists|mid: T| #[trigger] actions_applied(s, before, mid) && act.applied(mid, fin) {
            let mid = choose|mid: T|
                #[trigger] actions_applied(s, before, mid) && act.applied(mid, fin);
            assert(mid == before);
            assert(actions_applied(s.push(act).drop_first(), fin, fin));
            assert(s.push(act).first().applied(before, fin) && actions_applied(
                s.push(act).drop_first(),
                fin,
                fin,
            ));
            assert(actions_applied(s.push(act), before, fin));
        }
    } else {
        assert(s.push(act).first() == s.first());
        assert(s.push(act).drop_first() =~= s.drop_first().push(act));
        assert forall|mid1: T| #[trigger] s.first().applied(before, mid1) implies (actions_applied(
            s.drop_first().push(act),
            mid1,
            fin,
        ) <==> (exists|mid: T|
            #[trigger] actions_applied(s.drop_first(), mid1, mid) && act.applied(mid, fin))) by {
            lemma_actions_applied_push(s.drop_first(), act, mid1, fin);
        }
        if actions_applied(s.push(act), before, fin) {
            let mid1 = choose|mid1: T|
                #[trigger] s.first().applied(before, mid1) && actions_applied(
                    s.drop_first().push(act),
                    mid1,
                    fin,
                );
            let mid = choose|mid: T|
                #[trigger] actions_applied(s.drop_first(), mid1, mid) && act.applied(mid, fin);
            assert(actions_applied(s, before, mid) && act.applied(mid, fin));
        }
        if exists|mid: T| #[trigger] actions_applied(s, before, mid) && act.applied(mid, fin) {
            let mid = choose|mid: T|
                #[trigger] actions_applied(s, before, mid) && act.applied(mid, fin);
            let mid1 = choose|mid1: T|
                #[trigger] s.first().applied(before, mid1) && actions_applied(
                    s.drop_first(),
                    mid1,
                    mid,
                );
            assert(actions_applied(s.drop_first().push(act), mid1, fin));
            assert(actions_applied(s.push(act), before, fin));
        }
    }
}

/// Appending one action preserves applicability, provided the new action is
/// applicable to every state the unextended list can leave behind.
proof fn lemma_actions_apply_to_push<T, A: Apply<T>>(s: Seq<A>, act: A, target: T)
    requires
        actions_apply_to(s, target),
        forall|mid: T| #[trigger] actions_applied(s, target, mid) ==> act.applies_to(mid),
    ensures
        actions_apply_to(s.push(act), target),
    decreases s.len(),
{
    if s.len() == 0 {
        assert(actions_applied(s, target, target));
        assert(s.push(act).first() == act);
        assert(s.push(act).drop_first() =~= Seq::<A>::empty());
        assert(act.applies_to(target));
        assert forall|mid: T| #[trigger] s.push(act).first().applied(target, mid) implies
            actions_apply_to(s.push(act).drop_first(), mid) by {
            assert(actions_apply_to(Seq::<A>::empty(), mid));
        }
    } else {
        assert(s.push(act).first() == s.first());
        assert(s.push(act).drop_first() =~= s.drop_first().push(act));
        assert forall|mid1: T| #[trigger] s.first().applied(target, mid1) implies actions_apply_to(
            s.drop_first().push(act),
            mid1,
        ) by {
            assert forall|mid: T| #[trigger] actions_applied(s.drop_first(), mid1, mid) implies
                act.applies_to(mid) by {
                assert(actions_applied(s, target, mid));
            }
            lemma_actions_apply_to_push(s.drop_first(), act, mid1);
        }
    }
}

impl<T: Diff> Diff for Vec<T> {
    type Changeset = VecChangeset<T>;
    type Action = VecAction<T>;

    open spec fn same(self, other: Self) -> bool {
        self@.len() == other@.len() && (forall|j: int|
            0 <= j < self@.len() ==> #[trigger] self@[j].same(other@[j]))
    }

    proof fn lemma_same_refl(self) {
        assert forall|j: int| 0 <= j < self@.len() implies #[trigger] self@[j].same(self@[j]) by {
            self@[j].lemma_same_refl();
        }
    }

    fn eq_check(&self, other: &Self) -> (r: bool)
        ensures
            r == (*self).same(*other),
    {
        if self.len() != other.len() {
            return false;
        }
        let n = self.len();
        let mut i: usize = 0;
        while i < n
            invariant
                n == self@.len(),
                self@.len() == other@.len(),
                i <= n,
                forall|j: int| 0 <= j < i ==> #[trigger] self@[j].same(other@[j]),
            decreases n - i,
        {
            if !self[i].eq_check(&other[i]) {
                return false;
            }
            i += 1;
        }
        true
    }

    fn dup(&self) -> (r: Self)
        ensures
            r.same(*self),
    {
        let n = self.len();
        let mut out: Vec<T> = Vec::new();
        let mut i: usize = 0;
        while i < n
            invariant
                n == self@.len(),
                i <= n,
                out@.len() == i as int,
                forall|j: int| 0 <= j < i ==> #[trigger] out@[j].same(self@[j]),
            decreases n - i,
        {
            out.push(self[i].dup());
            i += 1;
        }
        out
    }

    fn changeset(&self, other: &Self) -> (r: Field<Self, VecChangeset<T>, VecAction<T>>)
        ensures
            !(*self).same(*other) ==> r is Actions,
            (!(*self).same(*other) && self@.len() == other@.len()) ==> positional_edits(
                r->Actions_0@,
                self@,
                other@,
                self@.len() as int,
            ),
            (!(*self).same(*other) && self@.len() > other@.len()) ==> {
                let acts = r->Actions_0@;
                &&& acts.len() >= 1
                &&& positional_edits(
                    acts.take(acts.len() - 1),
                    self@,
                    other@,
                    other@.len() as int,
                )
                &&& (acts.last() matches VecAction::Truncate(l) && l == other@.len())
            },
            (!(*self).same(*other) && self@.len() < other@.len()) ==> {
                let acts = r->Actions_0@;
                &&& acts.len() >= 1
                &&& positional_edits(
                    acts.take(acts.len() - 1),
                    self@,
                    other@,
                    self@.len() as int,
                )
                &&& (acts.last() matches VecAction::Append(items) && items@.len() == other@.len()
                    - self@.len() && (forall|k: int|
                    0 <= k < items@.len() ==> #[trigger] items@[k].same(
                        other@[self@.len() + k],
                    )))
            },
    {
        if self.eq_check(other) {
            let r = Field::<Self, VecChangeset<T>, VecAction<T>>::Unchanged;
            proof {
                assert(r.applies_to(*self));
                assert forall|after: Self| #[trigger] r.applied(*self, after) implies after.same(
                    *other,
                ) by {}
            }
            return r;
        }
        let mut changes: Vec<VecAction<T>> = Vec::new();
        let min: usize = if self.len() < other.len() {
            self.len()
        } else {
            other.len()
        };
        let mut i: usize = 0;
        while i < min
            invariant
                min <= self@.len(),
                min <= other@.len(),
                (min == self@.len() || min == other@.len()),
                i <= min,
                positional_edits(changes@, self@, other@, i as int),
                actions_apply_to(changes@, *self),
                forall|fin: Vec<T>| #[trigger] actions_applied(changes@, *self, fin) ==> {
                    &&& fin@.len() == self@.len()
                    &&& (forall|j: int| 0 <= j < i ==> #[trigger] fin@[j].same(other@[j]))
                    &&& (forall|j: int| i <= j < self@.len() ==> fin@[j] == self@[j])
                },
            decreases min - i,
        {
            let ghost prev = changes@;
            let cs = self[i].changeset(&other[i]);
            match cs {
                Field::Unchanged => {
                    proof {
                        assert(self@[i as int].same(other@[i as int]));
                    }
                }
                c => {
                    let ghost act = VecAction::SetAt(i, c);
                    changes.push(VecAction::SetAt(i, c));
                    proof {
                        assert forall|mid: Vec<T>| #[trigger] actions_applied(prev, *self, mid)
                            implies act.applies_to(mid) by {}
                        lemma_actions_apply_to_push(prev, act, *self);
                        assert forall|fin: Vec<T>| #[trigger] actions_applied(
                            changes@,
                            *self,
                            fin,
                        ) implies {
                            &&& fin@.len() == self@.len()
                            &&& (forall|j: int|
                                0 <= j < i + 1 ==> #[trigger] fin@[j].same(other@[j]))
                            &&& (forall|j: int| i + 1 <= j < self@.len() ==> fin@[j] == self@[j])
                        } by {
                            lemma_actions_applied_push(prev, act, *self, fin);
                            let mid = choose|mid: Vec<T>|
                                #[trigger] actions_applied(prev, *self, mid) && act.applied(
                                    mid,
                                    fin,
                                );
                            assert forall|j: int| 0 <= j < i + 1 implies #[trigger] fin@[j].same(
                                other@[j],
                            ) by {
                                if j < i {
                                    assert(fin@[j] == mid@[j]);
                                } else {
                                    assert(fin@[j].same(other@[j]));
                                }
                            }
                        }
                        assert forall|k: int| 0 <= k < changes@.len() implies is_entry_edit(
                            #[trigger] changes@[k],
                            self@,
                            other@,
                        ) && set_action_index(changes@[k]) < i + 1 by {
                            if k < prev.len() {
                                assert(changes@[k] == prev[k]);
                            }
                        }
                        assert forall|p: int|
                            0 <= p < i + 1 && !(#[trigger] self@[p].same(other@[p])) implies
                            has_edit_at(changes@, p) by {
                            if p < i {
                                let k = choose|k: int|
                                    0 <= k < prev.len() && set_action_index(#[trigger] prev[k])
                                        == p;
                                assert(set_action_index(changes@[k]) == p);
                            } else {
                                assert(set_action_index(changes@[prev.len() as int]) == p);
                            }
                        }
                    }
                }
            }
            i += 1;
        }
        let ghost edits = changes@;
        if self.len() > other.len() {
            let ghost act = VecAction::<T>::Truncate(other.len());
            changes.push(VecAction::Truncate(other.len()));
            proof {
                lemma_actions_apply_to_push(edits, act, *self);
                assert(changes@.take(changes@.len() - 1) =~= edits);
            }
        } else if self.len() < other.len() {
            let n = other.len();
            let mut tail: Vec<T> = Vec::new();
            let mut j: usize = min;
            while j < n
                invariant
                    min <= j <= n,
                    n == other@.len(),
                    min < n,
                    tail@.len() == j - min,
                    forall|k: int|
                        0 <= k < tail@.len() ==> #[trigger] tail@[k].same(other@[min + k]),
                decreases n - j,
            {
                tail.push(other[j].dup());
                j += 1;
            }
            let ghost act = VecAction::Append(tail);
            let ghost tail_view = tail@;
            changes.push(VecAction::Append(tail));
            proof {
                lemma_actions_apply_to_push(edits, act, *self);
                assert(changes@.take(changes@.len() - 1) =~= edits);
                assert(changes@.last() == act);
                assert forall|k: int| 0 <= k < tail_view.len() implies
                    #[trigger] changes@.last()->Append_0@[k].same(
                    other@[self@.len() + k],
                ) by {
                    assert(changes@.last()->Append_0@ == tail_view);
                    assert(tail_view[k].same(other@[min + k]));
                }
            }
        }
        let r = Field::Actions(changes);
        proof {
            assert(r.applies_to(*self));
            assert forall|after: Self| #[trigger] r.applied(*self, after) implies after.same(
                *other,
            ) by {
                let acts = r->Actions_0@;
                if self@.len() == other@.len() {
                    assert(forall|j: int|
                        0 <= j < self@.len() ==> #[trigger] after@[j].same(other@[j]));
                } else {
                    assert(acts =~= edits.push(acts.last()));
                    lemma_actions_applied_push(edits, acts.last(), *self, after);
                    let mid = choose|mid: Vec<T>|
                        #[trigger] actions_applied(edits, *self, mid) && acts.last().applied(
                            mid,
                            after,
                        );
                    if self@.len() > other@.len() {
                        assert(after@ == mid@.subrange(0, other@.len() as int));
                        assert forall|j: int| 0 <= j < after@.len() implies
                            #[trigger] after@[j].same(other@[j]) by {
                            assert(after@[j] == mid@[j]);
                            assert(mid@[j].same(other@[j]));
                        }
                    } else {
                        let items = acts.last()->Append_0@;
                        assert(after@ == mid@ + items);
                        assert(after@.len() == other@.len());
                        assert forall|j: int| 0 <= j < after@.len() implies
                            #[trigger] after@[j].same(other@[j]) by {
                            if j < self@.len() {
                                assert(after@[j] == mid@[j]);
                                assert(mid@[j].same(other@[j]));
                            } else {
                                let k = j - self@.len();
                                assert(after@[j] == items[k]);
                                assert(items[k].same(other@[self@.len() + k]));
                                assert(self@.len() + k == j);
                            }
                        }
                    }
                }
            }
            assert(!(*self).same(*other));
        }
        r
    }
}

} // verus!
