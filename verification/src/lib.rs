//! A structural diff-and-patch engine.
//!
//! A diffable type compares two of its values and produces a [`Field`]: a
//! description of how to turn the first value into the second. Applying that
//! description to a mutable copy of the first value yields the second.

pub mod aggregate;
pub mod fallible;
pub mod laws;
pub mod optional;
pub mod sequence;
pub mod scalars;

use vstd::prelude::*;

verus! {

/// How one value slot changed. Exactly one case is active: no change at all,
/// a wholesale replacement, a nested changeset, or an ordered list of actions.
#[derive(Debug)]
pub enum Field<V, K, A> {
    Unchanged,
    Replace(V),
    Changes(K),
    Actions(Vec<A>),
}

/// A change description that can be applied, in place, to a target value.
///
/// `applies_to` says on which targets the change may be applied at all
/// (applying a change to a value it was not made for is a caller error, and
/// `apply` demands it up front). `applied` relates the target before the call
/// to the target after it.
pub trait Apply<T>: Sized {
    spec fn applies_to(self, target: T) -> bool;

    spec fn applied(self, before: T, after: T) -> bool;

    fn apply(self, target: &mut T)
        requires
            self.applies_to(*old(target)),
        ensures
            self.applied(*old(target), *final(target)),
    ;
}

/// The trivial change: scalar types use `()` as their changeset and action
/// type, and applying it never alters the target.
impl<T> Apply<T> for () {
    open spec fn applies_to(self, target: T) -> bool {
        true
    }

    open spec fn applied(self, before: T, after: T) -> bool {
        after == before
    }

    fn apply(self, target: &mut T)
        ensures
            *final(target) == *old(target),
    {
    }
}

/// A diffable type: one that can compare itself against another value of the
/// same type and produce a [`Field`] describing the difference.
///
/// `same` is the equivalence the engine works up to: for plain values it is
/// equality, for text it is equality of the character sequences, and for
/// composite types it is the pointwise lift. `changeset` returns
/// `Field::Unchanged` exactly when the two values are `same`, and the produced
/// field, applied to the first value, always yields a value `same` as the
/// second.
pub trait Diff: Sized {
    type Changeset: Apply<Self>;
    type Action: Apply<Self>;

    spec fn same(self, other: Self) -> bool;

    /// Every value is `same` as itself; with the `changeset` contract this
    /// gives reflexivity: diffing a value against itself yields `Field::Unchanged`.
    proof fn lemma_same_refl(self)
        ensures
            self.same(self),
    ;

    /// Decides `same` executably.
    fn eq_check(&self, other: &Self) -> (r: bool)
        ensures
            r == (*self).same(*other),
    ;

    /// Produces a duplicate that is `same` as the original value.
    fn dup(&self) -> (r: Self)
        ensures
            r.same(*self),
    ;

    /// Diffs from `self` to `other`: the result is `Unchanged` exactly when
    /// the two are `same`, is applicable to `self`, and can only turn `self`
    /// into a value `same` as `other`.
    fn changeset(&self, other: &Self) -> (r: Field<Self, Self::Changeset, Self::Action>)
        ensures
            (r is Unchanged <==> (*self).same(*other)),
            r.applies_to(*self),
            forall|after: Self| #[trigger] r.applied(*self, after) ==> after.same(*other),
    ;
}

/// Whether a list of actions can be applied in order, each to the state the
/// earlier ones left behind.
pub open spec fn actions_apply_to<T, A: Apply<T>>(s: Seq<A>, target: T) -> bool
    decreases s.len(),
{
    s.len() == 0 || (s.first().applies_to(target) && (forall|mid: T|
        #[trigger] s.first().applied(target, mid) ==> actions_apply_to(s.drop_first(), mid)))
}

/// Whether applying a list of actions in order can turn `before` into `after`.
pub open spec fn actions_applied<T, A: Apply<T>>(s: Seq<A>, before: T, after: T) -> bool
    decreases s.len(),
{
    if s.len() == 0 {
        after == before
    } else {
        exists|mid: T|
            #[trigger] s.first().applied(before, mid) && actions_applied(s.drop_first(), mid, after)
    }
}

/// Applies each action in order, left to right, each seeing the mutations of
/// all earlier ones.
fn apply_all<T, A: Apply<T>>(actions: Vec<A>, target: &mut T)
    requires
        actions_apply_to(actions@, *old(target)),
    ensures
        actions_applied(actions@, *old(target), *final(target)),
{
    let ghost s = actions@;
    let mut acts = actions;
    while acts.len() > 0
        invariant
            actions_apply_to(acts@, *target),
            forall|fin: T| #[trigger] actions_applied(acts@, *target, fin)
                ==> actions_applied(s, *old(target), fin),
        decreases acts.len(),
    {
        let ghost prev = *target;
        let ghost pending = acts@;
        let a = acts.remove(0);
        a.apply(target);
        proof {
            assert(acts@ =~= pending.drop_first());
            assert forall|fin: T| #[trigger] actions_applied(acts@, *target, fin)
                implies actions_applied(s, *old(target), fin) by {
                assert(actions_applied(pending, prev, fin));
            }
        }
    }
    proof {
        assert(actions_applied(acts@, *target, *target));
    }
}

/// Dispatches on the case: `Unchanged` is a no-op, `Replace` overwrites the target
/// wholesale, `Changes` delegates to the nested changeset, and `Actions`
/// applies each action in list order.
impl<V, K: Apply<V>, A: Apply<V>> Apply<V> for Field<V, K, A> {
    open spec fn applies_to(self, target: V) -> bool {
        match self {
            Field::Unchanged => true,
            Field::Replace(_) => true,
            Field::Changes(k) => k.applies_to(target),
            Field::Actions(actions) => actions_apply_to(actions@, target),
        }
    }

    open spec fn applied(self, before: V, after: V) -> bool {
        match self {
            Field::Unchanged => after == before,
            Field::Replace(value) => after == value,
            Field::Changes(k) => k.applied(before, after),
            Field::Actions(actions) => actions_applied(actions@, before, after),
        }
    }

    fn apply(self, target: &mut V)
        ensures
            self.applied(*old(target), *final(target)),
    {
        match self {
            Field::Unchanged => {}
            Field::Replace(value) => {
                *target = value;
            }
            Field::Changes(changeset) => changeset.apply(target),
            Field::Actions(actions) => apply_all(actions, target),
        }
    }
}

/// An unmodified field costs nothing: the default is `Field::Unchanged`.
impl<V, K, A> core::default::Default for Field<V, K, A> {
    fn default() -> (r: Self)
        ensures
            r is Unchanged,
    {
        Field::Unchanged
    }
}

} // verus!
