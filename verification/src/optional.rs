//! Diff rules for optional values.
//!
//! An `Option<T>` changes in one of three ways: both sides are present and
//! the inner values differ (a nested diff), both sides are absent (a trivial
//! no-op change), or presence itself flips — and then there is no sensible
//! nested diff, so the whole value is replaced.

use vstd::prelude::*;
use crate::Apply;
use crate::Diff;
use crate::Field;

verus! {

/// The changeset of an optional value: either it became (or stayed) absent,
/// or it stayed present and carries the nested diff of the inner value.
pub enum OptionChangeset<T: Diff> {
    NoneChangeset(Field<(), (), ()>),
    SomeChangeset(Field<T, <T as Diff>::Changeset, <T as Diff>::Action>),
}

impl<T: Diff> Apply<Option<T>> for OptionChangeset<T> {
    open spec fn applies_to(self, target: Option<T>) -> bool {
        match self {
            OptionChangeset::NoneChangeset(_) => true,
            // A present-branch changeset may only meet a present target:
            // anything else is a caller error, rejected up front.
            OptionChangeset::SomeChangeset(field) => target is Some && field.applies_to(
                target->0,
            ),
        }
    }

    open spec fn applied(self, before: Option<T>, after: Option<T>) -> bool {
        match self {
            OptionChangeset::NoneChangeset(_) => after is None,
            OptionChangeset::SomeChangeset(field) => before is Some && after is Some
                && field.applied(before->0, after->0),
        }
    }

    fn apply(self, target: &mut Option<T>)
        ensures
            self.applied(*old(target), *final(target)),
    {
        match self {
            OptionChangeset::NoneChangeset(_) => {
                *target = Option::None;
            }
            OptionChangeset::SomeChangeset(field) => match target {
                Option::Some(inner) => field.apply(inner),
                Option::None => vstd::pervasive::unreached(),
            },
        }
    }
}

impl<T: Diff> Diff for Option<T> {
    type Changeset = OptionChangeset<T>;
    type Action = ();

    open spec fn same(self, other: Self) -> bool {
        match (self, other) {
            (Option::None, Option::None) => true,
            (Option::Some(a), Option::Some(b)) => a.same(b),
            _ => false,
        }
    }

    proof fn lemma_same_refl(self) {
        match self {
            Option::Some(a) => a.lemma_same_refl(),
            Option::None => {}
        }
    }

    fn eq_check(&self, other: &Self) -> (r: bool)
        ensures
            r == (*self).same(*other),
    {
        match (self, other) {
            (Option::None, Option::None) => true,
            (Option::Some(a), Option::Some(b)) => a.eq_check(b),
            _ => false,
        }
    }

    fn dup(&self) -> (r: Self)
        ensures
            r.same(*self),
    {
        match self {
            Option::None => Option::None,
            Option::Some(a) => Option::Some(a.dup()),
        }
    }

    fn changeset(&self, other: &Self) -> (r: Field<Self, OptionChangeset<T>, ()>)
        ensures
            ((*self) is Some && (*other) is None) ==> (r matches Field::Replace(v) && v is None),
            ((*self) is None && (*other) is Some) ==> (r matches Field::Replace(v) && v is Some
                && v->0.same((*other)->0)),
            ((*self) is Some && (*other) is Some && !(*self).same(*other)) ==> (r matches
                Field::Changes(c) && c matches OptionChangeset::SomeChangeset(f) && !(f
                is Unchanged)),
    {
        let r = if self.eq_check(other) {
            Field::Unchanged
        } else {
            match (self, other) {
                (Option::None, Option::None) => Field::Changes(
                    OptionChangeset::NoneChangeset(Field::Unchanged),
                ),
                (Option::Some(a), Option::Some(b)) => Field::Changes(
                    OptionChangeset::SomeChangeset(a.changeset(b)),
                ),
                (_, v) => Field::Replace(v.dup()),
            }
        };
        proof {
            assert(r.applies_to(*self));
            assert forall|after: Self| #[trigger] r.applied(*self, after) implies after.same(
                *other,
            ) by {}
        }
        r
    }
}

/// A present-branch changeset is never applicable to an absent target:
/// the engine rejects the mismatch up front instead of silently coercing.
pub proof fn lemma_some_changeset_rejects_none<T: Diff>(
    field: Field<T, <T as Diff>::Changeset, <T as Diff>::Action>,
)
    ensures
        !OptionChangeset::SomeChangeset(field).applies_to(Option::<T>::None),
{
}

} // verus!
