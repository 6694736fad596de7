//! Diff rules for fallible (success/failure) values.
//!
//! A `Result<T, E>` is handled like an optional value with two payload-bearing
//! branches: same-branch changes recurse into the payload, while a change of
//! branch is a wholesale replacement.

use vstd::prelude::*;
use crate::Apply;
use crate::Diff;
use crate::Field;

verus! {

/// The changeset of a fallible value: the branch it stayed in, carrying the
/// nested diff of that branch's payload.
pub enum ResultChangeset<T: Diff, E: Diff> {
    OkChangeset(Field<T, <T as Diff>::Changeset, <T as Diff>::Action>),
    ErrChangeset(Field<E, <E as Diff>::Changeset, <E as Diff>::Action>),
}

impl<T: Diff, E: Diff> Apply<Result<T, E>> for ResultChangeset<T, E> {
    open spec fn applies_to(self, target: Result<T, E>) -> bool {
        match self {
            // A branch changeset may only meet a target in the same branch:
            // anything else is a caller error, rejected up front.
            ResultChangeset::OkChangeset(field) => target is Ok && field.applies_to(target->Ok_0),
            ResultChangeset::ErrChangeset(field) => target is Err && field.applies_to(
                target->Err_0,
            ),
        }
    }

    open spec fn applied(self, before: Result<T, E>, after: Result<T, E>) -> bool {
        match self {
            ResultChangeset::OkChangeset(field) => before is Ok && after is Ok && field.applied(
                before->Ok_0,
                after->Ok_0,
            ),
            ResultChangeset::ErrChangeset(field) => before is Err && after is Err && field.applied(
                before->Err_0,
                after->Err_0,
            ),
        }
    }

    fn apply(self, target: &mut Result<T, E>)
        ensures
            self.applied(*old(target), *final(target)),
    {
        match self {
            ResultChangeset::OkChangeset(field) => match target {
                Result::Ok(inner) => field.apply(inner),
                Result::Err(_) => vstd::pervasive::unreached(),
            },
            ResultChangeset::ErrChangeset(field) => match target {
                Result::Err(inner) => field.apply(inner),
                Result::Ok(_) => vstd::pervasive::unreached(),
            },
        }
    }
}

impl<T: Diff, E: Diff> Diff for Result<T, E> {
    type Changeset = ResultChangeset<T, E>;
    type Action = ();

    open spec fn same(self, other: Self) -> bool {
        match (self, other) {
            (Result::Ok(a), Result::Ok(b)) => a.same(b),
            (Result::Err(a), Result::Err(b)) => a.same(b),
            _ => false,
        }
    }

    proof fn lemma_same_refl(self) {
        match self {
            Result::Ok(a) => a.lemma_same_refl(),
            Result::Err(a) => a.lemma_same_refl(),
        }
    }

    fn eq_check(&self, other: &Self) -> (r: bool)
        ensures
            r == (*self).same(*other),
    {
        match (self, other) {
            (Result::Ok(a), Result::Ok(b)) => a.eq_check(b),
            (Result::Err(a), Result::Err(b)) => a.eq_check(b),
            _ => false,
        }
    }

    fn dup(&self) -> (r: Self)
        ensures
            r.same(*self),
    {
        match self {
            Result::Ok(a) => Result::Ok(a.dup()),
            Result::Err(a) => Result::Err(a.dup()),
        }
    }

    fn changeset(&self, other: &Self) -> (r: Field<Self, ResultChangeset<T, E>, ()>)
        ensures
            ((*self) is Ok && (*other) is Err) ==> (r matches Field::Replace(v) && v is Err
                && v->Err_0.same((*other)->Err_0)),
            ((*self) is Err && (*other) is Ok) ==> (r matches Field::Replace(v) && v is Ok
                && v->Ok_0.same((*other)->Ok_0)),
            ((*self) is Ok && (*other) is Ok && !(*self).same(*other)) ==> (r matches Field::Changes(
                c,
            ) && c matches ResultChangeset::OkChangeset(f) && !(f is Unchanged)),
            ((*self) is Err && (*other) is Err && !(*self).same(*other)) ==> (r matches
                Field::Changes(c) && c matches ResultChangeset::ErrChangeset(f) && !(f
                is Unchanged)),
    {
        let r = if self.eq_check(other) {
            Field::Unchanged
        } else {
            match (self, other) {
                (Result::Ok(a), Result::Ok(b)) => Field::Changes(
                    ResultChangeset::OkChangeset(a.changeset(b)),
                ),
                (Result::Err(a), Result::Err(b)) => Field::Changes(
                    ResultChangeset::ErrChangeset(a.changeset(b)),
                ),
                (_, v) => Field::Replace(v.dup()),
            }
        };
        proof {
            assert(r.applies_to(*self));
            assert forall|after: Self| #[trigger] r.applied(*self, after) implies after.same(
                *other,
            ) by {}
        }
        r
    }
}

/// A branch changeset is never applicable to a target in the other branch:
/// the engine rejects the mismatch up front instead of silently coercing.
pub proof fn lemma_branch_changeset_rejects_mismatch<T: Diff, E: Diff>(
    ok_field: Field<T, <T as Diff>::Changeset, <T as Diff>::Action>,
    err_field: Field<E, <E as Diff>::Changeset, <E as Diff>::Action>,
    err: E,
    ok: T,
)
    ensures
        !ResultChangeset::<T, E>::OkChangeset(ok_field).applies_to(Result::Err(err)),
        !ResultChangeset::<T, E>::ErrChangeset(err_field).applies_to(Result::Ok(ok)),
{
}

} // verus!
