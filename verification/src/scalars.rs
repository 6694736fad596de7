//! Diff rules for atomic, indivisible values: the integer types, `bool`,
//! the unit value, and owned text.
//!
//! A scalar has no substructure, so its changeset and action types are `()`
//! and its diff is all or nothing: `Replace(other)` when the two values
//! differ, `Unchanged` when they do not.

use vstd::prelude::*;
use crate::Apply;
use crate::Diff;
use crate::Field;

verus! {

impl Diff for i8 {
    type Changeset = ();
    type Action = ();

    open spec fn same(self, other: Self) -> bool {
        self == other
    }

    proof fn lemma_same_refl(self) {
    }

    fn eq_check(&self, other: &Self) -> (r: bool)
        ensures
            r == (*self == *other),
    {
        *self == *other
    }

    fn dup(&self) -> (r: Self)
        ensures
            r == *self,
    {
        *self
    }

    fn changeset(&self, other: &Self) -> (r: Field<Self, (), ()>)
        ensures
            *self != *other ==> r == Field::<Self, (), ()>::Replace(*other),
    {
        if *self != *other {
            Field::Replace(*other)
        } else {
            Field::Unchanged
        }
    }
}

pub type I8Changeset = ();

impl Diff for u8 {
    type Changeset = ();
    type Action = ();

    open spec fn same(self, other: Self) -> bool {
        self == other
    }

    proof fn lemma_same_refl(self) {
    }

    fn eq_check(&self, other: &Self) -> (r: bool)
        ensures
            r == (*self == *other),
    {
        *self == *other
    }

    fn dup(&self) -> (r: Self)
        ensures
            r == *self,
    {
        *self
    }

    fn changeset(&self, other: &Self) -> (r: Field<Self, (), ()>)
        ensures
            *self != *other ==> r == Field::<Self, (), ()>::Replace(*other),
    {
        if *self != *other {
            Field::Replace(*other)
        } else {
            Field::Unchanged
        }
    }
}

pub type U8Changeset = ();

impl Diff for i16 {
    type Changeset = ();
    type Action = ();

    open spec fn same(self, other: Self) -> bool {
        self == other
    }

    proof fn lemma_same_refl(self) {
    }

    fn eq_check(&self, other: &Self) -> (r: bool)
        ensures
            r == (*self == *other),
    {
        *self == *other
    }

    fn dup(&self) -> (r: Self)
        ensures
            r == *self,
    {
        *self
    }

    fn changeset(&self, other: &Self) -> (r: Field<Self, (), ()>)
        ensures
            *self != *other ==> r == Field::<Self, (), ()>::Replace(*other),
    {
        if *self != *other {
            Field::Replace(*other)
        } else {
            Field::Unchanged
        }
    }
}

pub type I16Changeset = ();

impl Diff for u16 {
    type Changeset = ();
    type Action = ();

    open spec fn same(self, other: Self) -> bool {
        self == other
    }

    proof fn lemma_same_refl(self) {
    }

    fn eq_check(&self, other: &Self) -> (r: bool)
        ensures
            r == (*self == *other),
    {
        *self == *other
    }

    fn dup(&self) -> (r: Self)
        ensures
            r == *self,
    {
        *self
    }

    fn changeset(&self, other: &Self) -> (r: Field<Self, (), ()>)
        ensures
            *self != *other ==> r == Field::<Self, (), ()>::Replace(*other),
    {
        if *self != *other {
            Field::Replace(*other)
        } else {
            Field::Unchanged
        }
    }
}

pub type U16Changeset = ();

impl Diff for i32 {
    type Changeset = ();
    type Action = ();

    open spec fn same(self, other: Self) -> bool {
        self == other
    }

    proof fn lemma_same_refl(self) {
    }

    fn eq_check(&self, other: &Self) -> (r: bool)
        ensures
            r == (*self == *other),
    {
        *self == *other
    }

    fn dup(&self) -> (r: Self)
        ensures
            r == *self,
    {
        *self
    }

    fn changeset(&self, other: &Self) -> (r: Field<Self, (), ()>)
        ensures
            *self != *other ==> r == Field::<Self, (), ()>::Replace(*other),
    {
        if *self != *other {
            Field::Replace(*other)
        } else {
            Field::Unchanged
        }
    }
}

pub type I32Changeset = ();

impl Diff for u32 {
    type Changeset = ();
    type Action = ();

    open spec fn same(self, other: Self) -> bool {
        self == other
    }

    proof fn lemma_same_refl(self) {
    }

    fn eq_check(&self, other: &Self) -> (r: bool)
        ensures
            r == (*self == *other),
    {
        *self == *other
    }

    fn dup(&self) -> (r: Self)
        ensures
            r == *self,
    {
        *self
    }

    fn changeset(&self, other: &Self) -> (r: Field<Self, (), ()>)
        ensures
            *self != *other ==> r == Field::<Self, (), ()>::Replace(*other),
    {
        if *self != *other {
            Field::Replace(*other)
        } else {
            Field::Unchanged
        }
    }
}

pub type U32Changeset = ();

impl Diff for i64 {
    type Changeset = ();
    type Action = ();

    open spec fn same(self, other: Self) -> bool {
        self == other
    }

    proof fn lemma_same_refl(self) {
    }

    fn eq_check(&self, other: &Self) -> (r: bool)
        ensures
            r == (*self == *other),
    {
        *self == *other
    }

    fn dup(&self) -> (r: Self)
        ensures
            r == *self,
    {
        *self
    }

    fn changeset(&self, other: &Self) -> (r: Field<Self, (), ()>)
        ensures
            *self != *other ==> r == Field::<Self, (), ()>::Replace(*other),
    {
        if *self != *other {
            Field::Replace(*other)
        } else {
            Field::Unchanged
        }
    }
}

pub type I64Changeset = ();

impl Diff for u64 {
    type Changeset = ();
    type Action = ();

    open spec fn same(self, other: Self) -> bool {
        self == other
    }

    proof fn lemma_same_refl(self) {
    }

    fn eq_check(&self, other: &Self) -> (r: bool)
        ensures
            r == (*self == *other),
    {
        *self == *other
    }

    fn dup(&self) -> (r: Self)
        ensures
            r == *self,
    {
        *self
    }

    fn changeset(&self, other: &Self) -> (r: Field<Self, (), ()>)
        ensures
            *self != *other ==> r == Field::<Self, (), ()>::Replace(*other),
    {
        if *self != *other {
            Field::Replace(*other)
        } else {
            Field::Unchanged
        }
    }
}

pub type U64Changeset = ();

impl Diff for i128 {
    type Changeset = ();
    type Action = ();

    open spec fn same(self, other: Self) -> bool {
        self == other
    }

    proof fn lemma_same_refl(self) {
    }

    fn eq_check(&self, other: &Self) -> (r: bool)
        ensures
            r == (*self == *other),
    {
        *self == *other
    }

    fn dup(&self) -> (r: Self)
        ensures
            r == *self,
    {
        *self
    }

    fn changeset(&self, other: &Self) -> (r: Field<Self, (), ()>)
        ensures
            *self != *other ==> r == Field::<Self, (), ()>::Replace(*other),
    {
        if *self != *other {
            Field::Replace(*other)
        } else {
            Field::Unchanged
        }
    }
}

pub type I128Changeset = ();

impl Diff for u128 {
    type Changeset = ();
    type Action = ();

    open spec fn same(self, other: Self) -> bool {
        self == other
    }

    proof fn lemma_same_refl(self) {
    }

    fn eq_check(&self, other: &Self) -> (r: bool)
        ensures
            r == (*self == *other),
    {
        *self == *other
    }

    fn dup(&self) -> (r: Self)
        ensures
            r == *self,
    {
        *self
    }

    fn changeset(&self, other: &Self) -> (r: Field<Self, (), ()>)
        ensures
            *self != *other ==> r == Field::<Self, (), ()>::Replace(*other),
    {
        if *self != *other {
            Field::Replace(*other)
        } else {
            Field::Unchanged
        }
    }
}

pub type U128Changeset = ();

impl Diff for isize {
    type Changeset = ();
    type Action = ();

    open spec fn same(self, other: Self) -> bool {
        self == other
    }

    proof fn lemma_same_refl(self) {
    }

    fn eq_check(&self, other: &Self) -> (r: bool)
        ensures
            r == (*self == *other),
    {
        *self == *other
    }

    fn dup(&self) -> (r: Self)
        ensures
            r == *self,
    {
        *self
    }

    fn changeset(&self, other: &Self) -> (r: Field<Self, (), ()>)
        ensures
            *self != *other ==> r == Field::<Self, (), ()>::Replace(*other),
    {
        if *self != *other {
            Field::Replace(*other)
        } else {
            Field::Unchanged
        }
    }
}

pub type IsizeChangeset = ();

impl Diff for usize {
    type Changeset = ();
    type Action = ();

    open spec fn same(self, other: Self) -> bool {
        self == other
    }

    proof fn lemma_same_refl(self) {
    }

    fn eq_check(&self, other: &Self) -> (r: bool)
        ensures
            r == (*self == *other),
    {
        *self == *other
    }

    fn dup(&self) -> (r: Self)
        ensures
            r == *self,
    {
        *self
    }

    fn changeset(&self, other: &Self) -> (r: Field<Self, (), ()>)
        ensures
            *self != *other ==> r == Field::<Self, (), ()>::Replace(*other),
    {
        if *self != *other {
            Field::Replace(*other)
        } else {
            Field::Unchanged
        }
    }
}

pub type UsizeChangeset = ();

impl Diff for bool {
    type Changeset = ();
    type Action = ();

    open spec fn same(self, other: Self) -> bool {
        self == other
    }

    proof fn lemma_same_refl(self) {
    }

    fn eq_check(&self, other: &Self) -> (r: bool)
        ensures
            r == (*self == *other),
    {
        *self == *other
    }

    fn dup(&self) -> (r: Self)
        ensures
            r == *self,
    {
        *self
    }

    fn changeset(&self, other: &Self) -> (r: Field<Self, (), ()>)
        ensures
            *self != *other ==> r == Field::<Self, (), ()>::Replace(*other),
    {
        if *self != *other {
            Field::Replace(*other)
        } else {
            Field::Unchanged
        }
    }
}

pub type BoolChangeset = ();

impl Diff for () {
    type Changeset = ();
    type Action = ();

    open spec fn same(self, other: Self) -> bool {
        true
    }

    proof fn lemma_same_refl(self) {
    }

    fn eq_check(&self, other: &Self) -> (r: bool)
        ensures
            r,
    {
        true
    }

    fn dup(&self) -> (r: Self)
        ensures
            r == *self,
    {
        *self
    }

    fn changeset(&self, other: &Self) -> (r: Field<Self, (), ()>)
        ensures
            r is Unchanged,
    {
        Field::Unchanged
    }
}

/// Text is a scalar here: it is compared and replaced as a whole, never
/// edited character by character. Two strings are `same` when they hold the
/// same characters.
impl Diff for String {
    type Changeset = ();
    type Action = ();

    open spec fn same(self, other: Self) -> bool {
        self@ == other@
    }

    proof fn lemma_same_refl(self) {
    }

    fn eq_check(&self, other: &Self) -> (r: bool)
        ensures
            r == (self@ == other@),
    {
        self.eq(other)
    }

    fn dup(&self) -> (r: Self)
        ensures
            r == *self,
    {
        self.clone()
    }

    fn changeset(&self, other: &Self) -> (r: Field<Self, (), ()>)
        ensures
            !(*self).same(*other) ==> r is Replace && r->Replace_0 == *other,
    {
        if self.eq_check(other) {
            Field::Unchanged
        } else {
            Field::Replace(other.clone())
        }
    }
}

pub type StringChangeset = ();

} // verus!
