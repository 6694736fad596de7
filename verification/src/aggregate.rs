//! The aggregate diff protocol, shown on one product type and one sum type.
//!
//! Per-schema comparison code — whether generated or written by hand — must
//! give each aggregate a changeset container with one `Field` slot per field
//! (product types) or one case per variant (sum types), and a comparison
//! routine that fills each slot with that field's own diff. The two types
//! here are worked reference implementations of that contract.

use vstd::prelude::*;
use crate::Apply;
use crate::Diff;
use crate::Field;

verus! {

/// A product type with three independently diffed fields.
#[derive(Debug, PartialEq)]
pub struct Record {
    pub id: u32,
    pub label: String,
    pub active: bool,
}

/// One `Field` slot per field of [`Record`], each defaulting to `Unchanged`.
#[derive(Debug)]
pub struct RecordChangeset {
    pub id: Field<u32, (), ()>,
    pub label: Field<String, (), ()>,
    pub active: Field<bool, (), ()>,
}

impl Apply<Record> for RecordChangeset {
    open spec fn applies_to(self, target: Record) -> bool {
        &&& self.id.applies_to(target.id)
        &&& self.label.applies_to(target.label)
        &&& self.active.applies_to(target.active)
    }

    open spec fn applied(self, before: Record, after: Record) -> bool {
        &&& self.id.applied(before.id, after.id)
        &&& self.label.applied(before.label, after.label)
        &&& self.active.applied(before.active, after.active)
    }

    fn apply(self, target: &mut Record)
        ensures
            self.applied(*old(target), *final(target)),
    {
        self.id.apply(&mut target.id);
        self.label.apply(&mut target.label);
        self.active.apply(&mut target.active);
    }
}

impl Diff for Record {
    type Changeset = RecordChangeset;
    type Action = ();

    open spec fn same(self, other: Self) -> bool {
        &&& self.id.same(other.id)
        &&& self.label.same(other.label)
        &&& self.active.same(other.active)
    }

    proof fn lemma_same_refl(self) {
        self.label.lemma_same_refl();
    }

    fn eq_check(&self, other: &Self) -> (r: bool)
        ensures
            r == (*self).same(*other),
    {
        self.id.eq_check(&other.id) && self.label.eq_check(&other.label) && self.active.eq_check(
            &other.active,
        )
    }

    fn dup(&self) -> (r: Self)
        ensures
            r.same(*self),
    {
        Record { id: self.id, label: self.label.dup(), active: self.active }
    }

    /// Field isolation: each slot of the changeset holds exactly that field's
    /// own diff, so a field that did not change gets an `Unchanged` slot.
    fn changeset(&self, other: &Self) -> (r: Field<Self, RecordChangeset, ()>)
        ensures
            !(*self).same(*other) ==> (r matches Field::Changes(c) && {
                &&& (c.id is Unchanged <==> self.id.same(other.id))
                &&& (c.label is Unchanged <==> self.label.same(other.label))
                &&& (c.active is Unchanged <==> self.active.same(other.active))
                &&& (self.id != other.id ==> c.id == Field::<u32, (), ()>::Replace(other.id))
                &&& (self.active != other.active ==> c.active == Field::<bool, (), ()>::Replace(
                    other.active,
                ))
            }),
    {
        let r = if self.eq_check(other) {
            Field::Unchanged
        } else {
            Field::Changes(
                RecordChangeset {
                    id: self.id.changeset(&other.id),
                    label: self.label.changeset(&other.label),
                    active: self.active.changeset(&other.active),
                },
            )
        };
        proof {
            assert(r.applies_to(*self));
            assert forall|after: Self| #[trigger] r.applied(*self, after) implies after.same(
                *other,
            ) by {}
        }
        r
    }
}

/// A sum type with a payload-bearing variant and a zero-payload one.
#[derive(Debug, PartialEq)]
pub enum Choice {
    Off,
    Level(u32),
}

/// One case per variant of [`Choice`]. The zero-payload variant still gets a
/// case carrying a trivial `Field`, so "became `Off`" is representable
/// without a wholesale replacement.
#[derive(Debug)]
pub enum ChoiceChangeset {
    OffChangeset(Field<(), (), ()>),
    LevelChangeset(Field<u32, (), ()>),
}

impl Apply<Choice> for ChoiceChangeset {
    open spec fn applies_to(self, target: Choice) -> bool {
        match self {
            ChoiceChangeset::OffChangeset(_) => true,
            // A payload-bearing case may only meet a target in the matching
            // variant: anything else is a caller error, rejected up front.
            ChoiceChangeset::LevelChangeset(field) => target is Level && field.applies_to(
                target->Level_0,
            ),
        }
    }

    open spec fn applied(self, before: Choice, after: Choice) -> bool {
        match self {
            ChoiceChangeset::OffChangeset(_) => after is Off,
            ChoiceChangeset::LevelChangeset(field) => before is Level && after is Level
                && field.applied(before->Level_0, after->Level_0),
        }
    }

    fn apply(self, target: &mut Choice)
        ensures
            self.applied(*old(target), *final(target)),
    {
        match self {
            ChoiceChangeset::OffChangeset(_) => {
                *target = Choice::Off;
            }
            ChoiceChangeset::LevelChangeset(field) => match target {
                Choice::Level(inner) => field.apply(inner),
                Choice::Off => vstd::pervasive::unreached(),
            },
        }
    }
}

impl Diff for Choice {
    type Changeset = ChoiceChangeset;
    type Action = ();

    open spec fn same(self, other: Self) -> bool {
        match (self, other) {
            (Choice::Off, Choice::Off) => true,
            (Choice::Level(a), Choice::Level(b)) => a == b,
            _ => false,
        }
    }

    proof fn lemma_same_refl(self) {
    }

    fn eq_check(&self, other: &Self) -> (r: bool)
        ensures
            r == (*self).same(*other),
    {
        match (self, other) {
            (Choice::Off, Choice::Off) => true,
            (Choice::Level(a), Choice::Level(b)) => *a == *b,
            _ => false,
        }
    }

    fn dup(&self) -> (r: Self)
        ensures
            r.same(*self),
    {
        match self {
            Choice::Off => Choice::Off,
            Choice::Level(a) => Choice::Level(*a),
        }
    }

    /// Same variant: recurse into the payload and wrap it in that variant's
    /// case. Different variants: replace wholesale.
    fn changeset(&self, other: &Self) -> (r: Field<Self, ChoiceChangeset, ()>)
        ensures
            ((*self) is Level && (*other) is Level && !(*self).same(*other)) ==> (r matches
                Field::Changes(c) && c matches ChoiceChangeset::LevelChangeset(f) && f
                == Field::<u32, (), ()>::Replace((*other)->Level_0)),
            (((*self) is Off) != ((*other) is Off)) ==> r == Field::<
                Self,
                ChoiceChangeset,
                (),
            >::Replace(*other),
    {
        let r = if self.eq_check(other) {
            Field::Unchanged
        } else {
            match (self, other) {
                (Choice::Off, Choice::Off) => Field::Changes(
                    ChoiceChangeset::OffChangeset(Field::Unchanged),
                ),
                (Choice::Level(a), Choice::Level(b)) => Field::Changes(
                    ChoiceChangeset::LevelChangeset(a.changeset(b)),
                ),
                (_, v) => Field::Replace(v.dup()),
            }
        };
        proof {
            assert(r.applies_to(*self));
            assert forall|after: Self| #[trigger] r.applied(*self, after) implies after.same(
                *other,
            ) by {}
        }
        r
    }
}

} // verus!
