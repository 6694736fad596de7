use structdiff::aggregate::Record;
use structdiff::optional::OptionChangeset;
use structdiff::sequence::{VecAction, VecChangeset};
use structdiff::{Apply, Diff, Field};

type SetField<A, B> = Field<A, B, ()>;

#[derive(Debug, PartialEq, Clone)]
enum SomeEnum {
    Nothing,
    Field1(String),
    Field2(u32),
    Field3(Bar),
    Field4(u16, u16),
}

impl std::default::Default for SomeEnum {
    fn default() -> Self {
        SomeEnum::Nothing
    }
}

enum SomeEnumChangeset {
    Nothing(SetField<(), ()>),
    Field1(SetField<String, ()>),
    Field2(SetField<u32, ()>),
    Field3(SetField<Bar, BarChangeset>),
    Field4(SetField<u16, ()>, SetField<u16, ()>),
}

impl Apply<SomeEnum> for SomeEnumChangeset {
    // The two ghost members exist only for verification; their bodies are
    // never run.
    fn applies_to(self, _target: SomeEnum) -> bool {
        true
    }

    fn applied(self, _before: SomeEnum, _after: SomeEnum) -> bool {
        true
    }

    fn apply(self, target: &mut SomeEnum) {
        match self {
            SomeEnumChangeset::Nothing(_) => {
                *target = SomeEnum::Nothing;
            }
            SomeEnumChangeset::Field1(field) => match target {
                SomeEnum::Field1(target) => field.apply(target),
                _ => unreachable!("logic error"),
            },
            SomeEnumChangeset::Field2(field) => match target {
                SomeEnum::Field2(target) => field.apply(target),
                _ => unreachable!("logic error"),
            },
            SomeEnumChangeset::Field3(field) => match target {
                SomeEnum::Field3(target) => field.apply(target),
                _ => unreachable!("logic error"),
            },
            SomeEnumChangeset::Field4(a, b) => match target {
                SomeEnum::Field4(t1, t2) => {
                    a.apply(t1);
                    b.apply(t2);
                }
                _ => unreachable!("logic error"),
            },
        }
    }
}

impl Diff for SomeEnum {
    type Changeset = SomeEnumChangeset;
    type Action = ();

    // Ghost members, never run.
    fn same(self, other: Self) -> bool {
        self == other
    }

    fn lemma_same_refl(self) {}

    fn eq_check(&self, other: &Self) -> bool {
        self == other
    }

    fn dup(&self) -> Self {
        self.clone()
    }

    fn changeset(&self, other: &Self) -> Field<Self, Self::Changeset, Self::Action> {
        if self == other {
            return Field::Unchanged;
        }

        let changes = match (self, other) {
            (SomeEnum::Nothing, SomeEnum::Nothing) => {
                SomeEnumChangeset::Nothing(().changeset(&()))
            }
            (SomeEnum::Field1(a), SomeEnum::Field1(b)) => {
                SomeEnumChangeset::Field1(a.changeset(b))
            }
            (SomeEnum::Field2(a), SomeEnum::Field2(b)) => {
                SomeEnumChangeset::Field2(a.changeset(b))
            }
            (SomeEnum::Field3(a), SomeEnum::Field3(b)) => {
                SomeEnumChangeset::Field3(a.changeset(b))
            }
            (SomeEnum::Field4(a1, a2), SomeEnum::Field4(b1, b2)) => {
                SomeEnumChangeset::Field4(a1.changeset(b1), a2.changeset(b2))
            }
            (_, v) => return Field::Replace(v.to_owned()),
        };

        Field::Changes(changes)
    }
}

#[derive(Debug, Default, PartialEq)]
struct Foo {
    field_a: u32,
    field_b: String,
    enumer: SomeEnum,
    bar1: Bar,
    bar: Option<Bar>,
    vec: Vec<String>,
}

impl Diff for Foo {
    type Changeset = FooChangeset;
    type Action = ();

    // Ghost members, never run.
    fn same(self, other: Self) -> bool {
        self == other
    }

    fn lemma_same_refl(self) {}

    fn eq_check(&self, other: &Self) -> bool {
        self == other
    }

    fn dup(&self) -> Self {
        Foo {
            field_a: self.field_a,
            field_b: self.field_b.clone(),
            enumer: self.enumer.clone(),
            bar1: self.bar1.clone(),
            bar: self.bar.clone(),
            vec: self.vec.clone(),
        }
    }

    fn changeset(&self, other: &Self) -> Field<Self, Self::Changeset, Self::Action> {
        if self == other {
            return Field::Unchanged;
        }

        let mut changes = Self::Changeset::default();

        changes.field_a = self.field_a.changeset(&other.field_a);
        changes.field_b = self.field_b.changeset(&other.field_b);
        changes.enumer = self.enumer.changeset(&other.enumer);
        changes.bar = self.bar.changeset(&other.bar);
        changes.bar1 = self.bar1.changeset(&other.bar1);
        changes.vec = self.vec.changeset(&other.vec);

        Field::Changes(changes)
    }
}

#[derive(Debug, Clone, Default, PartialEq)]
struct Bar {
    field_d: String,
}

impl Diff for Bar {
    type Changeset = BarChangeset;
    type Action = ();

    // Ghost members, never run.
    fn same(self, other: Self) -> bool {
        self == other
    }

    fn lemma_same_refl(self) {}

    fn eq_check(&self, other: &Self) -> bool {
        self == other
    }

    fn dup(&self) -> Self {
        self.clone()
    }

    fn changeset(&self, other: &Self) -> Field<Self, Self::Changeset, Self::Action> {
        if self == other {
            return Field::Unchanged;
        }

        let mut changes = Self::Changeset::default();

        if self.field_d != other.field_d {
            changes.field_d = Field::Replace(other.field_d.to_owned())
        }

        Field::Changes(changes)
    }
}

#[derive(Default)]
struct FooChangeset {
    field_a: SetField<u32, ()>,
    field_b: SetField<String, ()>,
    enumer: SetField<SomeEnum, SomeEnumChangeset>,
    bar1: SetField<Bar, BarChangeset>,
    bar: SetField<Option<Bar>, OptionChangeset<Bar>>,
    vec: Field<Vec<String>, VecChangeset<String>, VecAction<String>>,
}

impl Apply<Foo> for FooChangeset {
    fn applies_to(self, _target: Foo) -> bool {
        true
    }

    fn applied(self, _before: Foo, _after: Foo) -> bool {
        true
    }

    fn apply(self, target: &mut Foo) {
        self.field_a.apply(&mut target.field_a);
        self.field_b.apply(&mut target.field_b);
        self.enumer.apply(&mut target.enumer);
        self.bar1.apply(&mut target.bar1);
        self.bar.apply(&mut target.bar);
        self.vec.apply(&mut target.vec);
    }
}

#[derive(Default)]
struct BarChangeset {
    field_d: SetField<String, ()>,
}

impl Apply<Bar> for BarChangeset {
    fn applies_to(self, _target: Bar) -> bool {
        true
    }

    fn applied(self, _before: Bar, _after: Bar) -> bool {
        true
    }

    fn apply(self, target: &mut Bar) {
        self.field_d.apply(&mut target.field_d);
    }
}

#[test]
fn basic() {
    let mut g = Foo::default();
    g.enumer = SomeEnum::Field4(22, 44);
    g.bar = Some(Bar {
        field_d: "Mongol".into(),
    });
    g.vec = vec!["A".into(), "X".into(), "C".into()];

    let mut f = Foo::default();
    f.field_a = 123;
    f.field_b = "ahahah".into();
    f.enumer = SomeEnum::Nothing;
    f.bar = Some(Bar {
        field_d: "Hello".into(),
    });
    f.vec = vec!["A".into(), "B".into(), "C".into(), "D".into(), "D".into()];

    let changeset = g.changeset(&f);
    changeset.apply(&mut g);

    assert_eq!(&f, &g);
}

#[test]
fn record_round_trip() {
    let a = Record {
        id: 1,
        label: "old".to_string(),
        active: false,
    };
    let b = Record {
        id: 1,
        label: "new".to_string(),
        active: true,
    };
    let c = a.changeset(&b);
    let mut t = a.dup();
    c.apply(&mut t);
    assert_eq!(t, b);
}
