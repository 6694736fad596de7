use structdiff::aggregate::{Choice, ChoiceChangeset, Record};
use structdiff::fallible::ResultChangeset;
use structdiff::optional::OptionChangeset;
use structdiff::sequence::VecAction;
use structdiff::{Apply, Diff, Field};

#[test]
fn reflexivity() {
    let n: u32 = 7;
    assert!(matches!(n.changeset(&n), Field::Unchanged));

    let s: String = "same".to_string();
    assert!(matches!(s.changeset(&s), Field::Unchanged));

    let o: Option<u64> = Some(3);
    assert!(matches!(o.changeset(&o), Field::Unchanged));

    let v: Vec<u8> = vec![1, 2, 3];
    assert!(matches!(v.changeset(&v), Field::Unchanged));

    let e: Vec<u8> = vec![];
    assert!(matches!(e.changeset(&e), Field::Unchanged));

    let r: Result<u32, String> = Err("boom".to_string());
    assert!(matches!(r.changeset(&r), Field::Unchanged));
}

#[test]
fn apply_correctness() {
    let a: Option<String> = Some("left".to_string());
    let b: Option<String> = Some("right".to_string());
    let c = a.changeset(&b);
    let mut t = a.dup();
    c.apply(&mut t);
    assert_eq!(t, b);

    let a: Vec<u64> = vec![9, 8, 7];
    let b: Vec<u64> = vec![9, 1, 7, 6];
    let c = a.changeset(&b);
    let mut t = a.dup();
    c.apply(&mut t);
    assert_eq!(t, b);

    let a: Result<u32, bool> = Ok(4);
    let b: Result<u32, bool> = Err(true);
    let c = a.changeset(&b);
    let mut t = a.dup();
    c.apply(&mut t);
    assert_eq!(t, b);
}

#[test]
fn unchanged_is_noop() {
    let mut n: u32 = 5;
    Field::<u32, (), ()>::Unchanged.apply(&mut n);
    assert_eq!(n, 5);

    let mut v: Vec<u8> = vec![1, 2];
    Field::<Vec<u8>, structdiff::sequence::VecChangeset<u8>, VecAction<u8>>::Unchanged
        .apply(&mut v);
    assert_eq!(v, vec![1, 2]);

    let d: Field<u32, (), ()> = Field::default();
    assert!(matches!(d, Field::Unchanged));
}

#[test]
fn scalar_replace() {
    let a: u32 = 1;
    let b: u32 = 2;
    match a.changeset(&b) {
        Field::Replace(v) => assert_eq!(v, 2),
        _ => panic!("a scalar diff of unequal values must be a replacement"),
    }
    assert!(matches!(a.changeset(&a), Field::Unchanged));

    let s: String = "x".to_string();
    let t: String = "y".to_string();
    match s.changeset(&t) {
        Field::Replace(v) => assert_eq!(v, "y"),
        _ => panic!("a text diff of unequal values must be a replacement"),
    }
}

#[test]
fn sequence_truncate() {
    let a: Vec<u32> = vec![1, 2, 3, 4];
    let b: Vec<u32> = vec![1, 2];
    let c = a.changeset(&b);
    match &c {
        Field::Actions(acts) => {
            assert_eq!(acts.len(), 1);
            assert!(matches!(acts[0], VecAction::Truncate(2)));
        }
        _ => panic!("a sequence diff must be an action list"),
    }
    let mut t = a.dup();
    c.apply(&mut t);
    assert_eq!(t, vec![1, 2]);
}

#[test]
fn sequence_append() {
    let a: Vec<u32> = vec![1, 2];
    let b: Vec<u32> = vec![1, 2, 3, 4];
    let c = a.changeset(&b);
    match &c {
        Field::Actions(acts) => {
            assert_eq!(acts.len(), 1);
            match &acts[0] {
                VecAction::Append(items) => assert_eq!(items, &vec![3, 4]),
                _ => panic!("a grown sequence must end with one append"),
            }
        }
        _ => panic!("a sequence diff must be an action list"),
    }
    let mut t = a.dup();
    c.apply(&mut t);
    assert_eq!(t, vec![1, 2, 3, 4]);
}

#[test]
fn sequence_positional_edit() {
    let a: Vec<String> = vec!["A".into(), "X".into(), "C".into()];
    let b: Vec<String> = vec!["A".into(), "B".into(), "C".into(), "D".into(), "D".into()];
    let c = a.changeset(&b);
    match &c {
        Field::Actions(acts) => {
            assert_eq!(acts.len(), 2);
            match &acts[0] {
                VecAction::SetAt(1, Field::Replace(v)) => assert_eq!(v, "B"),
                _ => panic!("position 1 must get one in-place replacement"),
            }
            match &acts[1] {
                VecAction::Append(items) => {
                    assert_eq!(items, &vec!["D".to_string(), "D".to_string()])
                }
                _ => panic!("the tail must be appended last"),
            }
        }
        _ => panic!("a sequence diff must be an action list"),
    }
    let mut t = a.dup();
    c.apply(&mut t);
    assert_eq!(t, b);
}

#[test]
fn sequence_from_empty() {
    let a: Vec<u8> = vec![];
    let b: Vec<u8> = vec![5];
    let c = a.changeset(&b);
    match &c {
        Field::Actions(acts) => {
            assert_eq!(acts.len(), 1);
            match &acts[0] {
                VecAction::Append(items) => assert_eq!(items, &vec![5]),
                _ => panic!("growing from empty must be one append"),
            }
        }
        _ => panic!("a sequence diff must be an action list"),
    }
    let mut t = a.dup();
    c.apply(&mut t);
    assert_eq!(t, vec![5]);
}

#[test]
fn push_action_by_hand() {
    let mut v: Vec<u16> = vec![10];
    VecAction::Push(11).apply(&mut v);
    assert_eq!(v, vec![10, 11]);
}

#[test]
fn option_branch_flip() {
    let some: Option<u32> = Some(1);
    let none: Option<u32> = None;

    match some.changeset(&none) {
        Field::Replace(v) => assert_eq!(v, None),
        _ => panic!("losing presence must replace wholesale"),
    }
    match none.changeset(&some) {
        Field::Replace(v) => assert_eq!(v, Some(1)),
        _ => panic!("gaining presence must replace wholesale"),
    }
    match some.changeset(&Some(2)) {
        Field::Changes(OptionChangeset::SomeChangeset(Field::Replace(v))) => assert_eq!(v, 2),
        _ => panic!("staying present must diff the inner value"),
    }

    let mut t: Option<u32> = Some(1);
    some.changeset(&none).apply(&mut t);
    assert_eq!(t, None);
}

#[test]
fn result_branch_flip() {
    let ok: Result<u32, String> = Ok(1);
    let err: Result<u32, String> = Err("down".to_string());

    match ok.changeset(&err) {
        Field::Replace(v) => assert_eq!(v, Err("down".to_string())),
        _ => panic!("switching branch must replace wholesale"),
    }
    match ok.changeset(&Ok(2)) {
        Field::Changes(ResultChangeset::OkChangeset(Field::Replace(v))) => assert_eq!(v, 2),
        _ => panic!("staying in the success branch must diff the payload"),
    }
    match err.changeset(&Err("up".to_string())) {
        Field::Changes(ResultChangeset::ErrChangeset(Field::Replace(v))) => assert_eq!(v, "up"),
        _ => panic!("staying in the failure branch must diff the payload"),
    }
}

#[test]
fn aggregate_field_isolation() {
    let a = Record {
        id: 9,
        label: "before".to_string(),
        active: true,
    };
    let b = Record {
        id: 9,
        label: "after".to_string(),
        active: true,
    };
    match a.changeset(&b) {
        Field::Changes(c) => {
            assert!(matches!(c.id, Field::Unchanged));
            assert!(matches!(c.active, Field::Unchanged));
            match c.label {
                Field::Replace(v) => assert_eq!(v, "after"),
                _ => panic!("the one changed field must carry its own diff"),
            }
        }
        _ => panic!("a changed record must carry per-field changes"),
    }
}

#[test]
fn sum_type_variants() {
    let off = Choice::Off;
    let low = Choice::Level(1);
    let high = Choice::Level(9);

    match low.changeset(&high) {
        Field::Changes(ChoiceChangeset::LevelChangeset(Field::Replace(v))) => assert_eq!(v, 9),
        _ => panic!("staying in a variant must diff its payload"),
    }
    match low.changeset(&off) {
        Field::Replace(v) => assert_eq!(v, Choice::Off),
        _ => panic!("switching variant must replace wholesale"),
    }
    let mut t = low.dup();
    low.changeset(&high).apply(&mut t);
    assert_eq!(t, Choice::Level(9));
}

#[test]
fn dup_preserves_value() {
    let v: Vec<String> = vec!["a".into(), "b".into()];
    assert_eq!(v.dup(), v);
    let s: String = "text".to_string();
    assert_eq!(s.dup(), s);
    let o: Option<Vec<u8>> = Some(vec![1]);
    assert_eq!(o.dup(), o);
}

#[test]
fn eq_check_agrees_with_equality() {
    let a: Vec<u64> = vec![1, 2];
    let b: Vec<u64> = vec![1, 3];
    assert!(a.eq_check(&a.dup()));
    assert!(!a.eq_check(&b));
    let s: Option<String> = Some("x".to_string());
    assert!(s.eq_check(&s.dup()));
    assert!(!s.eq_check(&None));
}

#[test]
fn scalar_widths() {
    let a: i128 = -5;
    let b: i128 = 5;
    assert!(matches!(a.changeset(&b), Field::Replace(5)));
    let a: usize = 3;
    assert!(matches!(a.changeset(&a), Field::Unchanged));
    let a: bool = true;
    match a.changeset(&false) {
        Field::Replace(v) => assert!(!v),
        _ => panic!("flipping a boolean must be a replacement"),
    }
    let mut t: i16 = 1;
    let c = 1i16.changeset(&-9);
    c.apply(&mut t);
    assert_eq!(t, -9);
}

#[test]
fn zero_payload_variant_changeset() {
    // "Became the zero-payload variant" is representable without a wholesale
    // replacement, and applying it lands the target in that variant.
    let mut t = Choice::Level(4);
    Field::<Choice, ChoiceChangeset, ()>::Changes(ChoiceChangeset::OffChangeset(Field::Unchanged))
        .apply(&mut t);
    assert_eq!(t, Choice::Off);
}

#[test]
fn sequence_edit_and_truncate_order() {
    // A positional edit at a surviving index runs before the truncation that
    // would invalidate later indices.
    let a: Vec<u32> = vec![1, 2, 3];
    let b: Vec<u32> = vec![9, 2];
    let c = a.changeset(&b);
    match &c {
        Field::Actions(acts) => {
            assert_eq!(acts.len(), 2);
            assert!(matches!(&acts[0], VecAction::SetAt(0, Field::Replace(9))));
            assert!(matches!(acts[1], VecAction::Truncate(2)));
        }
        _ => panic!("a sequence diff must be an action list"),
    }
    let mut t = a.dup();
    c.apply(&mut t);
    assert_eq!(t, vec![9, 2]);
}
