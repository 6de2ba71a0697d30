use id_derive::value::{primitive_kind, IdValue, PrimKind};
use stable_id_traits::{CastUsize, Maximum, Predecessor, Successor};

#[test]
fn default_projects_to_zero() {
    assert_eq!(IdValue::zero(PrimKind::U16).project(), 0);
    assert_eq!(IdValue::zero(PrimKind::Usize).project(), 0);
}

#[test]
fn maximum_sentinel_projects_to_the_primitive_maximum() {
    assert_eq!(IdValue::max_value(PrimKind::U8).project(), 255);
    assert_eq!(IdValue::max_value(PrimKind::U16).project(), 65535);
    assert_eq!(IdValue::max_value(PrimKind::U32).project(), u32::MAX as u64);
    assert_eq!(IdValue::max_value(PrimKind::U64).project(), u64::MAX);
    assert_eq!(IdValue::max_value(PrimKind::Usize).project(), usize::MAX as u64);
}

#[test]
fn successor_steps_by_one() {
    let five = IdValue::from_raw(PrimKind::U16, 5).unwrap();
    assert_eq!(five.next_value().project(), 6);
    let below_max = IdValue::from_raw(PrimKind::U16, 65534).unwrap();
    assert_eq!(below_max.next_value().project(), 65535);
}

#[test]
fn predecessor_steps_back_by_one() {
    let five = IdValue::from_raw(PrimKind::U16, 5).unwrap();
    assert_eq!(five.prev_value().project(), 4);
    let one = IdValue::from_raw(PrimKind::U8, 1).unwrap();
    assert_eq!(one.prev_value().project(), 0);
}

#[test]
fn equality_follows_the_projected_value() {
    let a = IdValue::from_raw(PrimKind::U16, 10).unwrap();
    let b = IdValue::from_raw(PrimKind::U16, 10).unwrap();
    let c = IdValue::from_raw(PrimKind::U16, 11).unwrap();
    assert!(a.eq_value(b));
    assert!(a == b);
    assert!(!a.eq_value(c));
    assert!(a != c);
}

#[test]
fn ordering_follows_the_projected_value() {
    let three = IdValue::from_raw(PrimKind::U16, 3).unwrap();
    let four = IdValue::from_raw(PrimKind::U16, 4).unwrap();
    assert!(three.lt(four));
    assert!(!four.lt(three));
    assert!(!three.lt(three));
}

#[test]
fn index_casts_round_trip() {
    for i in [0usize, 1, 5, 254] {
        assert_eq!(IdValue::cast_from(PrimKind::U8, i).cast_to(), i);
    }
    for i in [0usize, 40000, 65534] {
        assert_eq!(IdValue::cast_from(PrimKind::U16, i).cast_to(), i);
    }
    assert_eq!(IdValue::cast_from(PrimKind::Usize, 123456).cast_to(), 123456);
    assert_eq!(IdValue::cast_from(PrimKind::Usize, usize::MAX).cast_to(), usize::MAX);
}

#[test]
fn equal_values_hash_identically() {
    let a = IdValue::from_raw(PrimKind::U64, 987654321).unwrap();
    let b = IdValue::from_raw(PrimKind::U64, 987654321).unwrap();
    assert_eq!(a.hash_value(), b.hash_value());
    assert_eq!(a.hash_value(), a.hash_value());
}

#[test]
fn from_raw_refuses_unrepresentable_values() {
    assert!(IdValue::from_raw(PrimKind::U8, 256).is_none());
    assert!(IdValue::from_raw(PrimKind::U8, 255).is_some());
    assert!(IdValue::from_raw(PrimKind::U16, 70000).is_none());
    assert!(IdValue::from_raw(PrimKind::U64, u64::MAX).is_some());
}

#[test]
fn edge_probes_match_the_bounds() {
    let max = IdValue::max_value(PrimKind::U8);
    assert!(max.is_max());
    assert!(!max.is_zero());
    let zero = IdValue::zero(PrimKind::U8);
    assert!(zero.is_zero());
    assert!(!zero.is_max());
    let mid = IdValue::from_raw(PrimKind::U8, 7).unwrap();
    assert!(!mid.is_max());
    assert!(!mid.is_zero());
}

#[test]
fn primitive_names_resolve_to_their_kinds() {
    assert_eq!(primitive_kind(&String::from("u8")), Some(PrimKind::U8));
    assert_eq!(primitive_kind(&String::from("u16")), Some(PrimKind::U16));
    assert_eq!(primitive_kind(&String::from("u32")), Some(PrimKind::U32));
    assert_eq!(primitive_kind(&String::from("u64")), Some(PrimKind::U64));
    assert_eq!(primitive_kind(&String::from("usize")), Some(PrimKind::Usize));
    assert_eq!(primitive_kind(&String::from("i32")), None);
    assert_eq!(primitive_kind(&String::from("String")), None);
    assert_eq!(primitive_kind(&String::from("")), None);
}

#[test]
fn model_agrees_with_the_primitive_trait_impls() {
    assert_eq!(
        IdValue::from_raw(PrimKind::U16, 5).unwrap().next_value().project(),
        Successor::next_value(5u16) as u64
    );
    assert_eq!(
        IdValue::from_raw(PrimKind::U16, 5).unwrap().prev_value().project(),
        Predecessor::prev_value(5u16) as u64
    );
    assert_eq!(
        IdValue::max_value(PrimKind::U16).project(),
        <u16 as Maximum>::max_value() as u64
    );
    assert_eq!(
        IdValue::cast_from(PrimKind::U16, 40000).project(),
        u16::cast_from(40000) as u64
    );
    assert_eq!(
        IdValue::from_raw(PrimKind::U16, 40000).unwrap().cast_to(),
        CastUsize::cast_to(40000u16)
    );
}
