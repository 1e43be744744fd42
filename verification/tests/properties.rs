use openfx_driver::properties::{PropertyError, ValueKind};
use openfx_driver::status::OfxStatus;
use openfx_driver::{Property, PropertySet, PropertyValue};

fn sample() -> PropertySet {
    PropertySet::new(
        "sample",
        &[
            ("OfxPropName", Property::single(PropertyValue::from_str("blur"))),
            ("OfxPropAPIVersion", Property::from_ints(&[1, 4])),
            ("Scale", Property::from_double_bits(&[1.5f64.to_bits(), 2.0f64.to_bits()])),
        ],
    )
}

fn int_of(v: &PropertyValue) -> i32 {
    match v {
        PropertyValue::Int(i) => *i,
        _ => panic!("not an int"),
    }
}

#[test]
fn new_holds_initial_values_and_later_names_win() {
    let p = PropertySet::new(
        "dup",
        &[
            ("A", Property::from_ints(&[1])),
            ("A", Property::from_ints(&[2, 3])),
        ],
    );
    assert_eq!(p.name(), "dup");
    assert_eq!(p.len(), 1);
    assert_eq!(p.dimension("A"), Some(2));
    assert_eq!(int_of(p.get("A", 0).unwrap()), 2);
}

#[test]
fn get_reports_missing_and_bad_index() {
    let p = sample();
    assert_eq!(p.get("Missing", 0).unwrap_err(), PropertyError::NotFound);
    assert_eq!(p.get("OfxPropAPIVersion", 2).unwrap_err(), PropertyError::BadIndex);
    assert_eq!(int_of(p.get("OfxPropAPIVersion", 1).unwrap()), 4);
    assert_eq!(PropertyError::NotFound.status(), OfxStatus::ErrUnknown);
    assert_eq!(PropertyError::BadIndex.status(), OfxStatus::ErrBadIndex);
    assert_eq!(PropertyError::BadLength(3).status(), OfxStatus::ErrBadIndex);
    assert_eq!(PropertyError::NotSet.status(), OfxStatus::ErrUnknown);
    assert_eq!(PropertyError::UnexpectedType.status(), OfxStatus::ErrUnknown);
}

#[test]
fn get_after_set_returns_written_value() {
    let mut p = sample();
    p.set("New", 2, PropertyValue::Int(7));
    assert_eq!(p.dimension("New"), Some(3));
    assert_eq!(int_of(p.get("New", 2).unwrap()), 7);
    // Slots below the written index are unset
    assert_eq!(p.read_value("New", 0, ValueKind::Int).unwrap_err(), PropertyError::NotSet);
    // Writing within range keeps the length and other slots
    p.set("OfxPropAPIVersion", 0, PropertyValue::Int(2));
    assert_eq!(p.dimension("OfxPropAPIVersion"), Some(2));
    assert_eq!(int_of(p.get("OfxPropAPIVersion", 0).unwrap()), 2);
    assert_eq!(int_of(p.get("OfxPropAPIVersion", 1).unwrap()), 4);
    // Other properties unchanged
    assert_eq!(p.get_string("OfxPropName", 0), Some(b"blur\0".to_vec()));
}

#[test]
fn set_twice_is_set_once() {
    let mut a = sample();
    let mut b = sample();
    a.set("K", 1, PropertyValue::Int(5));
    b.set("K", 1, PropertyValue::Int(5));
    b.set("K", 1, PropertyValue::Int(5));
    assert_eq!(a.dimension("K"), b.dimension("K"));
    assert_eq!(int_of(b.get("K", 1).unwrap()), 5);
}

#[test]
fn read_value_checks_kind() {
    let p = sample();
    assert!(p.read_value("OfxPropName", 0, ValueKind::String).is_ok());
    assert_eq!(
        p.read_value("OfxPropName", 0, ValueKind::Int).unwrap_err(),
        PropertyError::UnexpectedType
    );
    assert_eq!(
        p.read_value("Nope", 0, ValueKind::Int).unwrap_err(),
        PropertyError::NotFound
    );
    assert_eq!(
        p.read_value("OfxPropName", 3, ValueKind::String).unwrap_err(),
        PropertyError::BadIndex
    );
}

#[test]
fn typed_getters() {
    let p = sample();
    assert_eq!(p.get_int("OfxPropAPIVersion", 0), Some(1));
    assert_eq!(p.get_bool("OfxPropAPIVersion", 0), Some(true));
    assert_eq!(p.get_int("OfxPropAPIVersion", 5), None);
    assert_eq!(p.get_double("Scale", 1), Some(2.0f64.to_bits()));
    assert_eq!(p.get_string("Missing", 0), None);
}

#[test]
fn get_rectd_needs_four_doubles() {
    let mut p = sample();
    assert_eq!(p.get_rectd("Scale").unwrap_err(), PropertyError::BadLength(2));
    assert_eq!(p.get_rectd("None").unwrap_err(), PropertyError::NotFound);
    p.insert(
        "Rect",
        Property::from_double_bits(&[
            0.0f64.to_bits(),
            1.0f64.to_bits(),
            10.0f64.to_bits(),
            20.0f64.to_bits(),
        ]),
    );
    let r = p.get_rectd("Rect").unwrap();
    assert_eq!(f64::from_bits(r[2]), 10.0);
    assert_eq!(f64::from_bits(r[3]), 20.0);
}

#[test]
fn value_conversions() {
    assert!(PropertyValue::from_bool(true).same_as(&PropertyValue::Int(1)));
    assert!(PropertyValue::from_bool(false).same_as(&PropertyValue::Int(0)));
    assert!(PropertyValue::from_usize(64).same_as(&PropertyValue::Int(64)));
    assert!(PropertyValue::from_str("x").same_as(&PropertyValue::String(b"x\0".to_vec())));
    assert!(!PropertyValue::Int(1).same_as(&PropertyValue::Double(1)));
    assert_eq!(PropertyValue::Unset.kind(), None);
    assert_eq!(PropertyValue::Pointer(8).kind(), Some(ValueKind::Pointer));
    let p = Property::from_ints(&[3, 4]);
    assert!(p.contains(&PropertyValue::Int(4)));
    assert!(!p.contains(&PropertyValue::Int(5)));
}

#[test]
fn clone_is_a_copy() {
    let p = sample();
    let mut q = p.clone();
    q.set("OfxPropAPIVersion", 0, PropertyValue::Int(9));
    assert_eq!(p.get_int("OfxPropAPIVersion", 0), Some(1));
    assert_eq!(q.get_int("OfxPropAPIVersion", 0), Some(9));
    assert_eq!(q.name(), "sample");
}

#[test]
fn kind_checks() {
    let mut p = sample();
    assert!(p.slot_kind_ok("OfxPropAPIVersion", 0, ValueKind::Int));
    assert!(!p.slot_kind_ok("OfxPropAPIVersion", 0, ValueKind::Double));
    assert!(p.slot_kind_ok("Missing", 0, ValueKind::Double));
    assert!(p.rect_kinds_ok("Scale"));
    p.insert("R", Property::from_ints(&[1, 2, 3, 4]));
    assert!(!p.rect_kinds_ok("R"));
    assert!(PropertyValue::Double(0).is_kind(ValueKind::Double));
}
