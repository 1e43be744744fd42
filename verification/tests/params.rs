use openfx_driver::layouts::param_descriptor_properties;
use openfx_driver::params::{descriptor_is_valid, instance_params, param_name, ParamValue};
use openfx_driver::{OfxStr, Property, PropertySet, PropertyValue};

fn descriptor(kind: &str, defaults: Property) -> PropertySet {
    PropertySet::new(
        "param",
        &[
            ("OfxPropName", Property::single(PropertyValue::from_str("p"))),
            ("OfxParamPropType", Property::single(PropertyValue::from_str(kind))),
            ("OfxParamPropDefault", defaults),
        ],
    )
}

#[test]
fn defaults_are_read_from_descriptor() {
    let p = descriptor("OfxParamTypeInteger2D", Property::from_ints(&[3, 4]));
    match ParamValue::from_descriptor(&p) {
        ParamValue::Integer2D(a, b) => assert_eq!((a, b), (3, 4)),
        other => panic!("unexpected {:?}", other),
    }
    let p = descriptor("OfxParamTypeBoolean", Property::from_ints(&[1]));
    assert!(matches!(ParamValue::from_descriptor(&p), ParamValue::Boolean(true)));
    let p = descriptor(
        "OfxParamTypeRGBA",
        Property::from_double_bits(&[0.5f64.to_bits(), 0.25f64.to_bits()]),
    );
    match ParamValue::from_descriptor(&p) {
        ParamValue::Rgba(r, g, b, a) => {
            assert_eq!(f64::from_bits(r), 0.5);
            assert_eq!(f64::from_bits(g), 0.25);
            assert_eq!(b, 0);
            assert_eq!(a, 0);
        }
        other => panic!("unexpected {:?}", other),
    }
    let p = descriptor("OfxParamTypeString", Property::single(PropertyValue::from_str("hi")));
    match ParamValue::from_descriptor(&p) {
        ParamValue::String(s) => assert_eq!(s, b"hi\0".to_vec()),
        other => panic!("unexpected {:?}", other),
    }
}

#[test]
fn negative_choice_default_wraps() {
    let p = descriptor("OfxParamTypeChoice", Property::from_ints(&[-1]));
    match ParamValue::from_descriptor(&p) {
        ParamValue::Choice(c) => assert_eq!(c, usize::MAX),
        other => panic!("unexpected {:?}", other),
    }
}

#[test]
fn defined_param_starts_at_zero() {
    let kind = OfxStr::from_str("OfxParamTypeDouble3D\0");
    let name = OfxStr::from_str("gain\0");
    let p = param_descriptor_properties(kind, name);
    assert_eq!(p.name(), "param_gain");
    assert_eq!(p.get_string("OfxPropName", 0), Some(b"gain\0".to_vec()));
    match ParamValue::from_descriptor(&p) {
        ParamValue::Double3D(a, b, c) => assert_eq!((a, b, c), (0, 0, 0)),
        other => panic!("unexpected {:?}", other),
    }
    let p = param_descriptor_properties(OfxStr::from_str("OfxParamTypeCustom\0"), name);
    match ParamValue::from_descriptor(&p) {
        ParamValue::Custom(s) => assert_eq!(s, vec![0u8]),
        other => panic!("unexpected {:?}", other),
    }
}

#[test]
fn value_counts() {
    assert_eq!(ParamValue::Boolean(true).value_count(), 1);
    assert_eq!(ParamValue::Double2D(0, 0).value_count(), 2);
    assert_eq!(ParamValue::Rgb(0, 0, 0).value_count(), 3);
    assert_eq!(ParamValue::Rgba(0, 0, 0, 0).value_count(), 4);
    assert_eq!(ParamValue::Page.value_count(), 0);
    assert_eq!(ParamValue::String(Vec::new()).value_count(), 1);
}

#[test]
fn descriptor_validity() {
    assert!(descriptor_is_valid(&descriptor("OfxParamTypeDouble", Property::from_double_bits(&[0]))));
    // Unknown type
    assert!(!descriptor_is_valid(&descriptor("OfxParamTypeWhatever", Property::from_ints(&[0]))));
    // Default of the wrong kind
    assert!(!descriptor_is_valid(&descriptor("OfxParamTypeInteger", Property::from_double_bits(&[0]))));
    // Group takes no default
    assert!(descriptor_is_valid(&descriptor("OfxParamTypeGroup", Property::from_double_bits(&[0]))));
    // Missing type
    assert!(!descriptor_is_valid(&PropertySet::new("empty", &[])));
}

#[test]
fn only_the_slots_a_type_reads_are_checked() {
    // A Double reads slot 0 only; a stray Int in slot 1 is ignored
    let defaults = Property::from_values(vec![PropertyValue::Double(1.0f64.to_bits()), PropertyValue::Int(5)]);
    let p = descriptor("OfxParamTypeDouble", defaults);
    assert!(descriptor_is_valid(&p));
    match ParamValue::from_descriptor(&p) {
        ParamValue::Double(d) => assert_eq!(f64::from_bits(d), 1.0),
        other => panic!("unexpected {:?}", other),
    }
    // A Double2D reads slot 1, so the Int there is refused
    let defaults = Property::from_values(vec![PropertyValue::Double(1.0f64.to_bits()), PropertyValue::Int(5)]);
    assert!(!descriptor_is_valid(&descriptor("OfxParamTypeDouble2D", defaults)));
    // An Integer3D does not read slot 3
    let defaults = Property::from_values(vec![
        PropertyValue::Int(1),
        PropertyValue::Int(2),
        PropertyValue::Int(3),
        PropertyValue::Double(0),
    ]);
    assert!(descriptor_is_valid(&descriptor("OfxParamTypeInteger3D", defaults)));
}

#[test]
fn names_and_starting_values_of_instance_params() {
    let a = descriptor("OfxParamTypeInteger", Property::from_ints(&[7]));
    assert_eq!(param_name(&a), Some("p".to_string()));
    let b = PropertySet::new(
        "param",
        &[
            ("OfxPropName", Property::single(PropertyValue::from_str("q"))),
            ("OfxParamPropType", Property::single(PropertyValue::from_str("OfxParamTypeBoolean"))),
        ],
    );
    // A later descriptor of the same name replaces the earlier one
    let c = descriptor("OfxParamTypeDouble", Property::from_double_bits(&[2.5f64.to_bits()]));
    let m = instance_params(&[a, b, c]);
    assert_eq!(m.len(), 2);
    assert!(matches!(m.get("q"), Some(ParamValue::Boolean(false))));
    match m.get("p") {
        Some(ParamValue::Double(d)) => assert_eq!(f64::from_bits(*d), 2.5),
        other => panic!("unexpected {:?}", other),
    }
    // No name, or a name that is not UTF-8
    assert_eq!(param_name(&PropertySet::new("empty", &[])), None);
    let bad = PropertySet::new(
        "param",
        &[("OfxPropName", Property::single(PropertyValue::String(vec![0xc3, 0x28, 0])))],
    );
    assert_eq!(param_name(&bad), None);
}
