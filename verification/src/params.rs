//! Parameter values and their defaults.

use vstd::prelude::*;
use crate::constants::{
    PARAM_PROP_DEFAULT,
    PARAM_PROP_TYPE,
    PARAM_TYPE_BOOLEAN,
    PARAM_TYPE_CHOICE,
    PARAM_TYPE_CUSTOM,
    PARAM_TYPE_DOUBLE,
    PARAM_TYPE_DOUBLE_2D,
    PARAM_TYPE_DOUBLE_3D,
    PARAM_TYPE_GROUP,
    PARAM_TYPE_INTEGER,
    PARAM_TYPE_INTEGER_2D,
    PARAM_TYPE_INTEGER_3D,
    PARAM_TYPE_PAGE,
    PARAM_TYPE_PARAMETRIC,
    PARAM_TYPE_PUSH_BUTTON,
    PARAM_TYPE_RGB,
    PARAM_TYPE_RGBA,
    PARAM_TYPE_STRING,
};
use crate::properties::{PropertySet, ValueModel, ValueKind, has_kind, initial_values};
use crate::layouts::param_descriptor_entries;
use crate::strings::OfxStr;
use crate::constants::PROP_NAME;
use crate::strings::{c_text_eq, nul_terminated, utf8_text};
use crate::strmap::StrMap;
use crate::properties::PropertyValue;
use vstd::utf8::*;
use vstd::string::StringSliceAdditionalSpecFns;

verus! {

/// The value of a parameter. Doubles are held as IEEE-754 bit
/// patterns; strings as the bytes of a C string, NUL included.
#[derive(Debug)]
pub enum ParamValue {
    Boolean(bool),
    Choice(usize),
    Custom(Vec<u8>),
    Double(u64),
    Double2D(u64, u64),
    Double3D(u64, u64, u64),
    Group,
    Integer(i32),
    Integer2D(i32, i32),
    Integer3D(i32, i32, i32),
    Page,
    Parametric,
    PushButton,
    Rgb(u64, u64, u64),
    Rgba(u64, u64, u64, u64),
    String(Vec<u8>),
}

/// What a `ParamValue` holds.
pub enum ParamModel {
    Boolean(bool),
    Choice(usize),
    Custom(Seq<u8>),
    Double(u64),
    Double2D(u64, u64),
    Double3D(u64, u64, u64),
    Group,
    Integer(i32),
    Integer2D(i32, i32),
    Integer3D(i32, i32, i32),
    Page,
    Parametric,
    PushButton,
    Rgb(u64, u64, u64),
    Rgba(u64, u64, u64, u64),
    String(Seq<u8>),
}

impl View for ParamValue {
    type V = ParamModel;

    open spec fn view(&self) -> ParamModel {
        match self {
            ParamValue::Boolean(b) => ParamModel::Boolean(*b),
            ParamValue::Choice(c) => ParamModel::Choice(*c),
            ParamValue::Custom(s) => ParamModel::Custom(s@),
            ParamValue::Double(a) => ParamModel::Double(*a),
            ParamValue::Double2D(a, b) => ParamModel::Double2D(*a, *b),
            ParamValue::Double3D(a, b, c) => ParamModel::Double3D(*a, *b, *c),
            ParamValue::Group => ParamModel::Group,
            ParamValue::Integer(a) => ParamModel::Integer(*a),
            ParamValue::Integer2D(a, b) => ParamModel::Integer2D(*a, *b),
            ParamValue::Integer3D(a, b, c) => ParamModel::Integer3D(*a, *b, *c),
            ParamValue::Page => ParamModel::Page,
            ParamValue::Parametric => ParamModel::Parametric,
            ParamValue::PushButton => ParamModel::PushButton,
            ParamValue::Rgb(a, b, c) => ParamModel::Rgb(*a, *b, *c),
            ParamValue::Rgba(a, b, c, d) => ParamModel::Rgba(*a, *b, *c, *d),
            ParamValue::String(s) => ParamModel::String(s@),
        }
    }
}

/// The number of values a parameter of this kind carries.
pub open spec fn value_count_of(m: ParamModel) -> i32 {
    match m {
        ParamModel::Double2D(..) | ParamModel::Integer2D(..) => 2,
        ParamModel::Rgb(..) | ParamModel::Double3D(..) | ParamModel::Integer3D(..) => 3,
        ParamModel::Rgba(..) => 4,
        ParamModel::Boolean(_) | ParamModel::Choice(_) | ParamModel::Custom(_)
        | ParamModel::Double(_) | ParamModel::Integer(_) | ParamModel::String(_) => 1,
        ParamModel::Group | ParamModel::Page | ParamModel::Parametric
        | ParamModel::PushButton => 0,
    }
}

/// The bytes naming each parameter type.
pub open spec fn known_param_type(t: Seq<u8>) -> bool {
    ||| t == PARAM_TYPE_BOOLEAN.spec_bytes().push(0u8)
    ||| t == PARAM_TYPE_CHOICE.spec_bytes().push(0u8)
    ||| t == PARAM_TYPE_CUSTOM.spec_bytes().push(0u8)
    ||| t == PARAM_TYPE_DOUBLE.spec_bytes().push(0u8)
    ||| t == PARAM_TYPE_DOUBLE_2D.spec_bytes().push(0u8)
    ||| t == PARAM_TYPE_DOUBLE_3D.spec_bytes().push(0u8)
    ||| t == PARAM_TYPE_GROUP.spec_bytes().push(0u8)
    ||| t == PARAM_TYPE_INTEGER.spec_bytes().push(0u8)
    ||| t == PARAM_TYPE_INTEGER_2D.spec_bytes().push(0u8)
    ||| t == PARAM_TYPE_INTEGER_3D.spec_bytes().push(0u8)
    ||| t == PARAM_TYPE_PAGE.spec_bytes().push(0u8)
    ||| t == PARAM_TYPE_PARAMETRIC.spec_bytes().push(0u8)
    ||| t == PARAM_TYPE_PUSH_BUTTON.spec_bytes().push(0u8)
    ||| t == PARAM_TYPE_RGB.spec_bytes().push(0u8)
    ||| t == PARAM_TYPE_RGBA.spec_bytes().push(0u8)
    ||| t == PARAM_TYPE_STRING.spec_bytes().push(0u8)
}

/// The kind of value the default of a parameter type is stored as.
pub open spec fn default_kind(t: Seq<u8>) -> Option<ValueKind> {
    if t == PARAM_TYPE_BOOLEAN.spec_bytes().push(0u8) {
        Some(ValueKind::Int)
    } else if t == PARAM_TYPE_CHOICE.spec_bytes().push(0u8) {
        Some(ValueKind::Int)
    } else if t == PARAM_TYPE_CUSTOM.spec_bytes().push(0u8) {
        Some(ValueKind::String)
    } else if t == PARAM_TYPE_DOUBLE.spec_bytes().push(0u8) || t == PARAM_TYPE_DOUBLE_2D.spec_bytes().push(0u8)
        || t == PARAM_TYPE_DOUBLE_3D.spec_bytes().push(0u8) {
        Some(ValueKind::Double)
    } else if t == PARAM_TYPE_GROUP.spec_bytes().push(0u8) {
        None
    } else if t == PARAM_TYPE_INTEGER.spec_bytes().push(0u8) || t == PARAM_TYPE_INTEGER_2D.spec_bytes().push(0u8)
        || t == PARAM_TYPE_INTEGER_3D.spec_bytes().push(0u8) {
        Some(ValueKind::Int)
    } else if t == PARAM_TYPE_PAGE.spec_bytes().push(0u8) || t == PARAM_TYPE_PARAMETRIC.spec_bytes().push(0u8)
        || t == PARAM_TYPE_PUSH_BUTTON.spec_bytes().push(0u8) {
        None
    } else if t == PARAM_TYPE_RGB.spec_bytes().push(0u8) || t == PARAM_TYPE_RGBA.spec_bytes().push(0u8) {
        Some(ValueKind::Double)
    } else {
        Some(ValueKind::String)
    }
}

/// How many default slots a parameter type reads: one per value it
/// carries, none for types without a value.
pub open spec fn default_slots(t: Seq<u8>) -> int {
    if t == PARAM_TYPE_BOOLEAN.spec_bytes().push(0u8) {
        1
    } else if t == PARAM_TYPE_CHOICE.spec_bytes().push(0u8) {
        1
    } else if t == PARAM_TYPE_CUSTOM.spec_bytes().push(0u8) {
        1
    } else if t == PARAM_TYPE_DOUBLE.spec_bytes().push(0u8) {
        1
    } else if t == PARAM_TYPE_DOUBLE_2D.spec_bytes().push(0u8) {
        2
    } else if t == PARAM_TYPE_DOUBLE_3D.spec_bytes().push(0u8) {
        3
    } else if t == PARAM_TYPE_GROUP.spec_bytes().push(0u8) {
        0
    } else if t == PARAM_TYPE_INTEGER.spec_bytes().push(0u8) {
        1
    } else if t == PARAM_TYPE_INTEGER_2D.spec_bytes().push(0u8) {
        2
    } else if t == PARAM_TYPE_INTEGER_3D.spec_bytes().push(0u8) {
        3
    } else if t == PARAM_TYPE_PAGE.spec_bytes().push(0u8) {
        0
    } else if t == PARAM_TYPE_PARAMETRIC.spec_bytes().push(0u8) {
        0
    } else if t == PARAM_TYPE_PUSH_BUTTON.spec_bytes().push(0u8) {
        0
    } else if t == PARAM_TYPE_RGB.spec_bytes().push(0u8) {
        3
    } else if t == PARAM_TYPE_RGBA.spec_bytes().push(0u8) {
        4
    } else {
        1
    }
}

/// The parameter type a descriptor names, if it names one by a string.
pub open spec fn descriptor_type(p: PropertySet) -> Option<Seq<u8>> {
    match p.slot(PARAM_PROP_TYPE@, 0) {
        Some(ValueModel::String(t)) => Some(t),
        _ => None,
    }
}

/// A descriptor from which a value can be made: its type is a known
/// type name, and each default slot that type reads is missing or
/// holds a value of the type's kind.
pub open spec fn descriptor_ok(p: PropertySet) -> bool {
    &&& descriptor_type(p) matches Some(t)
    &&& known_param_type(t)
    &&& default_kind(t) matches Some(k) ==> forall|i: int|
        0 <= i < default_slots(t) ==> #[trigger] p.kind_or_missing(PARAM_PROP_DEFAULT@, i, k)
}

/// The integer default at `i`, or 0.
pub open spec fn int_default(p: PropertySet, i: int) -> i32 {
    match p.slot(PARAM_PROP_DEFAULT@, i) {
        Some(ValueModel::Int(v)) => v,
        _ => 0,
    }
}

/// The double default at `i` (bit pattern), or the bits of 0.0.
pub open spec fn double_default(p: PropertySet, i: int) -> u64 {
    match p.slot(PARAM_PROP_DEFAULT@, i) {
        Some(ValueModel::Double(v)) => v,
        _ => 0,
    }
}

/// The string default at `i`, or the empty C string.
pub open spec fn string_default(p: PropertySet, i: int) -> Seq<u8> {
    match p.slot(PARAM_PROP_DEFAULT@, i) {
        Some(ValueModel::String(v)) => v,
        _ => seq![0u8],
    }
}

/// The value a parameter starts with, from its descriptor.
pub open spec fn initial_param_value(p: PropertySet) -> ParamModel {
    let t = descriptor_type(p).unwrap();
    if t == PARAM_TYPE_BOOLEAN.spec_bytes().push(0u8) {
        ParamModel::Boolean(int_default(p, 0) != 0)
    } else if t == PARAM_TYPE_CHOICE.spec_bytes().push(0u8) {
        ParamModel::Choice(int_default(p, 0) as usize)
    } else if t == PARAM_TYPE_CUSTOM.spec_bytes().push(0u8) {
        ParamModel::Custom(string_default(p, 0))
    } else if t == PARAM_TYPE_DOUBLE.spec_bytes().push(0u8) {
        ParamModel::Double(double_default(p, 0))
    } else if t == PARAM_TYPE_DOUBLE_2D.spec_bytes().push(0u8) {
        ParamModel::Double2D(double_default(p, 0), double_default(p, 1))
    } else if t == PARAM_TYPE_DOUBLE_3D.spec_bytes().push(0u8) {
        ParamModel::Double3D(double_default(p, 0), double_default(p, 1), double_default(p, 2))
    } else if t == PARAM_TYPE_GROUP.spec_bytes().push(0u8) {
        ParamModel::Group
    } else if t == PARAM_TYPE_INTEGER.spec_bytes().push(0u8) {
        ParamModel::Integer(int_default(p, 0))
    } else if t == PARAM_TYPE_INTEGER_2D.spec_bytes().push(0u8) {
        ParamModel::Integer2D(int_default(p, 0), int_default(p, 1))
    } else if t == PARAM_TYPE_INTEGER_3D.spec_bytes().push(0u8) {
        ParamModel::Integer3D(int_default(p, 0), int_default(p, 1), int_default(p, 2))
    } else if t == PARAM_TYPE_PAGE.spec_bytes().push(0u8) {
        ParamModel::Page
    } else if t == PARAM_TYPE_PARAMETRIC.spec_bytes().push(0u8) {
        ParamModel::Parametric
    } else if t == PARAM_TYPE_PUSH_BUTTON.spec_bytes().push(0u8) {
        ParamModel::PushButton
    } else if t == PARAM_TYPE_RGB.spec_bytes().push(0u8) {
        ParamModel::Rgb(double_default(p, 0), double_default(p, 1), double_default(p, 2))
    } else if t == PARAM_TYPE_RGBA.spec_bytes().push(0u8) {
        ParamModel::Rgba(
            double_default(p, 0),
            double_default(p, 1),
            double_default(p, 2),
            double_default(p, 3),
        )
    } else {
        ParamModel::String(string_default(p, 0))
    }
}

fn int_at(p: &PropertySet, i: usize) -> (r: i32)
    requires
        i < 4,
        p.kind_or_missing(PARAM_PROP_DEFAULT@, i as int, ValueKind::Int),
    ensures
        r == int_default(*p, i as int),
{
    match p.get_int(PARAM_PROP_DEFAULT, i) {
        Some(v) => v,
        None => 0,
    }
}

fn double_at(p: &PropertySet, i: usize) -> (r: u64)
    requires
        i < 4,
        p.kind_or_missing(PARAM_PROP_DEFAULT@, i as int, ValueKind::Double),
    ensures
        r == double_default(*p, i as int),
{
    match p.get_double(PARAM_PROP_DEFAULT, i) {
        Some(v) => v,
        None => 0,
    }
}

fn string_at(p: &PropertySet, i: usize) -> (r: Vec<u8>)
    requires
        i < 4,
        p.kind_or_missing(PARAM_PROP_DEFAULT@, i as int, ValueKind::String),
    ensures
        r@ == string_default(*p, i as int),
{
    match p.get_string(PARAM_PROP_DEFAULT, i) {
        Some(v) => v,
        None => {
            let mut v: Vec<u8> = Vec::new();
            v.push(0u8);
            assert(v@ =~= seq![0u8]);
            v
        },
    }
}

impl Clone for ParamValue {
    /// A copy of the value.
    fn clone(&self) -> (r: Self)
        ensures
            r@ == self@,
    {
        match self {
            ParamValue::Boolean(b) => ParamValue::Boolean(*b),
            ParamValue::Choice(c) => ParamValue::Choice(*c),
            ParamValue::Custom(s) => ParamValue::Custom(vstd::slice::slice_to_vec(s.as_slice())),
            ParamValue::Double(a) => ParamValue::Double(*a),
            ParamValue::Double2D(a, b) => ParamValue::Double2D(*a, *b),
            ParamValue::Double3D(a, b, c) => ParamValue::Double3D(*a, *b, *c),
            ParamValue::Group => ParamValue::Group,
            ParamValue::Integer(a) => ParamValue::Integer(*a),
            ParamValue::Integer2D(a, b) => ParamValue::Integer2D(*a, *b),
            ParamValue::Integer3D(a, b, c) => ParamValue::Integer3D(*a, *b, *c),
            ParamValue::Page => ParamValue::Page,
            ParamValue::Parametric => ParamValue::Parametric,
            ParamValue::PushButton => ParamValue::PushButton,
            ParamValue::Rgb(a, b, c) => ParamValue::Rgb(*a, *b, *c),
            ParamValue::Rgba(a, b, c, d) => ParamValue::Rgba(*a, *b, *c, *d),
            ParamValue::String(s) => ParamValue::String(vstd::slice::slice_to_vec(s.as_slice())),
        }
    }
}

/// True when a parameter value can be made from the descriptor `props`
/// (see `descriptor_ok`).
pub fn descriptor_is_valid(props: &PropertySet) -> (r: bool)
    ensures
        r == descriptor_ok(*props),
{
    if !props.slot_kind_ok(PARAM_PROP_TYPE, 0, ValueKind::String) {
        return false;
    }
    let t = match props.get_string(PARAM_PROP_TYPE, 0) {
        Some(t) => t,
        None => return false,
    };
    let tb = t.as_slice();
    let (kind, slots): (Option<ValueKind>, usize) = if c_text_eq(tb, PARAM_TYPE_BOOLEAN) {
        (Some(ValueKind::Int), 1)
    } else if c_text_eq(tb, PARAM_TYPE_CHOICE) {
        (Some(ValueKind::Int), 1)
    } else if c_text_eq(tb, PARAM_TYPE_CUSTOM) {
        (Some(ValueKind::String), 1)
    } else if c_text_eq(tb, PARAM_TYPE_DOUBLE) {
        (Some(ValueKind::Double), 1)
    } else if c_text_eq(tb, PARAM_TYPE_DOUBLE_2D) {
        (Some(ValueKind::Double), 2)
    } else if c_text_eq(tb, PARAM_TYPE_DOUBLE_3D) {
        (Some(ValueKind::Double), 3)
    } else if c_text_eq(tb, PARAM_TYPE_GROUP) {
        (None, 0)
    } else if c_text_eq(tb, PARAM_TYPE_INTEGER) {
        (Some(ValueKind::Int), 1)
    } else if c_text_eq(tb, PARAM_TYPE_INTEGER_2D) {
        (Some(ValueKind::Int), 2)
    } else if c_text_eq(tb, PARAM_TYPE_INTEGER_3D) {
        (Some(ValueKind::Int), 3)
    } else if c_text_eq(tb, PARAM_TYPE_PAGE) || c_text_eq(tb, PARAM_TYPE_PARAMETRIC) || c_text_eq(
        tb,
        PARAM_TYPE_PUSH_BUTTON,
    ) {
        (None, 0)
    } else if c_text_eq(tb, PARAM_TYPE_RGB) {
        (Some(ValueKind::Double), 3)
    } else if c_text_eq(tb, PARAM_TYPE_RGBA) {
        (Some(ValueKind::Double), 4)
    } else if c_text_eq(tb, PARAM_TYPE_STRING) {
        (Some(ValueKind::String), 1)
    } else {
        return false;
    };
    assert(descriptor_type(*props) == Some(t@));
    assert(known_param_type(t@));
    assert(default_kind(t@) == kind);
    assert(default_slots(t@) == slots as int);
    match kind {
        Some(k) => {
            let mut i: usize = 0;
            while i < slots
                invariant
                    i <= slots,
                    descriptor_type(*props) == Some(t@),
                    known_param_type(t@),
                    default_kind(t@) == Some(k),
                    default_slots(t@) == slots as int,
                    forall|j: int| 0 <= j < i ==> #[trigger] props.kind_or_missing(
                        PARAM_PROP_DEFAULT@,
                        j,
                        k,
                    ),
                decreases slots - i,
            {
                if !props.slot_kind_ok(PARAM_PROP_DEFAULT, i, k) {
                    assert(!props.kind_or_missing(PARAM_PROP_DEFAULT@, i as int, k));
                    return false;
                }
                i = i + 1;
            }
            true
        },
        None => true,
    }
}

impl ParamValue {
    /// The initial value of a parameter, read from its descriptor: the
    /// default stored there, or zero, false or the empty string.
    pub fn from_descriptor(props: &PropertySet) -> (r: ParamValue)
        requires
            descriptor_ok(*props),
        ensures
            r@ == initial_param_value(*props),
    {
        let t = match props.get_string(PARAM_PROP_TYPE, 0) {
            Some(t) => t,
            None => {
                proof {
                    assert(false);
                }
                Vec::new()
            },
        };
        let ghost tt = t@;
        let tb = t.as_slice();
        assert(descriptor_type(*props) == Some(tt));
        if c_text_eq(tb, PARAM_TYPE_BOOLEAN) {
            ParamValue::Boolean(int_at(props, 0) != 0)
        } else if c_text_eq(tb, PARAM_TYPE_CHOICE) {
            ParamValue::Choice(#[verifier::truncate] (int_at(props, 0) as usize))
        } else if c_text_eq(tb, PARAM_TYPE_CUSTOM) {
            ParamValue::Custom(string_at(props, 0))
        } else if c_text_eq(tb, PARAM_TYPE_DOUBLE) {
            ParamValue::Double(double_at(props, 0))
        } else if c_text_eq(tb, PARAM_TYPE_DOUBLE_2D) {
            ParamValue::Double2D(double_at(props, 0), double_at(props, 1))
        } else if c_text_eq(tb, PARAM_TYPE_DOUBLE_3D) {
            ParamValue::Double3D(double_at(props, 0), double_at(props, 1), double_at(props, 2))
        } else if c_text_eq(tb, PARAM_TYPE_GROUP) {
            ParamValue::Group
        } else if c_text_eq(tb, PARAM_TYPE_INTEGER) {
            ParamValue::Integer(int_at(props, 0))
        } else if c_text_eq(tb, PARAM_TYPE_INTEGER_2D) {
            ParamValue::Integer2D(int_at(props, 0), int_at(props, 1))
        } else if c_text_eq(tb, PARAM_TYPE_INTEGER_3D) {
            ParamValue::Integer3D(int_at(props, 0), int_at(props, 1), int_at(props, 2))
        } else if c_text_eq(tb, PARAM_TYPE_PAGE) {
            ParamValue::Page
        } else if c_text_eq(tb, PARAM_TYPE_PARAMETRIC) {
            ParamValue::Parametric
        } else if c_text_eq(tb, PARAM_TYPE_PUSH_BUTTON) {
            ParamValue::PushButton
        } else if c_text_eq(tb, PARAM_TYPE_RGB) {
            ParamValue::Rgb(double_at(props, 0), double_at(props, 1), double_at(props, 2))
        } else if c_text_eq(tb, PARAM_TYPE_RGBA) {
            ParamValue::Rgba(
                double_at(props, 0),
                double_at(props, 1),
                double_at(props, 2),
                double_at(props, 3),
            )
        } else {
            ParamValue::String(string_at(props, 0))
        }
    }

    /// The number of values the parameter carries (0 to 4).
    pub fn value_count(&self) -> (r: i32)
        ensures
            r == value_count_of(self@),
    {
        match self {
            ParamValue::Double2D(..) | ParamValue::Integer2D(..) => 2,
            ParamValue::Rgb(..) | ParamValue::Double3D(..) | ParamValue::Integer3D(..) => 3,
            ParamValue::Rgba(..) => 4,
            ParamValue::Boolean(_) | ParamValue::Choice(_) | ParamValue::Custom(_)
            | ParamValue::Double(_) | ParamValue::Integer(_) | ParamValue::String(_) => 1,
            ParamValue::Group | ParamValue::Page | ParamValue::Parametric
            | ParamValue::PushButton => 0,
        }
    }
}

/// The value a freshly defined parameter of type `kind` starts with:
/// its type's zero (false, 0, 0.0 or the empty string), since its
/// descriptor holds no default yet.
pub open spec fn zero_value(t: Seq<u8>) -> ParamModel {
    if t == PARAM_TYPE_BOOLEAN.spec_bytes().push(0u8) {
        ParamModel::Boolean(false)
    } else if t == PARAM_TYPE_CHOICE.spec_bytes().push(0u8) {
        ParamModel::Choice(0)
    } else if t == PARAM_TYPE_CUSTOM.spec_bytes().push(0u8) {
        ParamModel::Custom(seq![0u8])
    } else if t == PARAM_TYPE_DOUBLE.spec_bytes().push(0u8) {
        ParamModel::Double(0)
    } else if t == PARAM_TYPE_DOUBLE_2D.spec_bytes().push(0u8) {
        ParamModel::Double2D(0, 0)
    } else if t == PARAM_TYPE_DOUBLE_3D.spec_bytes().push(0u8) {
        ParamModel::Double3D(0, 0, 0)
    } else if t == PARAM_TYPE_GROUP.spec_bytes().push(0u8) {
        ParamModel::Group
    } else if t == PARAM_TYPE_INTEGER.spec_bytes().push(0u8) {
        ParamModel::Integer(0)
    } else if t == PARAM_TYPE_INTEGER_2D.spec_bytes().push(0u8) {
        ParamModel::Integer2D(0, 0)
    } else if t == PARAM_TYPE_INTEGER_3D.spec_bytes().push(0u8) {
        ParamModel::Integer3D(0, 0, 0)
    } else if t == PARAM_TYPE_PAGE.spec_bytes().push(0u8) {
        ParamModel::Page
    } else if t == PARAM_TYPE_PARAMETRIC.spec_bytes().push(0u8) {
        ParamModel::Parametric
    } else if t == PARAM_TYPE_PUSH_BUTTON.spec_bytes().push(0u8) {
        ParamModel::PushButton
    } else if t == PARAM_TYPE_RGB.spec_bytes().push(0u8) {
        ParamModel::Rgb(0, 0, 0)
    } else if t == PARAM_TYPE_RGBA.spec_bytes().push(0u8) {
        ParamModel::Rgba(0, 0, 0, 0)
    } else {
        ParamModel::String(seq![0u8])
    }
}

/// A parameter defined by a plugin (its descriptor holding only its
/// name and type) can be instantiated when its type is known, and
/// starts at the zero value of its type.
pub proof fn law_defined_param_starts_at_zero(p: PropertySet, kind: OfxStr, name: OfxStr)
    requires
        p.values() == initial_values(param_descriptor_entries(kind, name)),
        known_param_type(kind@),
    ensures
        descriptor_ok(p),
        initial_param_value(p) == zero_value(kind@),
{
    reveal_with_fuel(initial_values, 3);
    reveal_strlit("OfxPropName");
    reveal_strlit("OfxParamPropType");
    reveal_strlit("OfxParamPropDefault");
    assert(PROP_NAME@ != PARAM_PROP_TYPE@) by {
        assert(PROP_NAME@.len() != PARAM_PROP_TYPE@.len());
    }
    assert(PARAM_PROP_DEFAULT@ != PARAM_PROP_TYPE@) by {
        assert(PARAM_PROP_DEFAULT@.len() != PARAM_PROP_TYPE@.len());
    }
    assert(PARAM_PROP_DEFAULT@ != PROP_NAME@) by {
        assert(PARAM_PROP_DEFAULT@.len() != PROP_NAME@.len());
    }
    assert(!p.values().contains_key(PARAM_PROP_DEFAULT@));
    assert(descriptor_type(p) == Some(kind@));
}

/// True when a descriptor names its parameter by UTF-8 text followed
/// by a NUL, as a parameter's name must be.
pub open spec fn name_ok(p: PropertySet) -> bool {
    &&& p.slot(PROP_NAME@, 0) matches Some(ValueModel::String(b))
    &&& nul_terminated(b)
    &&& valid_utf8(b.drop_last())
}

/// The name a descriptor gives its parameter (its text without NUL).
pub open spec fn name_text(p: PropertySet) -> Seq<char> {
    match p.slot(PROP_NAME@, 0) {
        Some(ValueModel::String(b)) => decode_utf8(b.drop_last()),
        _ => seq![],
    }
}

/// The name of the parameter a descriptor describes; `None` when the
/// descriptor has no name or it is not UTF-8 text ending in NUL.
pub fn param_name(p: &PropertySet) -> (r: Option<String>)
    ensures
        r is Some <==> name_ok(*p),
        r matches Some(s) ==> s@ == name_text(*p),
{
    broadcast use vstd::utf8::group_utf8_lib;

    match p.get(PROP_NAME, 0) {
        Ok(PropertyValue::String(b)) => {
            let n = b.len();
            if n == 0 || b[n - 1] != 0 {
                return None;
            }
            let head = vstd::slice::slice_subrange(b.as_slice(), 0, n - 1);
            assert(head@ =~= b@.drop_last());
            match utf8_text(head) {
                Some(s) => {
                    proof {
                        encode_utf8_decode_utf8(s@);
                    }
                    Some(s.to_owned())
                },
                None => None,
            }
        },
        _ => None,
    }
}

/// The starting values of the parameters described by `ds`, by name;
/// a later descriptor of a name replaces an earlier one.
pub open spec fn params_model(ds: Seq<PropertySet>) -> Map<Seq<char>, ParamModel>
    decreases ds.len(),
{
    if ds.len() == 0 {
        Map::empty()
    } else {
        params_model(ds.drop_last()).insert(name_text(ds.last()), initial_param_value(ds.last()))
    }
}

/// The values the parameters of a new instance start with, made from
/// the plugin's descriptors: each parameter's name maps to the value
/// its descriptor gives; a later descriptor of a name replaces an
/// earlier one.
pub fn instance_params(descriptors: &[PropertySet]) -> (r: StrMap<ParamValue>)
    requires
        forall|i: int|
            0 <= i < descriptors@.len() ==> descriptor_ok(#[trigger] descriptors@[i]) && name_ok(
                descriptors@[i],
            ),
    ensures
        r@.map_values(|v: ParamValue| v@) == params_model(descriptors@),
{
    let mut m: StrMap<ParamValue> = StrMap::new();
    assert(m@.map_values(|v: ParamValue| v@) =~= params_model(descriptors@.take(0)));
    for i in 0..descriptors.len()
        invariant
            forall|j: int|
                0 <= j < descriptors@.len() ==> descriptor_ok(#[trigger] descriptors@[j]) && name_ok(
                    descriptors@[j],
                ),
            m@.map_values(|v: ParamValue| v@) == params_model(descriptors@.take(i as int)),
    {
        let d = &descriptors[i];
        assert(descriptor_ok(descriptors@[i as int]));
        let name = match param_name(d) {
            Some(n) => n,
            None => {
                proof {
                    assert(false);
                }
                String::new()
            },
        };
        let v = ParamValue::from_descriptor(d);
        let ghost before = m@;
        m.insert(name, v);
        proof {
            let t = descriptors@.take(i as int + 1);
            assert(t.drop_last() =~= descriptors@.take(i as int));
            assert(t.last() == descriptors@[i as int]);
            assert(m@.map_values(|v: ParamValue| v@) =~= before.map_values(|v: ParamValue| v@).insert(
                name_text(*d),
                initial_param_value(*d),
            ));
        }
    }
    assert(descriptors@.take(descriptors@.len() as int) =~= descriptors@);
    m
}

/// The type name of a parameter value.
pub open spec fn param_type_of(m: ParamModel) -> Seq<u8> {
    match m {
        ParamModel::Boolean(..) => PARAM_TYPE_BOOLEAN.spec_bytes().push(0u8),
        ParamModel::Choice(..) => PARAM_TYPE_CHOICE.spec_bytes().push(0u8),
        ParamModel::Custom(..) => PARAM_TYPE_CUSTOM.spec_bytes().push(0u8),
        ParamModel::Double(..) => PARAM_TYPE_DOUBLE.spec_bytes().push(0u8),
        ParamModel::Double2D(..) => PARAM_TYPE_DOUBLE_2D.spec_bytes().push(0u8),
        ParamModel::Double3D(..) => PARAM_TYPE_DOUBLE_3D.spec_bytes().push(0u8),
        ParamModel::Group => PARAM_TYPE_GROUP.spec_bytes().push(0u8),
        ParamModel::Integer(..) => PARAM_TYPE_INTEGER.spec_bytes().push(0u8),
        ParamModel::Integer2D(..) => PARAM_TYPE_INTEGER_2D.spec_bytes().push(0u8),
        ParamModel::Integer3D(..) => PARAM_TYPE_INTEGER_3D.spec_bytes().push(0u8),
        ParamModel::Page => PARAM_TYPE_PAGE.spec_bytes().push(0u8),
        ParamModel::Parametric => PARAM_TYPE_PARAMETRIC.spec_bytes().push(0u8),
        ParamModel::PushButton => PARAM_TYPE_PUSH_BUTTON.spec_bytes().push(0u8),
        ParamModel::Rgb(..) => PARAM_TYPE_RGB.spec_bytes().push(0u8),
        ParamModel::Rgba(..) => PARAM_TYPE_RGBA.spec_bytes().push(0u8),
        ParamModel::String(..) => PARAM_TYPE_STRING.spec_bytes().push(0u8),
    }
}

/// True when the `k`-th component of `m` is the default value `v`, as
/// a parameter of `m`'s type reads it: a boolean is true for a non-zero
/// integer, a choice is the integer as an index, strings keep their
/// bytes, numbers their value.
pub open spec fn takes_default(m: ParamModel, k: int, v: ValueModel) -> bool {
    match (m, v) {
        (ParamModel::Boolean(a), ValueModel::Int(x)) => k == 0 && a == (x != 0),
        (ParamModel::Choice(a), ValueModel::Int(x)) => k == 0 && a == x as usize,
        (ParamModel::Custom(a), ValueModel::String(x)) => k == 0 && a == x,
        (ParamModel::Double(a), ValueModel::Double(x)) => (k == 0 && a == x),
        (ParamModel::Double2D(a, b), ValueModel::Double(x)) => (k == 0 && a == x) || (k == 1 && b == x),
        (ParamModel::Double3D(a, b, c), ValueModel::Double(x)) => (k == 0 && a == x) || (k == 1 && b == x) || (k == 2 && c == x),
        (ParamModel::Integer(a), ValueModel::Int(x)) => (k == 0 && a == x),
        (ParamModel::Integer2D(a, b), ValueModel::Int(x)) => (k == 0 && a == x) || (k == 1 && b == x),
        (ParamModel::Integer3D(a, b, c), ValueModel::Int(x)) => (k == 0 && a == x) || (k == 1 && b == x) || (k == 2 && c == x),
        (ParamModel::Rgb(a, b, c), ValueModel::Double(x)) => (k == 0 && a == x) || (k == 1 && b == x) || (k == 2 && c == x),
        (ParamModel::Rgba(a, b, c, d), ValueModel::Double(x)) => (k == 0 && a == x) || (k == 1 && b == x) || (k == 2 && c == x) || (k == 3 && d == x),
        (ParamModel::String(a), ValueModel::String(x)) => k == 0 && a == x,
        _ => false,
    }
}

/// True when the `k`-th component of `m` is its type's zero: false, 0,
/// 0.0 (its bits) or the empty C string.
pub open spec fn zero_at(m: ParamModel, k: int) -> bool {
    match m {
        ParamModel::Boolean(a) => k == 0 && !a,
        ParamModel::Choice(a) => k == 0 && a == 0,
        ParamModel::Custom(a) => k == 0 && a == seq![0u8],
        ParamModel::Double(a) => (k == 0 && a == 0),
        ParamModel::Double2D(a, b) => (k == 0 && a == 0) || (k == 1 && b == 0),
        ParamModel::Double3D(a, b, c) => (k == 0 && a == 0) || (k == 1 && b == 0) || (k == 2 && c == 0),
        ParamModel::Integer(a) => (k == 0 && a == 0),
        ParamModel::Integer2D(a, b) => (k == 0 && a == 0) || (k == 1 && b == 0),
        ParamModel::Integer3D(a, b, c) => (k == 0 && a == 0) || (k == 1 && b == 0) || (k == 2 && c == 0),
        ParamModel::Rgb(a, b, c) => (k == 0 && a == 0) || (k == 1 && b == 0) || (k == 2 && c == 0),
        ParamModel::Rgba(a, b, c, d) => (k == 0 && a == 0) || (k == 1 && b == 0) || (k == 2 && c == 0) || (k == 3 && d == 0),
        ParamModel::String(a) => k == 0 && a == seq![0u8],
        _ => false,
    }
}

/// A parameter starts as a value of the type its descriptor names.
pub proof fn law_param_value_has_descriptor_type(p: PropertySet)
    requires
        descriptor_ok(p),
    ensures
        param_type_of(initial_param_value(p)) == descriptor_type(p).unwrap(),
{
}

/// Each component of a parameter's starting value is the default of
/// the same index in its descriptor, when the descriptor has one, and
/// the type's zero when it has none.
pub proof fn law_components_come_from_defaults(p: PropertySet, k: int)
    requires
        descriptor_ok(p),
        0 <= k < default_slots(descriptor_type(p).unwrap()),
    ensures
        match p.slot(PARAM_PROP_DEFAULT@, k) {
            Some(v) => takes_default(initial_param_value(p), k, v),
            None => zero_at(initial_param_value(p), k),
        },
{
    assert(p.kind_or_missing(PARAM_PROP_DEFAULT@, k, default_kind(descriptor_type(p).unwrap()).unwrap()));
}

} // verus!
