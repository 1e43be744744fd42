//! Property sets: the host's store of named, multi-valued properties.
//!
//! Every OFX object (host, effect, clip, image, parameter) carries a
//! property set. A property is a list of values; plugins read and
//! write single entries by name and index through the property suite.

use vstd::prelude::*;
use crate::strings::OfxStr;
use crate::strmap::StrMap;
use crate::status::OfxStatus;
use vstd::string::StringSliceAdditionalSpecFns;

verus! {

/// One entry of a property.
///
/// Doubles are held as their IEEE-754 bit pattern and pointers as
/// addresses: the host stores and returns them, it never computes with
/// them.
#[derive(Debug)]
pub enum PropertyValue {
    /// An address handed over by a plugin or the host.
    Pointer(usize),
    /// The bytes of a C string, terminating NUL included.
    String(Vec<u8>),
    /// The bit pattern of a double.
    Double(u64),
    Int(i32),
    /// A slot below a set index that was never written.
    Unset,
}

/// What a `PropertyValue` holds.
pub enum ValueModel {
    Pointer(usize),
    String(Seq<u8>),
    Double(u64),
    Int(i32),
    Unset,
}

/// The kinds of value a plugin may ask for.
#[derive(Copy, Clone, Debug, PartialEq, Eq, Structural)]
pub enum ValueKind {
    Pointer,
    String,
    Double,
    Int,
}

/// Why a property read failed.
#[derive(Copy, Clone, Debug, PartialEq, Eq, Structural)]
pub enum PropertyError {
    /// No property of that name.
    NotFound,
    /// The property has no value at that index.
    BadIndex,
    /// The property does not hold the number of values asked for.
    BadLength(usize),
    /// The slot exists but was never set.
    NotSet,
    /// The slot holds a value of another kind.
    UnexpectedType,
}

impl PropertyError {
    /// The status code reported to the plugin.
    pub fn status(&self) -> (r: OfxStatus)
        ensures
            r == (match *self {
                PropertyError::BadIndex | PropertyError::BadLength(_) => OfxStatus::ErrBadIndex,
                _ => OfxStatus::ErrUnknown,
            }),
    {
        match self {
            PropertyError::BadIndex | PropertyError::BadLength(_) => OfxStatus::ErrBadIndex,
            _ => OfxStatus::ErrUnknown,
        }
    }
}

impl View for PropertyValue {
    type V = ValueModel;

    open spec fn view(&self) -> ValueModel {
        match self {
            PropertyValue::Pointer(p) => ValueModel::Pointer(*p),
            PropertyValue::String(s) => ValueModel::String(s@),
            PropertyValue::Double(d) => ValueModel::Double(*d),
            PropertyValue::Int(i) => ValueModel::Int(*i),
            PropertyValue::Unset => ValueModel::Unset,
        }
    }
}

/// True when `v` is of kind `k`.
pub open spec fn has_kind(v: ValueModel, k: ValueKind) -> bool {
    match (v, k) {
        (ValueModel::Pointer(_), ValueKind::Pointer) => true,
        (ValueModel::String(_), ValueKind::String) => true,
        (ValueModel::Double(_), ValueKind::Double) => true,
        (ValueModel::Int(_), ValueKind::Int) => true,
        _ => false,
    }
}

/// OFX booleans are integers: 1 for true, 0 for false.
pub open spec fn bool_value(b: bool) -> ValueModel {
    ValueModel::Int(if b { 1 } else { 0 })
}

impl PropertyValue {
    /// A boolean as OFX stores it.
    pub fn from_bool(b: bool) -> (r: PropertyValue)
        ensures
            r@ == bool_value(b),
    {
        PropertyValue::Int(if b { 1 } else { 0 })
    }

    /// A count or size, truncated to a C `int` as OFX stores it.
    pub fn from_usize(i: usize) -> (r: PropertyValue)
        ensures
            r@ == ValueModel::Int(i as i32),
    {
        PropertyValue::Int(i as i32)
    }

    /// `s` as a C string value (its bytes and a NUL).
    pub fn from_str(s: &str) -> (r: PropertyValue)
        requires
            crate::constants::nul_free(s),
        ensures
            r@ == ValueModel::String(s.spec_bytes().push(0u8)),
    {
        let mut bytes = vstd::slice::slice_to_vec(s.as_bytes());
        bytes.push(0u8);
        PropertyValue::String(bytes)
    }

    /// An `OfxStr` as a C string value.
    pub fn from_ofx_str(s: OfxStr) -> (r: PropertyValue)
        ensures
            r@ == ValueModel::String(s@),
    {
        PropertyValue::String(vstd::slice::slice_to_vec(s.as_str_with_nul().as_bytes()))
    }

    /// The kind of the value, `None` for `Unset`.
    pub fn kind(&self) -> (r: Option<ValueKind>)
        ensures
            match r {
                Some(k) => has_kind(self@, k),
                None => self@ is Unset,
            },
    {
        match self {
            PropertyValue::Pointer(_) => Some(ValueKind::Pointer),
            PropertyValue::String(_) => Some(ValueKind::String),
            PropertyValue::Double(_) => Some(ValueKind::Double),
            PropertyValue::Int(_) => Some(ValueKind::Int),
            PropertyValue::Unset => None,
        }
    }

    /// True when the value is of kind `kind`.
    pub fn is_kind(&self, kind: ValueKind) -> (r: bool)
        ensures
            r == has_kind(self@, kind),
    {
        match self.kind() {
            Some(k) => k == kind,
            None => false,
        }
    }

    /// Value equality.
    pub fn same_as(&self, other: &PropertyValue) -> (r: bool)
        ensures
            r == (self@ == other@),
    {
        match (self, other) {
            (PropertyValue::Pointer(a), PropertyValue::Pointer(b)) => *a == *b,
            (PropertyValue::String(a), PropertyValue::String(b)) => {
                crate::strings::bytes_eq(a.as_slice(), b.as_slice())
            },
            (PropertyValue::Double(a), PropertyValue::Double(b)) => *a == *b,
            (PropertyValue::Int(a), PropertyValue::Int(b)) => *a == *b,
            (PropertyValue::Unset, PropertyValue::Unset) => true,
            _ => false,
        }
    }

    /// A copy of the value.
    pub fn duplicate(&self) -> (r: PropertyValue)
        ensures
            r@ == self@,
    {
        match self {
            PropertyValue::Pointer(p) => PropertyValue::Pointer(*p),
            PropertyValue::String(s) => PropertyValue::String(vstd::slice::slice_to_vec(s.as_slice())),
            PropertyValue::Double(d) => PropertyValue::Double(*d),
            PropertyValue::Int(i) => PropertyValue::Int(*i),
            PropertyValue::Unset => PropertyValue::Unset,
        }
    }
}

impl Clone for PropertyValue {
    /// A copy of the value.
    fn clone(&self) -> (r: Self)
        ensures
            r@ == self@,
    {
        self.duplicate()
    }
}

/// The values of a property, in index order.
#[derive(Debug)]
pub struct Property(pub Vec<PropertyValue>);

/// The models of a list of values.
pub open spec fn models(v: Seq<PropertyValue>) -> Seq<ValueModel> {
    v.map_values(|x: PropertyValue| x@)
}

impl View for Property {
    type V = Seq<ValueModel>;

    open spec fn view(&self) -> Seq<ValueModel> {
        models(self.0@)
    }
}

impl Property {
    /// A property of one value.
    pub fn single(v: PropertyValue) -> (r: Property)
        ensures
            r@ == seq![v@],
    {
        let mut vals: Vec<PropertyValue> = Vec::new();
        vals.push(v);
        let r = Property(vals);
        assert(r@ =~= seq![v@]);
        r
    }

    /// A property of the given values.
    pub fn from_values(vals: Vec<PropertyValue>) -> (r: Property)
        ensures
            r@ == models(vals@),
    {
        Property(vals)
    }

    /// A property of integers.
    pub fn from_ints(vals: &[i32]) -> (r: Property)
        ensures
            r@.len() == vals@.len(),
            forall|i: int| 0 <= i < vals@.len() ==> r@[i] == ValueModel::Int(#[trigger] vals@[i]),
    {
        let mut out: Vec<PropertyValue> = Vec::new();
        for i in 0..vals.len()
            invariant
                out@.len() == i,
                forall|j: int| 0 <= j < i ==> (#[trigger] out@[j])@ == ValueModel::Int(vals@[j]),
        {
            out.push(PropertyValue::Int(vals[i]));
        }
        Property(out)
    }

    /// A property of doubles, given by their bit patterns.
    pub fn from_double_bits(vals: &[u64]) -> (r: Property)
        ensures
            r@.len() == vals@.len(),
            forall|i: int| 0 <= i < vals@.len() ==> r@[i] == ValueModel::Double(#[trigger] vals@[i]),
    {
        let mut out: Vec<PropertyValue> = Vec::new();
        for i in 0..vals.len()
            invariant
                out@.len() == i,
                forall|j: int| 0 <= j < i ==> (#[trigger] out@[j])@ == ValueModel::Double(vals@[j]),
        {
            out.push(PropertyValue::Double(vals[i]));
        }
        Property(out)
    }

    /// True when some value of the property equals `v`.
    pub fn contains(&self, v: &PropertyValue) -> (r: bool)
        ensures
            r == self@.contains(v@),
    {
        let mut i: usize = 0;
        while i < self.0.len()
            invariant
                i <= self.0@.len(),
                forall|j: int| 0 <= j < i ==> (#[trigger] self.0@[j])@ != v@,
            decreases self.0@.len() - i,
        {
            if self.0[i].same_as(v) {
                assert(self@[i as int] == v@);
                return true;
            }
            i = i + 1;
        }
        proof {
            if self@.contains(v@) {
                let j = choose|j: int| 0 <= j < self@.len() && self@[j] == v@;
                assert(self.0@[j]@ == v@);
            }
        }
        false
    }

    /// A copy of the property.
    pub fn duplicate(&self) -> (r: Property)
        ensures
            r@ == self@,
    {
        let mut out: Vec<PropertyValue> = Vec::new();
        for i in 0..self.0.len()
            invariant
                out@.len() == i,
                forall|j: int| 0 <= j < i ==> (#[trigger] out@[j])@ == self.0@[j]@,
        {
            out.push(self.0[i].duplicate());
        }
        let r = Property(out);
        assert(r@ =~= self@);
        r
    }
}

impl Clone for Property {
    /// A copy of the property.
    fn clone(&self) -> (r: Self)
        ensures
            r@ == self@,
    {
        self.duplicate()
    }
}

/// The slots of `p` after a write at `index`: unchanged when the index
/// is in range, otherwise extended with `Unset` up to and including it.
pub open spec fn padded(p: Seq<ValueModel>, index: nat) -> Seq<ValueModel> {
    if index < p.len() {
        p
    } else {
        p + Seq::new((index + 1 - p.len()) as nat, |i: int| ValueModel::Unset)
    }
}

/// The property `m` holds under `k`, or no values.
pub open spec fn values_or_empty(m: Map<Seq<char>, Seq<ValueModel>>, k: Seq<char>) -> Seq<
    ValueModel,
> {
    if m.contains_key(k) {
        m[k]
    } else {
        Seq::empty()
    }
}

/// The properties after writing `v` at `index` of the property `key`.
pub open spec fn after_set(
    m: Map<Seq<char>, Seq<ValueModel>>,
    key: Seq<char>,
    index: nat,
    v: ValueModel,
) -> Map<Seq<char>, Seq<ValueModel>> {
    m.insert(key, padded(values_or_empty(m, key), index).update(index as int, v))
}

/// The properties of a list of named initial values; a later name
/// replaces an earlier one.
pub open spec fn initial_values(s: Seq<(Seq<char>, Seq<ValueModel>)>) -> Map<
    Seq<char>,
    Seq<ValueModel>,
>
    decreases s.len(),
{
    if s.len() == 0 {
        Map::empty()
    } else {
        initial_values(s.drop_last()).insert(s.last().0, s.last().1)
    }
}

/// The names and value models of a list of named properties.
pub open spec fn entry_models(s: Seq<(&str, Property)>) -> Seq<(Seq<char>, Seq<ValueModel>)> {
    s.map_values(|e: (&str, Property)| (e.0@, e.1@))
}

/// A named set of properties.
#[derive(Debug)]
pub struct PropertySet {
    name: String,
    values: StrMap<Property>,
}

impl Clone for PropertySet {
    /// A copy of the set: same name, same values.
    fn clone(&self) -> (r: Self)
        ensures
            r.name_view() == self.name_view(),
            r.values() == self.values(),
    {
        let values = self.values.clone();
        assert(values@.map_values(|p: Property| p@) =~= self.values@.map_values(|p: Property| p@)) by {
            assert forall|k: Seq<char>| #[trigger] values@.contains_key(k) implies values@[k]@
                == self.values@[k]@ by {
                assert(cloned::<Property>(self.values@[k], values@[k]));
            }
        }
        PropertySet { name: self.name.clone(), values }
    }
}

impl PropertySet {
    /// The name of the set (used in messages).
    pub closed spec fn name_view(&self) -> Seq<char> {
        self.name@
    }

    /// The properties, by name.
    pub closed spec fn values(&self) -> Map<Seq<char>, Seq<ValueModel>> {
        self.values@.map_values(|p: Property| p@)
    }

    /// A set called `name` holding the given properties.
    pub fn new(name: &str, values: &[(&str, Property)]) -> (r: PropertySet)
        ensures
            r.name_view() == name@,
            r.values() == initial_values(entry_models(values@)),
    {
        let mut m: StrMap<Property> = StrMap::new();
        for i in 0..values.len()
            invariant
                m@.map_values(|p: Property| p@) == initial_values(entry_models(values@.take(i as int))),
        {
            let key = values[i].0.to_owned();
            let ghost before = m@;
            m.insert(key, values[i].1.duplicate());
            proof {
                let t = values@.take(i as int + 1);
                assert(entry_models(t).drop_last() =~= entry_models(values@.take(i as int)));
                assert(m@.map_values(|p: Property| p@) =~= before.map_values(|p: Property| p@).insert(
                    values@[i as int].0@,
                    values@[i as int].1@,
                ));
            }
        }
        assert(values@.take(values@.len() as int) =~= values@);
        PropertySet { name: name.to_owned(), values: m }
    }

    /// The name of the set.
    pub fn name(&self) -> (r: &String)
        ensures
            r@ == self.name_view(),
    {
        &self.name
    }

    /// Renames the set.
    pub fn set_name(&mut self, name: String)
        ensures
            final(self).name_view() == name@,
            final(self).values() == old(self).values(),
    {
        self.name = name;
    }

    /// All values of the property `key`.
    pub fn get_all(&self, key: &str) -> (r: Result<&[PropertyValue], PropertyError>)
        ensures
            match r {
                Ok(vals) => self.values().contains_key(key@) && models(vals@)
                    == self.values()[key@],
                Err(e) => e == PropertyError::NotFound && !self.values().contains_key(key@),
            },
    {
        match self.values.get(key) {
            Some(p) => Ok(p.0.as_slice()),
            None => Err(PropertyError::NotFound),
        }
    }

    /// The value at `index` of the property `key`.
    pub fn get(&self, key: &str, index: usize) -> (r: Result<&PropertyValue, PropertyError>)
        ensures
            match r {
                Ok(v) => self.values().contains_key(key@) && index < self.values()[key@].len()
                    && v@ == self.values()[key@][index as int],
                Err(PropertyError::NotFound) => !self.values().contains_key(key@),
                Err(PropertyError::BadIndex) => self.values().contains_key(key@) && index
                    >= self.values()[key@].len(),
                Err(_) => false,
            },
    {
        match self.get_all(key) {
            Ok(vals) => {
                if index < vals.len() {
                    Ok(&vals[index])
                } else {
                    Err(PropertyError::BadIndex)
                }
            },
            Err(e) => Err(e),
        }
    }

    /// The number of values of the property `key`.
    pub fn dimension(&self, key: &str) -> (r: Option<usize>)
        ensures
            match r {
                Some(n) => self.values().contains_key(key@) && n == self.values()[key@].len(),
                None => !self.values().contains_key(key@),
            },
    {
        match self.values.get(key) {
            Some(p) => Some(p.0.len()),
            None => None,
        }
    }

    /// The value at `index` of `key`, provided it is of kind `kind`:
    /// what a plugin's typed property read returns.
    pub fn read_value(&self, key: &str, index: usize, kind: ValueKind) -> (r: Result<
        &PropertyValue,
        PropertyError,
    >)
        ensures
            match r {
                Ok(v) => self.slot(key@, index as int) == Some(v@) && has_kind(v@, kind),
                Err(PropertyError::NotFound) => !self.values().contains_key(key@),
                Err(PropertyError::BadIndex) => self.values().contains_key(key@)
                    && self.slot(key@, index as int) is None,
                Err(PropertyError::NotSet) => self.slot(key@, index as int) == Some(
                    ValueModel::Unset,
                ),
                Err(PropertyError::UnexpectedType) => self.slot(key@, index as int) matches Some(v)
                    && !(v is Unset) && !has_kind(v, kind),
                Err(_) => false,
            },
    {
        match self.get(key, index) {
            Ok(v) => match v.kind() {
                Some(k) => {
                    if k == kind {
                        Ok(v)
                    } else {
                        Err(PropertyError::UnexpectedType)
                    }
                },
                None => Err(PropertyError::NotSet),
            },
            Err(e) => Err(e),
        }
    }

    /// The value at `index` of `key`, if there is one.
    pub open spec fn slot(&self, key: Seq<char>, index: int) -> Option<ValueModel> {
        if self.values().contains_key(key) && 0 <= index < self.values()[key].len() {
            Some(self.values()[key][index])
        } else {
            None
        }
    }

    /// True when the slot is missing or holds a value of kind `kind`.
    pub open spec fn kind_or_missing(&self, key: Seq<char>, index: int, kind: ValueKind) -> bool {
        self.slot(key, index) matches Some(v) ==> has_kind(v, kind)
    }

    /// True when the slot is missing or holds a value of kind `kind`:
    /// when the typed getters below may be called.
    pub fn slot_kind_ok(&self, key: &str, index: usize, kind: ValueKind) -> (r: bool)
        ensures
            r == self.kind_or_missing(key@, index as int, kind),
    {
        match self.get(key, index) {
            Ok(v) => match v.kind() {
                Some(k) => k == kind,
                None => false,
            },
            Err(_) => true,
        }
    }

    /// True when the property `key`, if it has four values, holds only
    /// doubles: when `get_rectd` may be called.
    pub fn rect_kinds_ok(&self, key: &str) -> (r: bool)
        ensures
            r == (self.values().contains_key(key@) && self.values()[key@].len() == 4
                ==> forall|i: int| 0 <= i < 4 ==> has_kind(
                #[trigger] self.values()[key@][i],
                ValueKind::Double,
            )),
    {
        match self.get_all(key) {
            Ok(vals) => {
                if vals.len() != 4 {
                    return true;
                }
                let ok = vals[0].is_kind(ValueKind::Double) && vals[1].is_kind(ValueKind::Double)
                    && vals[2].is_kind(ValueKind::Double) && vals[3].is_kind(ValueKind::Double);
                proof {
                    let m = models(vals@);
                    assert(m[0] == vals@[0]@);
                    assert(m[1] == vals@[1]@);
                    assert(m[2] == vals@[2]@);
                    assert(m[3] == vals@[3]@);
                }
                ok
            },
            Err(_) => true,
        }
    }

    /// The integer at `index` of `key`; `None` when there is no such slot.
    pub fn get_int(&self, key: &str, index: usize) -> (r: Option<i32>)
        requires
            self.kind_or_missing(key@, index as int, ValueKind::Int),
        ensures
            match r {
                Some(i) => self.slot(key@, index as int) == Some(ValueModel::Int(i)),
                None => self.slot(key@, index as int) is None,
            },
    {
        match self.get(key, index) {
            Ok(PropertyValue::Int(i)) => Some(*i),
            Ok(_) => None,
            Err(_) => None,
        }
    }

    /// The boolean at `index` of `key` (an integer, true when non-zero).
    pub fn get_bool(&self, key: &str, index: usize) -> (r: Option<bool>)
        requires
            self.kind_or_missing(key@, index as int, ValueKind::Int),
        ensures
            match r {
                Some(b) => self.slot(key@, index as int) matches Some(ValueModel::Int(i)) && b == (i
                    != 0),
                None => self.slot(key@, index as int) is None,
            },
    {
        match self.get_int(key, index) {
            Some(i) => Some(i != 0),
            None => None,
        }
    }

    /// The bit pattern of the double at `index` of `key`.
    pub fn get_double(&self, key: &str, index: usize) -> (r: Option<u64>)
        requires
            self.kind_or_missing(key@, index as int, ValueKind::Double),
        ensures
            match r {
                Some(d) => self.slot(key@, index as int) == Some(ValueModel::Double(d)),
                None => self.slot(key@, index as int) is None,
            },
    {
        match self.get(key, index) {
            Ok(PropertyValue::Double(d)) => Some(*d),
            Ok(_) => None,
            Err(_) => None,
        }
    }

    /// The bytes (terminating NUL included) of the string at `index` of `key`.
    pub fn get_string(&self, key: &str, index: usize) -> (r: Option<Vec<u8>>)
        requires
            self.kind_or_missing(key@, index as int, ValueKind::String),
        ensures
            match r {
                Some(s) => self.slot(key@, index as int) == Some(ValueModel::String(s@)),
                None => self.slot(key@, index as int) is None,
            },
    {
        match self.get(key, index) {
            Ok(PropertyValue::String(s)) => Some(vstd::slice::slice_to_vec(s.as_slice())),
            Ok(_) => None,
            Err(_) => None,
        }
    }

    /// The four doubles of `key` (x1, y1, x2, y2), as bit patterns.
    pub fn get_rectd(&self, key: &str) -> (r: Result<[u64; 4], PropertyError>)
        requires
            self.values().contains_key(key@) && self.values()[key@].len() == 4
                ==> forall|i: int| 0 <= i < 4 ==> has_kind(
                #[trigger] self.values()[key@][i],
                ValueKind::Double,
            ),
        ensures
            match r {
                Ok(a) => self.values().contains_key(key@) && self.values()[key@] == seq![
                    ValueModel::Double(a[0]),
                    ValueModel::Double(a[1]),
                    ValueModel::Double(a[2]),
                    ValueModel::Double(a[3]),
                ],
                Err(PropertyError::NotFound) => !self.values().contains_key(key@),
                Err(PropertyError::BadLength(n)) => self.values().contains_key(key@) && n
                    == self.values()[key@].len() && n != 4,
                Err(_) => false,
            },
    {
        let vals = match self.get_all(key) {
            Ok(v) => v,
            Err(e) => return Err(e),
        };
        if vals.len() != 4 {
            return Err(PropertyError::BadLength(vals.len()));
        }
        let ghost m = models(vals@);
        assert(has_kind(m[0], ValueKind::Double));
        assert(has_kind(m[1], ValueKind::Double));
        assert(has_kind(m[2], ValueKind::Double));
        assert(has_kind(m[3], ValueKind::Double));
        let a = match (&vals[0], &vals[1], &vals[2], &vals[3]) {
            (
                PropertyValue::Double(x1),
                PropertyValue::Double(y1),
                PropertyValue::Double(x2),
                PropertyValue::Double(y2),
            ) => [*x1, *y1, *x2, *y2],
            _ => {
                proof {
                    assert(false);
                }
                [0, 0, 0, 0]
            },
        };
        assert(m =~= seq![
            ValueModel::Double(a[0]),
            ValueModel::Double(a[1]),
            ValueModel::Double(a[2]),
            ValueModel::Double(a[3]),
        ]);
        Ok(a)
    }

    /// Writes `value` at `index` of the property `key`, creating the
    /// property and padding it with `Unset` as needed.
    pub fn set(&mut self, key: &str, index: usize, value: PropertyValue)
        requires
            index < usize::MAX,
        ensures
            final(self).name_view() == old(self).name_view(),
            final(self).values() == after_set(old(self).values(), key@, index as nat, value@),
    {
        let ghost old_vals = self.values();
        let old_prop = self.values.remove(key);
        let mut vals: Vec<PropertyValue> = match old_prop {
            Some(p) => p.0,
            None => Vec::new(),
        };
        let ghost start = models(vals@);
        assert(start == values_or_empty(old_vals, key@));
        while vals.len() <= index
            invariant
                index < usize::MAX,
                models(vals@).len() >= start.len(),
                models(vals@).subrange(0, start.len() as int) == start,
                forall|j: int| start.len() <= j < vals@.len() ==> (#[trigger] vals@[j])@ is Unset,
                vals@.len() <= index + 1 || vals@.len() == start.len(),
            decreases index + 1 - vals@.len(),
        {
            vals.push(PropertyValue::Unset);
            assert(models(vals@).subrange(0, start.len() as int) =~= start);
        }
        let ghost pad = models(vals@);
        assert(pad =~= padded(start, index as nat));
        vals.set(index, value);
        assert(models(vals@) =~= pad.update(index as int, value@));
        self.values.insert(key.to_owned(), Property(vals));
        assert(self.values() =~= old_vals.remove(key@).insert(key@, pad.update(index as int, value@)));
    }

    /// Replaces the whole property `key`.
    pub fn insert(&mut self, key: &str, prop: Property)
        ensures
            final(self).name_view() == old(self).name_view(),
            final(self).values() == old(self).values().insert(key@, prop@),
    {
        let ghost old_vals = self.values();
        self.values.insert(key.to_owned(), prop);
        assert(self.values() =~= old_vals.insert(key@, prop@));
    }

    /// The property `key`, if present.
    pub fn property(&self, key: &str) -> (r: Option<&Property>)
        ensures
            match r {
                Some(p) => self.values().contains_key(key@) && p@ == self.values()[key@],
                None => !self.values().contains_key(key@),
            },
    {
        self.values.get(key)
    }

    /// The number of properties.
    pub fn len(&self) -> (r: usize)
        ensures
            r == self.values().len(),
    {
        let r = self.values.len();
        assert(self.values().dom() =~= self.values@.dom());
        r
    }

    /// The name of the property stored at position `i`; the positions
    /// below `values().len()` hold each name exactly once.
    pub closed spec fn key_at(&self, i: int) -> Seq<char> {
        self.values.entries()[i].0@
    }

    /// The name and values of the property stored at position `i`.
    /// Visiting the positions below `len()` visits every property once.
    pub fn entry_at(&self, i: usize) -> (r: (&String, &Property))
        requires
            i < self.values().len(),
        ensures
            r.0@ == self.key_at(i as int),
            self.values().contains_key(r.0@),
            r.1@ == self.values()[r.0@],
            forall|j: int|
                0 <= j < self.values().len() && j != i ==> #[trigger] self.key_at(j) != r.0@,
            forall|k: Seq<char>|
                #[trigger] self.values().contains_key(k) ==> exists|j: int|
                    0 <= j < self.values().len() && #[trigger] self.key_at(j) == k,
    {
        let n = self.values.len();
        assert(self.values().dom() =~= self.values@.dom());
        let r = self.values.entry_at(i);
        proof {
            assert forall|k: Seq<char>| #[trigger] self.values().contains_key(k) implies exists|j: int|
                0 <= j < self.values().len() && #[trigger] self.key_at(j) == k by {
                assert(self.values@.contains_key(k));
                let j = choose|j: int|
                    0 <= j < self.values.entries().len() && (#[trigger] self.values.entries()[j]).0@ == k;
                assert(self.key_at(j) == k);
            }
            assert forall|j: int| 0 <= j < self.values().len() && j != i implies #[trigger] self.key_at(j)
                != r.0@ by {
                assert(self.values.entries()[j].0@ != r.0@);
            }
        }
        r
    }
}

/// A read gives back what a write wrote: after writing `v` at `index`
/// of `key`, that slot holds `v`, and the property has `index + 1`
/// values or as many as before, whichever is more.
pub proof fn law_get_after_set(
    m: Map<Seq<char>, Seq<ValueModel>>,
    key: Seq<char>,
    index: nat,
    v: ValueModel,
)
    ensures
        after_set(m, key, index, v).contains_key(key),
        after_set(m, key, index, v)[key][index as int] == v,
        after_set(m, key, index, v)[key].len() == if index < values_or_empty(m, key).len() {
            values_or_empty(m, key).len()
        } else {
            index + 1
        },
{
}

/// A write touches one slot: other properties, and the other slots of
/// the written property, keep their values; slots added below the
/// written index are `Unset`.
pub proof fn law_set_touches_one_slot(
    m: Map<Seq<char>, Seq<ValueModel>>,
    key: Seq<char>,
    index: nat,
    v: ValueModel,
)
    ensures
        forall|k: Seq<char>| k != key ==> (#[trigger] after_set(m, key, index, v).contains_key(k)
            <==> m.contains_key(k)),
        forall|k: Seq<char>| k != key && m.contains_key(k) ==> #[trigger] after_set(m, key, index, v)[k]
            == m[k],
        forall|j: int|
            0 <= j < values_or_empty(m, key).len() && j != index ==> #[trigger] after_set(
                m,
                key,
                index,
                v,
            )[key][j] == values_or_empty(m, key)[j],
        forall|j: int|
            values_or_empty(m, key).len() <= j < index ==> #[trigger] after_set(m, key, index, v)[key][j]
                == ValueModel::Unset,
{
}

/// Writing the same value twice is the same as writing it once.
pub proof fn law_set_idempotent(
    m: Map<Seq<char>, Seq<ValueModel>>,
    key: Seq<char>,
    index: nat,
    v: ValueModel,
)
    ensures
        after_set(after_set(m, key, index, v), key, index, v) == after_set(m, key, index, v),
{
    let once = after_set(m, key, index, v);
    let twice = after_set(once, key, index, v);
    assert(padded(values_or_empty(once, key), index) =~= once[key]);
    assert(twice[key] =~= once[key]);
    assert(twice =~= once);
}

} // verus!
