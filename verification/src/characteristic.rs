use vstd::prelude::*;
use vstd::string::StrSliceExecFns;

use crate::error::HapError;

verus! {

/// What a controller may do with a characteristic.
#[derive(Clone, Copy, Debug, PartialEq, Eq, Structural)]
pub enum Perm {
    PairedRead,
    PairedWrite,
    Events,
    AdditionalAuthorization,
    TimedWrite,
    Hidden,
}

/// The format tag of a characteristic's value.
#[derive(Clone, Copy, Debug, PartialEq, Eq, Structural)]
pub enum Format {
    Bool,
    UInt8,
    UInt16,
    UInt32,
    UInt64,
    Int,
    Float,
    String,
    Tlv8,
    Data,
}

/// The unit of a numeric characteristic.
#[derive(Clone, Copy, Debug, PartialEq, Eq, Structural)]
pub enum Unit {
    Celsius,
    Percentage,
    ArcDegrees,
    Lux,
    Seconds,
}

/// How many parts of a `Value::Float` make one.
pub const FLOAT_SCALE: i64 = 1_000_000;

/// A value of a characteristic.
///
/// A `Float` is a fixed-point number counted in millionths: `Float(21_500_000)`
/// stands for 21.5. `Str` also carries the text of the `tlv8` and `data` formats.
#[derive(Debug, PartialEq, Eq)]
pub enum Value {
    Bool(bool),
    UInt(u64),
    Int(i64),
    Float(i64),
    Str(String),
}

/// A `Value` as a mathematical value: its text is a sequence of characters.
pub enum ValueView {
    Bool(bool),
    UInt(u64),
    Int(i64),
    Float(i64),
    Str(Seq<char>),
}

impl View for Value {
    type V = ValueView;

    open spec fn view(&self) -> ValueView {
        match self {
            Value::Bool(b) => ValueView::Bool(*b),
            Value::UInt(n) => ValueView::UInt(*n),
            Value::Int(n) => ValueView::Int(*n),
            Value::Float(m) => ValueView::Float(*m),
            Value::Str(s) => ValueView::Str(s@),
        }
    }
}

impl Clone for Value {
    fn clone(&self) -> (copy: Self)
        ensures
            copy == *self,
    {
        match self {
            Value::Bool(b) => Value::Bool(*b),
            Value::UInt(n) => Value::UInt(*n),
            Value::Int(n) => Value::Int(*n),
            Value::Float(m) => Value::Float(*m),
            Value::Str(s) => Value::Str(s.clone()),
        }
    }
}

impl Value {
    /// Whether two values are of the same variant and hold the same content.
    pub fn same(&self, other: &Value) -> (equal: bool)
        ensures
            equal == (self@ == other@),
    {
        match self {
            Value::Bool(a) => match other {
                Value::Bool(b) => *a == *b,
                _ => false,
            },
            Value::UInt(a) => match other {
                Value::UInt(b) => *a == *b,
                _ => false,
            },
            Value::Int(a) => match other {
                Value::Int(b) => *a == *b,
                _ => false,
            },
            Value::Float(a) => match other {
                Value::Float(b) => *a == *b,
                _ => false,
            },
            Value::Str(a) => match other {
                Value::Str(b) => {
                    let equal = *a == *b;
                    equal
                },
                _ => false,
            },
        }
    }
}

/// The largest number that an unsigned format holds; `None` for the other formats.
pub open spec fn unsigned_limit(format: Format) -> Option<int> {
    match format {
        Format::UInt8 => Some(0xffint),
        Format::UInt16 => Some(0xffffint),
        Format::UInt32 => Some(0xffff_ffffint),
        Format::UInt64 => Some(0xffff_ffff_ffff_ffffint),
        _ => None,
    }
}

/// The whole number that a `UInt` or an `Int` holds.
pub open spec fn integer_of(value: Value) -> Option<int> {
    match value {
        Value::UInt(n) => Some(n as int),
        Value::Int(n) => Some(n as int),
        _ => None,
    }
}

/// The value that a characteristic of the given format stores when it is handed
/// `value`; `None` where the format does not take it.
///
/// A `Bool` takes a boolean and the numbers 0 and 1. An unsigned format takes the
/// whole numbers from 0 to its limit. `Int` takes the whole numbers of 32 signed
/// bits. `Float` takes a fixed-point number, and a whole number that the scale
/// leaves within 64 signed bits. `String`, `Tlv8` and `Data` take text.
pub open spec fn coerced(format: Format, value: Value) -> Option<Value> {
    match format {
        Format::Bool => match value {
            Value::Bool(_) => Some(value),
            _ => if integer_of(value) == Some(0int) {
                Some(Value::Bool(false))
            } else if integer_of(value) == Some(1int) {
                Some(Value::Bool(true))
            } else {
                None
            },
        },
        Format::UInt8 | Format::UInt16 | Format::UInt32 | Format::UInt64 => match integer_of(value) {
            Some(n) => if 0 <= n <= unsigned_limit(format).unwrap() {
                Some(Value::UInt(n as u64))
            } else {
                None
            },
            None => None,
        },
        Format::Int => match integer_of(value) {
            Some(n) => if -0x8000_0000 <= n <= 0x7fff_ffff {
                Some(Value::Int(n as i64))
            } else {
                None
            },
            None => None,
        },
        Format::Float => match value {
            Value::Float(_) => Some(value),
            _ => match integer_of(value) {
                Some(n) => if i64::MIN <= n * FLOAT_SCALE <= i64::MAX {
                    Some(Value::Float((n * FLOAT_SCALE) as i64))
                } else {
                    None
                },
                None => None,
            },
        },
        Format::String | Format::Tlv8 | Format::Data => match value {
            Value::Str(_) => Some(value),
            _ => None,
        },
    }
}

/// Whether `value` is what a characteristic of the given format stores as it is.
pub open spec fn conforms(format: Format, value: Value) -> bool {
    coerced(format, value) == Some(value)
}

/// The number by which a value is held against bounds; `None` for a boolean or text.
pub open spec fn numeric(value: Value) -> Option<int> {
    match value {
        Value::UInt(n) => Some(n as int),
        Value::Int(n) => Some(n as int),
        Value::Float(m) => Some(m as int),
        _ => None,
    }
}

/// The number of a bound, where there is one.
pub open spec fn bound_of(bound: Option<Value>) -> Option<int> {
    match bound {
        Some(b) => numeric(b),
        None => None,
    }
}

/// How far two numbers are apart.
pub open spec fn distance(a: int, b: int) -> int {
    if a >= b {
        a - b
    } else {
        b - a
    }
}

/// Whether the number `x` respects the bounds: not below `min`, not above `max`,
/// and a whole number of steps away from `min` (from 0 where there is no `min`).
/// A step that is not positive asks for nothing.
pub open spec fn number_within(x: int, min: Option<int>, max: Option<int>, step: Option<int>) -> bool {
    &&& min matches Some(lo) ==> lo <= x
    &&& max matches Some(hi) ==> x <= hi
    &&& step matches Some(st) ==> st > 0 ==> distance(
        x,
        match min {
            Some(lo) => lo,
            None => 0,
        },
    ) % st == 0
}

/// Whether a value respects the bounds of a characteristic: a number the numeric
/// bounds, text the greatest length. A boolean has no bounds.
pub open spec fn within_bounds(
    value: Value,
    min: Option<Value>,
    max: Option<Value>,
    step: Option<Value>,
    max_len: Option<u16>,
) -> bool {
    match value {
        Value::Str(s) => max_len matches Some(l) ==> s@.len() <= l,
        _ => numeric(value) matches Some(x) ==> number_within(x, bound_of(min), bound_of(max), bound_of(step)),
    }
}

/// Whether a bound is absent or a number in the form that the format stores.
pub open spec fn bound_conforms(format: Format, bound: Option<Value>) -> bool {
    bound matches Some(b) ==> conforms(format, b) && numeric(b).is_some()
}

/// Returns the whole number that a `UInt` or an `Int` holds.
fn whole_number(value: &Value) -> (n: Option<i128>)
    ensures
        n matches Some(x) ==> integer_of(*value) == Some(x as int),
        n is None ==> integer_of(*value) is None,
{
    match value {
        Value::UInt(n) => Some(*n as i128),
        Value::Int(n) => Some(*n as i128),
        _ => None,
    }
}

/// Returns the largest number that an unsigned format holds.
fn limit_of(format: Format) -> (limit: u64)
    requires
        unsigned_limit(format) is Some,
    ensures
        unsigned_limit(format) == Some(limit as int),
{
    match format {
        Format::UInt8 => 0xff,
        Format::UInt16 => 0xffff,
        Format::UInt32 => 0xffff_ffff,
        _ => 0xffff_ffff_ffff_ffff,
    }
}

/// Turns a value into what a characteristic of the given format stores, where
/// the format takes it.
pub fn coerce(format: Format, value: Value) -> (stored: Option<Value>)
    ensures
        stored == coerced(format, value),
{
    let whole = whole_number(&value);
    match format {
        Format::Bool => match value {
            Value::Bool(b) => Some(Value::Bool(b)),
            _ => match whole {
                Some(0) => Some(Value::Bool(false)),
                Some(1) => Some(Value::Bool(true)),
                _ => None,
            },
        },
        Format::UInt8 | Format::UInt16 | Format::UInt32 | Format::UInt64 => match whole {
            Some(n) => {
                let limit: u64 = limit_of(format);
                if 0 <= n && n <= limit as i128 {
                    Some(Value::UInt(n as u64))
                } else {
                    None
                }
            },
            None => None,
        },
        Format::Int => match whole {
            Some(n) => if -0x8000_0000 <= n && n <= 0x7fff_ffff {
                Some(Value::Int(n as i64))
            } else {
                None
            },
            None => None,
        },
        Format::Float => match value {
            Value::Float(m) => Some(Value::Float(m)),
            _ => match whole {
                Some(n) => {
                    let scaled: i128 = n * (FLOAT_SCALE as i128);
                    if i64::MIN as i128 <= scaled && scaled <= i64::MAX as i128 {
                        Some(Value::Float(scaled as i64))
                    } else {
                        None
                    }
                },
                None => None,
            },
        },
        Format::String | Format::Tlv8 | Format::Data => match value {
            Value::Str(s) => Some(Value::Str(s)),
            _ => None,
        },
    }
}

/// Returns the number of a bound, where there is one.
fn bound_number(bound: &Option<Value>) -> (n: Option<i128>)
    ensures
        n matches Some(x) ==> bound_of(*bound) == Some(x as int),
        n is None ==> bound_of(*bound) is None,
{
    match bound {
        Some(Value::UInt(n)) => Some(*n as i128),
        Some(Value::Int(n)) => Some(*n as i128),
        Some(Value::Float(m)) => Some(*m as i128),
        _ => None,
    }
}

/// Whether a number respects the numeric bounds.
fn number_respects(x: i128, min: Option<i128>, max: Option<i128>, step: Option<i128>) -> (ok: bool)
    requires
        -0x8000_0000_0000_0000 <= x <= 0xffff_ffff_ffff_ffff,
        min matches Some(lo) ==> -0x8000_0000_0000_0000 <= lo <= 0xffff_ffff_ffff_ffff,
    ensures
        ok == number_within(
            x as int,
            match min {
                Some(lo) => Some(lo as int),
                None => None,
            },
            match max {
                Some(hi) => Some(hi as int),
                None => None,
            },
            match step {
                Some(st) => Some(st as int),
                None => None,
            },
        ),
{
    let base: i128 = match min {
        Some(lo) => lo,
        None => 0,
    };
    if let Some(lo) = min {
        if x < lo {
            return false;
        }
    }
    if let Some(hi) = max {
        if x > hi {
            return false;
        }
    }
    if let Some(st) = step {
        if st > 0 {
            let apart: i128 = if x >= base {
                x - base
            } else {
                base - x
            };
            return apart % st == 0;
        }
    }
    true
}

/// Whether a value respects the bounds of a characteristic.
pub fn respects_bounds(
    value: &Value,
    min: &Option<Value>,
    max: &Option<Value>,
    step: &Option<Value>,
    max_len: Option<u16>,
) -> (ok: bool)
    ensures
        ok == within_bounds(*value, *min, *max, *step, max_len),
{
    match value {
        Value::Str(s) => match max_len {
            Some(l) => s.as_str().unicode_len() <= l as usize,
            None => true,
        },
        Value::Bool(_) => true,
        Value::UInt(n) => number_respects(*n as i128, bound_number(min), bound_number(max), bound_number(step)),
        Value::Int(n) => number_respects(*n as i128, bound_number(min), bound_number(max), bound_number(step)),
        Value::Float(m) => number_respects(*m as i128, bound_number(min), bound_number(max), bound_number(step)),
    }
}

/// Whether a permission is among those of a list.
pub fn has_perm(perms: &Vec<Perm>, perm: Perm) -> (found: bool)
    ensures
        found == perms@.contains(perm),
{
    let mut i: usize = 0;
    while i < perms.len()
        invariant
            i <= perms.len(),
            forall|k: int| 0 <= k < i ==> perms@[k] != perm,
        decreases perms.len() - i,
    {
        if perms[i] == perm {
            return true;
        }
        i += 1;
    }
    false
}

/// Returns a copy of a list of permissions.
pub fn copy_perms(perms: &Vec<Perm>) -> (copy: Vec<Perm>)
    ensures
        copy@ == perms@,
{
    let mut copy: Vec<Perm> = Vec::new();
    let mut i: usize = 0;
    while i < perms.len()
        invariant
            i <= perms.len(),
            copy@ == perms@.subrange(0, i as int),
        decreases perms.len() - i,
    {
        copy.push(perms[i]);
        i += 1;
    }
    copy
}

/// Returns a copy of a bound.
pub fn copy_bound(bound: &Option<Value>) -> (copy: Option<Value>)
    ensures
        copy == *bound,
{
    match bound {
        Some(b) => Some(b.clone()),
        None => None,
    }
}

/// The smallest addressable element of an accessory: a typed value with its
/// metadata, its permissions and its notification flag.
///
/// `id` and `accessory_id` are 0 until the accessory joins a list.
#[derive(Debug, PartialEq, Eq)]
pub struct Characteristic {
    pub id: u64,
    pub accessory_id: u64,
    pub hap_type: String,
    pub format: Format,
    pub perms: Vec<Perm>,
    pub event_notifications: Option<bool>,
    pub value: Value,
    pub unit: Option<Unit>,
    pub max_value: Option<Value>,
    pub min_value: Option<Value>,
    pub step_value: Option<Value>,
    pub max_len: Option<u16>,
}

impl Clone for Characteristic {
    fn clone(&self) -> (copy: Self)
        ensures
            copy.id == self.id,
            copy.accessory_id == self.accessory_id,
            copy.hap_type == self.hap_type,
            copy.format == self.format,
            copy.perms@ == self.perms@,
            copy.event_notifications == self.event_notifications,
            copy.value == self.value,
            copy.unit == self.unit,
            copy.max_value == self.max_value,
            copy.min_value == self.min_value,
            copy.step_value == self.step_value,
            copy.max_len == self.max_len,
    {
        Characteristic {
            id: self.id,
            accessory_id: self.accessory_id,
            hap_type: self.hap_type.clone(),
            format: self.format,
            perms: copy_perms(&self.perms),
            event_notifications: self.event_notifications,
            value: self.value.clone(),
            unit: self.unit,
            max_value: copy_bound(&self.max_value),
            min_value: copy_bound(&self.min_value),
            step_value: copy_bound(&self.step_value),
            max_len: self.max_len,
        }
    }
}

impl Characteristic {
    /// The value is one that the format stores and respects the bounds, and the
    /// bounds are numbers that the format stores.
    pub open spec fn wf(&self) -> bool {
        &&& conforms(self.format, self.value)
        &&& bound_conforms(self.format, self.min_value)
        &&& bound_conforms(self.format, self.max_value)
        &&& bound_conforms(self.format, self.step_value)
        &&& within_bounds(self.value, self.min_value, self.max_value, self.step_value, self.max_len)
    }

    /// What `set_value` leaves in the characteristic when handed `value`: the
    /// coerced value, where the format takes `value` and the result respects the
    /// bounds.
    pub open spec fn accepted(&self, value: Value) -> Option<Value> {
        match coerced(self.format, value) {
            Some(stored) => if within_bounds(
                stored,
                self.min_value,
                self.max_value,
                self.step_value,
                self.max_len,
            ) {
                Some(stored)
            } else {
                None
            },
            None => None,
        }
    }

    /// Makes a characteristic that belongs to no accessory yet.
    ///
    /// The initial value is coerced as in a later assignment. An initial value
    /// that the format or the bounds refuse, or a bound that is no number of the
    /// format, gives `HapError::InvalidValue`.
    pub fn new(
        hap_type: String,
        format: Format,
        perms: Vec<Perm>,
        value: Value,
        unit: Option<Unit>,
        max_value: Option<Value>,
        min_value: Option<Value>,
        step_value: Option<Value>,
        max_len: Option<u16>,
    ) -> (made: Result<Characteristic, HapError>)
        ensures
            match made {
                Ok(c) => {
                    &&& c.wf()
                    &&& c.id == 0
                    &&& c.accessory_id == 0
                    &&& c.hap_type == hap_type
                    &&& c.format == format
                    &&& c.perms == perms
                    &&& c.event_notifications is None
                    &&& Some(c.value) == coerced(format, value)
                    &&& c.unit == unit
                    &&& c.max_value == max_value
                    &&& c.min_value == min_value
                    &&& c.step_value == step_value
                    &&& c.max_len == max_len
                },
                Err(e) => e == HapError::InvalidValue,
            },
            made is Ok <==> {
                &&& coerced(format, value) matches Some(stored)
                &&& within_bounds(stored, min_value, max_value, step_value, max_len)
                &&& bound_conforms(format, min_value)
                &&& bound_conforms(format, max_value)
                &&& bound_conforms(format, step_value)
            },
    {
        if !bound_fits(format, &min_value) || !bound_fits(format, &max_value) || !bound_fits(
            format,
            &step_value,
        ) {
            return Err(HapError::InvalidValue);
        }
        match coerce(format, value) {
            Some(stored) => {
                if !respects_bounds(&stored, &min_value, &max_value, &step_value, max_len) {
                    return Err(HapError::InvalidValue);
                }
                Ok(
                    Characteristic {
                        id: 0,
                        accessory_id: 0,
                        hap_type,
                        format,
                        perms,
                        event_notifications: None,
                        value: stored,
                        unit,
                        max_value,
                        min_value,
                        step_value,
                        max_len,
                    },
                )
            },
            None => Err(HapError::InvalidValue),
        }
    }

    /// Assigns a value.
    ///
    /// The value is coerced to the format and held against the bounds. Where
    /// either refuses it the characteristic stays as it was and the result is
    /// `HapError::InvalidValue`. Otherwise the coerced value is stored, and the result
    /// says whether it differs from the value that was stored before.
    pub fn set_value(&mut self, value: Value) -> (changed: Result<bool, HapError>)
        ensures
            match old(self).accepted(value) {
                Some(stored) => {
                    &&& *final(self) == (Characteristic { value: stored, ..*old(self) })
                    &&& changed == Ok::<bool, HapError>(stored@ != old(self).value@)
                },
                None => {
                    &&& *final(self) == *old(self)
                    &&& changed == Err::<bool, HapError>(HapError::InvalidValue)
                },
            },
            old(self).wf() ==> final(self).wf(),
    {
        match coerce(self.format, value) {
            Some(stored) => {
                if !respects_bounds(
                    &stored,
                    &self.min_value,
                    &self.max_value,
                    &self.step_value,
                    self.max_len,
                ) {
                    return Err(HapError::InvalidValue);
                }
                let changed = !stored.same(&self.value);
                self.value = stored;
                Ok(changed)
            },
            None => Err(HapError::InvalidValue),
        }
    }

    /// Sets the notification flag.
    pub fn set_event_notifications(&mut self, event_notifications: Option<bool>)
        ensures
            *final(self) == (Characteristic { event_notifications, ..*old(self) }),
    {
        self.event_notifications = event_notifications;
    }
}

/// Whether a bound is absent or a number in the form that the format stores.
fn bound_fits(format: Format, bound: &Option<Value>) -> (ok: bool)
    ensures
        ok == bound_conforms(format, *bound),
{
    match bound {
        Some(b) => match coerce(format, b.clone()) {
            Some(stored) => {
                let numeric_kind = match b {
                    Value::UInt(_) | Value::Int(_) | Value::Float(_) => true,
                    _ => false,
                };
                numeric_kind && stored.same(b)
            },
            None => false,
        },
        None => true,
    }
}

/// What a format stores for a value is stored by the format as it is.
pub proof fn lemma_coerced_conforms(format: Format, value: Value)
    ensures
        coerced(format, value) matches Some(stored) ==> conforms(format, stored),
{
}

} // verus!
