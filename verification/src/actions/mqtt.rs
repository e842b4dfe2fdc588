//! Actions that publish an MQTT message, and how they turn a dial count into a value.

use vstd::prelude::*;

use crate::decimal::{decimal_text, format_i32};

verus! {

/// Lowest dial count that the mapping expects.
pub const DIAL_IN_MIN: u8 = 1;

/// Highest dial count that the mapping expects.
pub const DIAL_IN_MAX: u8 = 10;

/// Integer division that rounds toward zero, as Rust's `/` does, for a positive divisor.
pub open spec fn div_toward_zero(a: int, b: int) -> int
    recommends
        b > 0,
{
    if a >= 0 {
        a / b
    } else {
        -((-a) / b)
    }
}

/// The value that a dial count maps to, before it is narrowed to `i32`: the linear map that
/// sends `DIAL_IN_MIN` to `out_min` and `DIAL_IN_MAX` to `out_max`, rounded toward zero.
pub open spec fn mapped_value(value: int, out_min: int, out_max: int) -> int {
    div_toward_zero(
        (value - DIAL_IN_MIN) * (out_max - out_min),
        DIAL_IN_MAX - DIAL_IN_MIN,
    ) + out_min
}

/// The mapping sends the lowest count to `out_min` and the highest to `out_max`; between them
/// it never decreases when `out_min <= out_max`, and stays within `out_min..=out_max`.
pub proof fn lemma_mapped_value_range(v: int, w: int, out_min: int, out_max: int)
    requires
        DIAL_IN_MIN <= v <= w <= DIAL_IN_MAX,
        out_min <= out_max,
    ensures
        mapped_value(DIAL_IN_MIN as int, out_min, out_max) == out_min,
        mapped_value(DIAL_IN_MAX as int, out_min, out_max) == out_max,
        mapped_value(v, out_min, out_max) <= mapped_value(w, out_min, out_max),
        out_min <= mapped_value(v, out_min, out_max) <= out_max,
{
    let range = out_max - out_min;
    assert((9 * range) / 9 == range) by (nonlinear_arith);
    assert(0 <= (v - 1) * range <= (w - 1) * range <= 9 * range) by (nonlinear_arith)
        requires
            1 <= v <= w <= 10,
            0 <= range,
    ;
    assert((v - 1) * range / 9 <= (w - 1) * range / 9) by (nonlinear_arith)
        requires
            0 <= (v - 1) * range <= (w - 1) * range,
    ;
    assert(0 <= (v - 1) * range / 9 <= range) by (nonlinear_arith)
        requires
            0 <= (v - 1) * range <= 9 * range,
    ;
}

/// Dial options with no mapping.
#[derive(Debug, Clone, Copy, PartialEq, Eq)]
pub struct DialOptions {
    pub required: bool,
}

/// Dial options that map the count linearly onto `out_min..=out_max`.
#[derive(Debug, Clone, Copy, PartialEq, Eq)]
pub struct MapRangeOptions {
    pub required: bool,
    pub out_min: i32,
    pub out_max: i32,
}

impl MapRangeOptions {
    /// Maps a dial count (1 to 10) linearly onto `out_min..=out_max`.
    pub fn map_value(&self, value: u8) -> (r: i32)
        requires
            DIAL_IN_MIN <= value,
            i32::MIN <= self.out_max - self.out_min <= i32::MAX,
        ensures
            r == mapped_value(value as int, self.out_min as int, self.out_max as int) as i32,
            i32::MIN <= mapped_value(value as int, self.out_min as int, self.out_max as int)
                <= i32::MAX ==> r == mapped_value(value as int, self.out_min as int, self.out_max as int),
    {
        let in_min: u8 = DIAL_IN_MIN;
        let in_max: u8 = DIAL_IN_MAX;

        let in_range = (in_max - in_min) as i64;
        let out_range = (self.out_max - self.out_min) as i64;
        let value_offset = (value - in_min) as i64;

        assert(0 <= value_offset * out_range <= 255 * 0x1_0000_0000 || 
            -255 * 0x1_0000_0000 <= value_offset * out_range <= 0) by (nonlinear_arith)
            requires 0 <= value_offset <= 255, -0x1_0000_0000 <= out_range <= 0x1_0000_0000;
        let mapped = value_offset * out_range / in_range + self.out_min as i64;
        mapped as i32
    }
}


/// Dial options that send the name paired with the dial count.
#[derive(Debug, Clone, Copy, PartialEq, Eq)]
pub struct MapValuesOptions {
    pub required: bool,
    pub values: &'static [(u32, &'static str)],
}

/// How an MQTT action uses the dial count.
#[derive(Debug, Clone, Copy, PartialEq, Eq)]
pub enum DialMode {
    Unused,
    Normal(DialOptions),
    MapRange(MapRangeOptions),
    MapValues(MapValuesOptions),
}

/// An action that publishes a message on `topic`, with a payload taken from the dial.
#[derive(Debug, Clone, Copy, PartialEq, Eq)]
pub struct Action {
    pub dial: DialMode,
    pub topic: &'static str,
}

/// What a dial count turns into before it is written as the payload.
#[derive(Debug, Clone, Copy, PartialEq, Eq)]
pub enum DialValue {
    /// A number, written in decimal.
    Number(i32),
    /// A text, written as it is.
    Text(&'static str),
}

/// The first name paired with `key` in `values`, if any.
pub open spec fn lookup_name(values: Seq<(u32, &'static str)>, key: u32) -> Option<&'static str>
    decreases values.len(),
{
    if values.len() == 0 {
        None
    } else if values[0].0 == key {
        Some(values[0].1)
    } else {
        lookup_name(values.drop_first(), key)
    }
}

/// The name found for a key is the one paired with its first entry in the table, and a key
/// that no entry has finds nothing.
pub proof fn lemma_lookup_finds_first_entry(values: Seq<(u32, &'static str)>, key: u32, i: int)
    ensures
        0 <= i < values.len() && values[i].0 == key && (forall|j: int| 0 <= j < i ==> values[j].0
            != key) ==> lookup_name(values, key) == Some(values[i].1),
        (forall|j: int| 0 <= j < values.len() ==> values[j].0 != key) ==> lookup_name(values, key)
            is None,
    decreases values.len(),
{
    if values.len() > 0 {
        let rest = values.drop_first();
        lemma_lookup_finds_first_entry(rest, key, i - 1);
        if 0 < i < values.len() && values[i].0 == key && (forall|j: int| 0 <= j < i ==> values[j].0 != key) {
            assert(values[0].0 != key);
            assert(rest[i - 1] == values[i]);
            assert forall|j: int| 0 <= j < i - 1 implies rest[j].0 != key by {
                assert(rest[j] == values[j + 1]);
            }
        }
        if forall|j: int| 0 <= j < values.len() ==> values[j].0 != key {
            assert(values[0].0 != key);
            assert forall|j: int| 0 <= j < rest.len() implies rest[j].0 != key by {
                assert(rest[j] == values[j + 1]);
            }
        }
    }
}

/// Under a value map, a dial count that the table has gives the name of its first entry, and
/// one that the table lacks gives the empty text.
pub proof fn lemma_value_map_gives_paired_name(o: MapValuesOptions, count: u8, i: int)
    ensures
        0 <= i < o.values@.len() && o.values@[i].0 == count as u32 && (forall|j: int|
            0 <= j < i ==> o.values@[j].0 != count as u32) ==> DialMode::MapValues(o).dial_value(count)
            == DialValue::Text(o.values@[i].1),
        (forall|j: int| 0 <= j < o.values@.len() ==> o.values@[j].0 != count as u32) ==> DialMode::MapValues(
            o,
        ).dial_value(count) == DialValue::Text(""),
{
    lemma_lookup_finds_first_entry(o.values@, count as u32, i);
}

impl DialMode {
    /// The value of a dial count under this mode: the empty text when the dial is unused, the
    /// count itself in the normal mode, the linear map for `MapRange`, and for `MapValues` the name paired with
    /// the count (the empty text when there is none).
    pub open spec fn dial_value(self, count: u8) -> DialValue {
        match self {
            DialMode::Unused => DialValue::Text(""),
            DialMode::Normal(_) => DialValue::Number(count as i32),
            DialMode::MapRange(o) => DialValue::Number(
                mapped_value(count as int, o.out_min as int, o.out_max as int) as i32,
            ),
            DialMode::MapValues(o) => match lookup_name(o.values@, count as u32) {
                Some(name) => DialValue::Text(name),
                None => DialValue::Text(""),
            },
        }
    }

    /// Whether a count is one that this mode can map without overflow.
    pub open spec fn accepts(self, count: u8) -> bool {
        match self {
            DialMode::MapRange(o) => DIAL_IN_MIN <= count && i32::MIN <= o.out_max - o.out_min
                <= i32::MAX,
            _ => true,
        }
    }
}

impl DialValue {
    /// The text that `{}` writes for this value.
    pub open spec fn text(self) -> Seq<char> {
        match self {
            DialValue::Number(n) => decimal_text(n as int),
            DialValue::Text(t) => t@,
        }
    }

    /// Writes the value as text, as `{}` does.
    pub fn to_text(&self) -> (r: String)
        ensures
            r@ == self.text(),
    {
        match self {
            DialValue::Number(n) => format_i32(*n),
            DialValue::Text(t) => String::from_str(t),
        }
    }
}

fn find_name(values: &'static [(u32, &'static str)], key: u32) -> (r: Option<&'static str>)
    ensures
        r == lookup_name(values@, key),
{
    let mut i: usize = 0;
    assert(values@.skip(0) =~= values@);
    while i < values.len()
        invariant
            i <= values@.len(),
            lookup_name(values@, key) == lookup_name(values@.skip(i as int), key),
        decreases values@.len() - i,
    {
        assert(values@.skip(i as int).drop_first() =~= values@.skip(i + 1));
        let (k, name) = values[i];
        if k == key {
            return Some(name);
        }
        i = i + 1;
    }
    None
}

impl Action {
    /// An action with a plain dial, which is not required.
    pub fn new(topic: &'static str) -> (r: Self)
        ensures
            r.topic == topic,
            r.dial == DialMode::Normal(DialOptions { required: false }),
    {
        Self { dial: DialMode::Normal(DialOptions { required: false }), topic }
    }

    /// An action for a lamp: the dial maps counts 1 to 10 onto brightness 10 to 100.
    pub fn new_lamp_control(topic: &'static str) -> (r: Self)
        ensures
            r.topic == topic,
            r.dial == DialMode::MapRange(
                MapRangeOptions { required: false, out_min: 10, out_max: 100 },
            ),
    {
        Self {
            dial: DialMode::MapRange(MapRangeOptions { required: false, out_min: 10, out_max: 100 }),
            topic,
        }
    }

    /// The value that a dial count gives under this action's dial mode.
    pub fn map_value(&self, count: u8) -> (r: DialValue)
        requires
            self.dial.accepts(count),
        ensures
            r == self.dial.dial_value(count),
    {
        match &self.dial {
            DialMode::Unused => DialValue::Text(""),
            DialMode::Normal(_) => DialValue::Number(count as i32),
            DialMode::MapRange(o) => DialValue::Number(o.map_value(count)),
            DialMode::MapValues(o) => match find_name(o.values, count as u32) {
                Some(name) => DialValue::Text(name),
                None => DialValue::Text(""),
            },
        }
    }
}

} // verus!
