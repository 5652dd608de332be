//! JSON values as the graders read them.
//!
//! A value is held as plain data: a float is held by the bit pattern of the
//! `f64` that the parser produced, so that the library can compare it without
//! floating-point arithmetic. Numbers compare as `serde_json` compares them:
//! a non-negative integer, a negative integer and a float are three kinds, and
//! two floats are equal when they are the same number (`0.0` equals `-0.0`).

use vstd::prelude::*;

use crate::text::str_eq;

verus! {

#[derive(Clone, Copy, Debug, PartialEq, Eq, Structural)]
pub enum JsonNumber {
    PosInt(u64),
    NegInt(i64),
    /// The bits of an `f64` (`f64::to_bits`); JSON holds no NaN.
    Float(u64),
}

#[derive(Debug)]
pub enum JsonValue {
    Null,
    Bool(bool),
    Number(JsonNumber),
    String(String),
    Array(Vec<JsonValue>),
    /// The members of an object, each key with its value.
    Object(Vec<(String, JsonValue)>),
}

/// The bits of an `f64` apart from its sign.
pub open spec fn magnitude_bits(bits: u64) -> u64 {
    bits & 0x7fff_ffff_ffff_ffff
}

/// Two JSON numbers are the same number of the same kind.
pub open spec fn number_eq(a: JsonNumber, b: JsonNumber) -> bool {
    match (a, b) {
        (JsonNumber::PosInt(x), JsonNumber::PosInt(y)) => x == y,
        (JsonNumber::NegInt(x), JsonNumber::NegInt(y)) => x == y,
        (JsonNumber::Float(x), JsonNumber::Float(y)) => x == y || (magnitude_bits(x) == 0
            && magnitude_bits(y) == 0),
        _ => false,
    }
}

/// Equality of JSON values: scalars by value, arrays element by element, and
/// objects member by member regardless of the order in which members are held.
pub open spec fn json_eq(a: JsonValue, b: JsonValue) -> bool
    decreases a, 1nat,
{
    match a {
        JsonValue::Null => b is Null,
        JsonValue::Bool(x) => b is Bool && x == b->Bool_0,
        JsonValue::Number(x) => b is Number && number_eq(x, b->Number_0),
        JsonValue::String(x) => b is String && x@ == b->String_0@,
        JsonValue::Array(xs) => b is Array && xs@.len() == b->Array_0@.len() && forall|i: int|
            0 <= i < xs@.len() ==> json_eq(#[trigger] xs@[i], b->Array_0@[i]),
        JsonValue::Object(xs) => b is Object && xs@.len() == b->Object_0@.len() && forall|i: int|
            0 <= i < xs@.len() ==> member_in(#[trigger] xs@[i], b->Object_0@),
    }
}

/// Some member of `ys` has the key of `m` and a value equal to that of `m`.
pub open spec fn member_in(m: (String, JsonValue), ys: Seq<(String, JsonValue)>) -> bool
    decreases m, 0nat,
{
    exists|j: int| 0 <= j < ys.len() && m.0@ == (#[trigger] ys[j]).0@ && json_eq(m.1, ys[j].1)
}

fn number_equal(a: JsonNumber, b: JsonNumber) -> (r: bool)
    ensures
        r == number_eq(a, b),
{
    match (a, b) {
        (JsonNumber::PosInt(x), JsonNumber::PosInt(y)) => x == y,
        (JsonNumber::NegInt(x), JsonNumber::NegInt(y)) => x == y,
        (JsonNumber::Float(x), JsonNumber::Float(y)) => x == y || (x & 0x7fff_ffff_ffff_ffff == 0
            && y & 0x7fff_ffff_ffff_ffff == 0),
        _ => false,
    }
}

/// True when the two values are equal JSON values.
pub fn json_equal(a: &JsonValue, b: &JsonValue) -> (r: bool)
    ensures
        r == json_eq(*a, *b),
    decreases *a,
{
    match (a, b) {
        (JsonValue::Null, JsonValue::Null) => true,
        (JsonValue::Bool(x), JsonValue::Bool(y)) => *x == *y,
        (JsonValue::Number(x), JsonValue::Number(y)) => number_equal(*x, *y),
        (JsonValue::String(x), JsonValue::String(y)) => str_eq(x.as_str(), y.as_str()),
        (JsonValue::Array(xs), JsonValue::Array(ys)) => {
            if xs.len() != ys.len() {
                return false;
            }
            let mut i: usize = 0;
            while i < xs.len()
                invariant
                    xs.len() == ys.len(),
                    i <= xs.len(),
                    *a == JsonValue::Array(*xs),
                    *b == JsonValue::Array(*ys),
                    forall|k: int| 0 <= k < i ==> json_eq(#[trigger] xs@[k], ys@[k]),
                decreases xs.len() - i,
            {
                assert(decreases_to!(*a => (*a)->Array_0));
                assert(decreases_to!(*xs => xs[i as int]));
                if !json_equal(&xs[i], &ys[i]) {
                    return false;
                }
                i = i + 1;
            }
            assert(json_eq(*a, *b));
            true
        },
        (JsonValue::Object(xs), JsonValue::Object(ys)) => {
            if xs.len() != ys.len() {
                return false;
            }
            let mut i: usize = 0;
            while i < xs.len()
                invariant
                    xs.len() == ys.len(),
                    i <= xs.len(),
                    *a == JsonValue::Object(*xs),
                    *b == JsonValue::Object(*ys),
                    forall|k: int| 0 <= k < i ==> member_in(#[trigger] xs@[k], ys@),
                decreases xs.len() - i,
            {
                let mut j: usize = 0;
                let mut found = false;
                while j < ys.len() && !found
                    invariant
                        i < xs.len(),
                        j <= ys.len(),
                        *a == JsonValue::Object(*xs),
                        *b == JsonValue::Object(*ys),
                        found ==> member_in(xs@[i as int], ys@),
                        !found ==> forall|w: int|
                            0 <= w < j ==> !((#[trigger] xs@[i as int]).0@ == (#[trigger] ys@[w]).0@
                                && json_eq(xs@[i as int].1, ys@[w].1)),
                    decreases ys.len() - j, (if found { 0int } else { 1int }),
                {
                    if str_eq(xs[i].0.as_str(), ys[j].0.as_str()) {
                        assert(decreases_to!(*a => (*a)->Object_0));
                        assert(decreases_to!(*xs => xs[i as int]));
                        assert(decreases_to!(xs[i as int] => xs[i as int].1));
                        if json_equal(&xs[i].1, &ys[j].1) {
                            assert(ys@[j as int] == ys@[j as int]);
                            found = true;
                        } else {
                            j = j + 1;
                        }
                    } else {
                        j = j + 1;
                    }
                }
                if !found {
                    proof {
                        if json_eq(*a, *b) {
                            assert(member_in(xs@[i as int], ys@));
                            let w = choose|w: int|
                                0 <= w < ys@.len() && xs@[i as int].0@ == (#[trigger] ys@[w]).0@
                                    && json_eq(xs@[i as int].1, ys@[w].1);
                            assert(!(xs@[i as int].0@ == ys@[w].0@ && json_eq(xs@[i as int].1, ys@[w].1)));
                        }
                    }
                    return false;
                }
                i = i + 1;
            }
            assert(json_eq(*a, *b));
            true
        },
        _ => false,
    }
}

/// The value is an object with a member named `key`.
pub open spec fn has_member(v: JsonValue, key: Seq<char>) -> bool {
    match v {
        JsonValue::Object(ms) => exists|i: int| 0 <= i < ms@.len() && (#[trigger] ms@[i]).0@ == key,
        _ => false,
    }
}

/// `Value::get(key).is_some()`: the value is an object with a member `key`.
pub fn has_field(v: &JsonValue, key: &str) -> (r: bool)
    ensures
        r == has_member(*v, key@),
{
    match v {
        JsonValue::Object(ms) => {
            let mut i: usize = 0;
            while i < ms.len()
                invariant
                    i <= ms.len(),
                    *v == JsonValue::Object(*ms),
                    forall|k: int| 0 <= k < i ==> (#[trigger] ms@[k]).0@ != key@,
                decreases ms.len() - i,
            {
                if str_eq(ms[i].0.as_str(), key) {
                    assert((ms@[i as int]).0@ == key@);
                    assert(exists|w: int| 0 <= w < ms@.len() && (#[trigger] ms@[w]).0@ == key@);
                    assert(v is Object);
                    assert(v->Object_0 == *ms);
                    assert(v->Object_0@[i as int].0@ == key@);
                    assert(has_member(*v, key@));
                    return true;
                }
                i = i + 1;
            }
            false
        },
        _ => false,
    }
}

} // verus!
