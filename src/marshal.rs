use crate::value::Value;
use vstd::prelude::*;

verus! {

/// A value as the engine hands it over, before it is checked against the
/// bridge's closed set of values.
#[derive(Debug)]
pub enum EngineValue {
    Null,
    Bool(bool),
    /// A number: `whole` holds it where it is a whole number that fits in an
    /// `i64`; `bits` holds its IEEE-754 bit pattern.
    Number { whole: Option<i64>, bits: u64 },
    Str(String),
    Array(Vec<EngineValue>),
    /// An object, a function or anything else with inner structure.
    Object,
}

/// The shape of an engine value that has no counterpart in the closed set.
#[derive(Debug, Clone, Copy, PartialEq, Eq, Structural)]
pub enum Shape {
    Null,
    Object,
    /// An array whose items are neither all strings nor all numbers.
    MixedArray,
}

pub open spec fn all_str(items: Seq<EngineValue>) -> bool {
    forall|i: int| 0 <= i < items.len() ==> #[trigger] items[i] is Str
}

pub open spec fn all_num(items: Seq<EngineValue>) -> bool {
    forall|i: int| 0 <= i < items.len() ==> #[trigger] items[i] is Number
}

/// `strs` holds the strings of `items`, in order.
pub open spec fn strings_of(items: Seq<EngineValue>, strs: Seq<String>) -> bool {
    &&& strs.len() == items.len()
    &&& forall|i: int| 0 <= i < items.len() ==> #[trigger] items[i] == EngineValue::Str(strs[i])
}

/// `bits` holds the bit patterns of the numbers in `items`, in order.
pub open spec fn bits_of(items: Seq<EngineValue>, bits: Seq<u64>) -> bool {
    &&& bits.len() == items.len()
    &&& forall|i: int| 0 <= i < items.len() ==> #[trigger] items[i] is Number && items[i]->bits
        == bits[i]
}

/// Whether `r` is what marshalling `v` gives: each scalar maps to its
/// variant (a whole number to `Number`, any other number to `Float`), an
/// array of strings to `StrList`, an array of numbers to `FloatList`, and
/// every other shape is refused.
pub open spec fn marshals(v: EngineValue, r: Result<Value, Shape>) -> bool {
    match v {
        EngineValue::Null => r == Err::<Value, Shape>(Shape::Null),
        EngineValue::Object => r == Err::<Value, Shape>(Shape::Object),
        EngineValue::Bool(b) => r == Ok::<Value, Shape>(Value::Bool(b)),
        EngineValue::Number { whole, bits } => match whole {
            Some(i) => r == Ok::<Value, Shape>(Value::Number(i)),
            None => r == Ok::<Value, Shape>(Value::Float(bits)),
        },
        EngineValue::Str(s) => r == Ok::<Value, Shape>(Value::Str(s)),
        EngineValue::Array(items) => if all_str(items@) {
            r matches Ok(Value::StrList(strs)) && strings_of(items@, strs@)
        } else if all_num(items@) {
            r matches Ok(Value::FloatList(bits)) && bits_of(items@, bits@)
        } else {
            r == Err::<Value, Shape>(Shape::MixedArray)
        },
    }
}

/// The strings of `items`, where every item is a string.
pub fn strings_in(items: &Vec<EngineValue>) -> (r: Option<Vec<String>>)
    ensures
        r is Some <==> all_str(items@),
        r matches Some(strs) ==> strings_of(items@, strs@),
{
    let mut strs: Vec<String> = Vec::new();
    let mut i: usize = 0;
    while i < items.len()
        invariant
            i <= items@.len(),
            strings_of(items@.take(i as int), strs@),
        decreases items@.len() - i,
    {
        match &items[i] {
            EngineValue::Str(s) => {
                strs.push(s.clone());
            },
            _ => {
                return None;
            },
        }
        i = i + 1;
        assert(strings_of(items@.take(i as int), strs@)) by {
            assert forall|j: int| 0 <= j < i implies #[trigger] items@.take(i as int)[j]
                == EngineValue::Str(strs@[j]) by {
                if j < i - 1 {
                    assert(items@.take(i - 1)[j] == items@[j]);
                }
            }
        }
    }
    assert(items@.take(items@.len() as int) =~= items@);
    Some(strs)
}

/// The bit patterns of `items`, where every item is a number.
fn numbers_in(items: &Vec<EngineValue>) -> (r: Option<Vec<u64>>)
    ensures
        r is Some <==> all_num(items@),
        r matches Some(bits) ==> bits_of(items@, bits@),
{
    let mut bits: Vec<u64> = Vec::new();
    let mut i: usize = 0;
    while i < items.len()
        invariant
            i <= items@.len(),
            bits_of(items@.take(i as int), bits@),
        decreases items@.len() - i,
    {
        match &items[i] {
            EngineValue::Number { bits: b, .. } => {
                bits.push(*b);
            },
            _ => {
                return None;
            },
        }
        i = i + 1;
        assert(bits_of(items@.take(i as int), bits@)) by {
            assert forall|j: int| 0 <= j < i implies #[trigger] items@.take(i as int)[j] is Number
                && items@.take(i as int)[j]->bits == bits@[j] by {
                if j < i - 1 {
                    assert(items@.take(i - 1)[j] == items@[j]);
                }
            }
        }
    }
    assert(items@.take(items@.len() as int) =~= items@);
    Some(bits)
}

/// Checks an engine value against the closed set: it is converted exactly,
/// or refused with its shape, never coerced.
pub fn marshal(v: EngineValue) -> (r: Result<Value, Shape>)
    ensures
        marshals(v, r),
{
    match v {
        EngineValue::Null => Err(Shape::Null),
        EngineValue::Object => Err(Shape::Object),
        EngineValue::Bool(b) => Ok(Value::Bool(b)),
        EngineValue::Number { whole, bits } => match whole {
            Some(i) => Ok(Value::Number(i)),
            None => Ok(Value::Float(bits)),
        },
        EngineValue::Str(s) => Ok(Value::Str(s)),
        EngineValue::Array(items) => match strings_in(&items) {
            Some(strs) => Ok(Value::StrList(strs)),
            None => match numbers_in(&items) {
                Some(bits) => Ok(Value::FloatList(bits)),
                None => Err(Shape::MixedArray),
            },
        },
    }
}

} // verus!
