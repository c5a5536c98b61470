//! Dynamic values: trees of null, boolean, number, string, array and object,
//! and their coercion into the value domain.

use vstd::prelude::*;
use crate::value::{BasicType, RealBits, Value};

verus! {

/// A number of a dynamic tree, given by its two readings.
///
/// A number that fits a 64-bit signed integer has the reading `integer`.
/// `real` is its reading as a 64-bit real, where it has one.
#[derive(Clone, Copy, Debug, PartialEq, Eq)]
pub struct DynamicNumber {
    pub integer: Option<i64>,
    pub real: Option<RealBits>,
}

/// A dynamic value.
#[derive(Debug, PartialEq, Eq)]
pub enum DynamicValue {
    Null,
    Bool(bool),
    Number(DynamicNumber),
    String(String),
    /// The elements, in order.
    Array(Vec<DynamicValue>),
    /// The fields, each a name and a value, in order.
    Object(Vec<(String, DynamicValue)>),
}

/// The value that a number coerces to: an integer where it has that reading,
/// else a real where it has that one, else nothing.
pub open spec fn number_value(number: DynamicNumber) -> Option<Value> {
    match number.integer {
        Some(i) => Some(Value::Integer(i)),
        None => match number.real {
            Some(r) => Some(Value::Real(r.bits)),
            None => None,
        },
    }
}

/// The value that a dynamic value coerces to by the rule for numbers:
/// nothing, unless it is a number.
pub open spec fn numeric_value(value: DynamicValue) -> Option<Value> {
    match value {
        DynamicValue::Number(number) => number_value(number),
        _ => None,
    }
}

/// Whether a dynamic value is a number with an integer reading from 0 to 255.
pub open spec fn is_byte(value: DynamicValue) -> bool {
    &&& value matches DynamicValue::Number(number)
    &&& number.integer matches Some(i)
    &&& 0 <= i <= 255
}

/// The byte that a dynamic value stands for, where `is_byte` holds of it.
pub open spec fn byte_of(value: DynamicValue) -> u8 {
    match value {
        DynamicValue::Number(number) => match number.integer {
            Some(i) => i as u8,
            None => 0,
        },
        _ => 0,
    }
}

/// The bytes that an array coerces to: one for each element, in order, if
/// every element is a byte; nothing otherwise.
pub open spec fn blob_value(elements: Seq<DynamicValue>) -> Option<Seq<u8>> {
    if forall|i: int| 0 <= i < elements.len() ==> is_byte(#[trigger] elements[i]) {
        Some(Seq::new(elements.len(), |i: int| byte_of(elements[i])))
    } else {
        None
    }
}

/// The value that a dynamic value coerces to, or nothing where the domain
/// cannot hold it.
pub open spec fn coerced(value: DynamicValue) -> Option<Value> {
    match value {
        DynamicValue::Null => Some(Value::Null),
        DynamicValue::Bool(b) => Some(Value::Integer(if b { 1i64 } else { 0i64 })),
        DynamicValue::Number(number) => number_value(number),
        DynamicValue::String(s) => Some(Value::Text(s@)),
        DynamicValue::Array(elements) => match blob_value(elements@) {
            Some(bytes) => Some(Value::Blob(bytes)),
            None => None,
        },
        DynamicValue::Object(_) => None,
    }
}

/// Coerces a number: to an integer where it has that reading, else to a real.
/// Gives `None` for a number with neither reading and for anything that is
/// not a number.
pub fn val_to_basic_num(val: &DynamicValue) -> (basic: Option<BasicType>)
    ensures
        match basic {
            Some(b) => numeric_value(*val) == Some(b@),
            None => numeric_value(*val) is None,
        },
{
    if let DynamicValue::Number(num) = val {
        if let Some(n) = num.integer {
            return Some(BasicType::Integer(n));
        }
        if let Some(r) = num.real {
            return Some(BasicType::Real(r));
        }
        return None;
    }
    None
}

/// Coerces an array of small integers to the bytes of a blob.
/// Gives `None` as soon as an element is not an integer from 0 to 255.
pub fn val_to_blob(arr: &Vec<DynamicValue>) -> (blob: Option<Vec<u8>>)
    ensures
        match blob {
            Some(bytes) => blob_value(arr@) == Some(bytes@),
            None => blob_value(arr@) is None,
        },
{
    let mut blob: Vec<u8> = Vec::new();
    let mut i: usize = 0;
    while i < arr.len()
        invariant
            i <= arr.len(),
            blob@.len() == i,
            forall|k: int| 0 <= k < i ==> is_byte(#[trigger] arr@[k]),
            forall|k: int| 0 <= k < i ==> blob@[k] == byte_of(arr@[k]),
        decreases arr.len() - i,
    {
        match val_to_basic_num(&arr[i]) {
            Some(BasicType::Integer(n)) => {
                if 0 <= n && n <= 255 {
                    blob.push(n as u8);
                } else {
                    assert(!is_byte(arr@[i as int]));
                    return None;
                }
            },
            _ => {
                assert(!is_byte(arr@[i as int]));
                return None;
            },
        }
        i += 1;
    }
    assert(blob@ =~= Seq::new(arr@.len(), |k: int| byte_of(arr@[k])));
    Some(blob)
}

/// Coerces a dynamic value into the value domain.
///
/// Null becomes `Null`, a boolean the integer 0 or 1, a number an integer or
/// a real, a string a text, an array of integers from 0 to 255 a blob.
/// Any other array and every object give `None`.
pub fn val_to_basic_type(val: &DynamicValue) -> (basic: Option<BasicType>)
    ensures
        match basic {
            Some(b) => coerced(*val) == Some(b@),
            None => coerced(*val) is None,
        },
{
    match val {
        DynamicValue::Null => Some(BasicType::Null),
        DynamicValue::Bool(b) => Some(BasicType::Integer(if *b { 1 } else { 0 })),
        DynamicValue::Number(_) => val_to_basic_num(val),
        DynamicValue::String(s) => Some(BasicType::Text(s.clone())),
        DynamicValue::Array(a) => match val_to_blob(a) {
            Some(bytes) => Some(BasicType::Blob(bytes)),
            None => None,
        },
        DynamicValue::Object(_) => None,
    }
}

/// An array coerces to a blob exactly when every element is an integer from
/// 0 to 255. So an array that holds, at any place, a number outside that
/// range coerces to nothing: no blob is made of a part of it.
pub proof fn lemma_out_of_range_array_fails(array: Vec<DynamicValue>, at: int)
    requires
        0 <= at < array@.len(),
        array@[at] matches DynamicValue::Number(number) && number.integer matches Some(i) && (i < 0
            || i > 255),
    ensures
        blob_value(array@) is None,
        coerced(DynamicValue::Array(array)) is None,
{
    assert(!is_byte(array@[at]));
}

/// An array of which some element is not a byte coerces to nothing, and an
/// array of bytes coerces to the blob of those bytes.
pub proof fn lemma_array_coerces_iff_bytes(array: Vec<DynamicValue>)
    ensures
        coerced(DynamicValue::Array(array)) is Some <==> forall|i: int|
            0 <= i < array@.len() ==> is_byte(#[trigger] array@[i]),
        coerced(DynamicValue::Array(array)) matches Some(value) ==> value matches Value::Blob(
            bytes,
        ) && bytes.len() == array@.len(),
{
}

} // verus!
