//! The value domain: every value that crosses the store boundary.

use vstd::prelude::*;

verus! {

/// A 64-bit real number, carried by its IEEE 754 binary64 bit pattern.
///
/// Every pattern is a value of the domain, so the type has no invariant.
#[derive(Clone, Copy, Debug, PartialEq, Eq, Structural)]
pub struct RealBits {
    pub bits: u64,
}

/// A value of the domain, as the store takes it.
#[derive(Debug, PartialEq, Eq)]
pub enum BasicType {
    /// The absent value.
    Null,
    /// A 64-bit signed integer.
    Integer(i64),
    /// A 64-bit real.
    Real(RealBits),
    /// A UTF-8 string.
    Text(String),
    /// A byte sequence.
    Blob(Vec<u8>),
}

/// The mathematical value that a `BasicType` stands for.
pub enum Value {
    Null,
    Integer(i64),
    Real(u64),
    Text(Seq<char>),
    Blob(Seq<u8>),
}

impl View for BasicType {
    type V = Value;

    open spec fn view(&self) -> Value {
        match self {
            BasicType::Null => Value::Null,
            BasicType::Integer(i) => Value::Integer(*i),
            BasicType::Real(r) => Value::Real(r.bits),
            BasicType::Text(s) => Value::Text(s@),
            BasicType::Blob(b) => Value::Blob(b@),
        }
    }
}

/// The mathematical values of a sequence of `BasicType`s.
pub open spec fn views(values: Seq<BasicType>) -> Seq<Value> {
    values.map_values(|v: BasicType| v@)
}

impl Value {
    /// The integer that this value holds, if it is one.
    pub open spec fn integer(self) -> Option<i64> {
        match self {
            Value::Integer(i) => Some(i),
            _ => None,
        }
    }

    /// The bit pattern of the real that this value holds, if it is one.
    pub open spec fn real_bits(self) -> Option<u64> {
        match self {
            Value::Real(bits) => Some(bits),
            _ => None,
        }
    }

    /// The characters of the text that this value holds, if it is one.
    pub open spec fn text(self) -> Option<Seq<char>> {
        match self {
            Value::Text(s) => Some(s),
            _ => None,
        }
    }

    /// The bytes of the blob that this value holds, if it is one.
    pub open spec fn blob(self) -> Option<Seq<u8>> {
        match self {
            Value::Blob(b) => Some(b),
            _ => None,
        }
    }
}

impl Clone for BasicType {
    fn clone(&self) -> (copy: Self)
        ensures
            copy@ == self@,
    {
        match self {
            BasicType::Null => BasicType::Null,
            BasicType::Integer(i) => BasicType::Integer(*i),
            BasicType::Real(r) => BasicType::Real(*r),
            BasicType::Text(s) => BasicType::Text(s.clone()),
            BasicType::Blob(b) => BasicType::Blob(b.clone()),
        }
    }
}

impl BasicType {
    /// Whether this is the absent value.
    pub fn is_null(&self) -> (null: bool)
        ensures
            null == (self@ == Value::Null),
    {
        match self {
            BasicType::Null => true,
            _ => false,
        }
    }

    /// The integer held, or `None` for any other tag.
    pub fn as_integer(&self) -> (held: Option<i64>)
        ensures
            held == self@.integer(),
    {
        match self {
            BasicType::Integer(i) => Some(*i),
            _ => None,
        }
    }

    /// The real held, or `None` for any other tag.
    pub fn as_real(&self) -> (held: Option<RealBits>)
        ensures
            match held {
                Some(r) => self@.real_bits() == Some(r.bits),
                None => self@.real_bits() is None,
            },
    {
        match self {
            BasicType::Real(r) => Some(*r),
            _ => None,
        }
    }

    /// The text held, or `None` for any other tag.
    pub fn as_text(&self) -> (held: Option<&str>)
        ensures
            match held {
                Some(s) => self@.text() == Some(s@),
                None => self@.text() is None,
            },
    {
        match self {
            BasicType::Text(s) => Some(s.as_str()),
            _ => None,
        }
    }

    /// The bytes held, or `None` for any other tag.
    pub fn as_blob(&self) -> (held: Option<&[u8]>)
        ensures
            match held {
                Some(b) => self@.blob() == Some(b@),
                None => self@.blob() is None,
            },
    {
        match self {
            BasicType::Blob(b) => Some(b.as_slice()),
            _ => None,
        }
    }
}

impl From<i64> for BasicType {
    fn from(value: i64) -> (basic: Self)
        ensures
            basic@ == Value::Integer(value),
    {
        BasicType::Integer(value)
    }
}

impl vstd::std_specs::convert::FromSpecImpl<i64> for BasicType {
    open spec fn obeys_from_spec() -> bool {
        true
    }

    open spec fn from_spec(v: i64) -> Self {
        BasicType::Integer(v)
    }
}

impl From<i32> for BasicType {
    fn from(value: i32) -> (basic: Self)
        ensures
            basic@ == Value::Integer(value as i64),
    {
        BasicType::Integer(value as i64)
    }
}

impl vstd::std_specs::convert::FromSpecImpl<i32> for BasicType {
    open spec fn obeys_from_spec() -> bool {
        true
    }

    open spec fn from_spec(v: i32) -> Self {
        BasicType::Integer(v as i64)
    }
}

impl From<u32> for BasicType {
    fn from(value: u32) -> (basic: Self)
        ensures
            basic@ == Value::Integer(value as i64),
    {
        BasicType::Integer(value as i64)
    }
}

impl vstd::std_specs::convert::FromSpecImpl<u32> for BasicType {
    open spec fn obeys_from_spec() -> bool {
        true
    }

    open spec fn from_spec(v: u32) -> Self {
        BasicType::Integer(v as i64)
    }
}

impl From<i16> for BasicType {
    fn from(value: i16) -> (basic: Self)
        ensures
            basic@ == Value::Integer(value as i64),
    {
        BasicType::Integer(value as i64)
    }
}

impl vstd::std_specs::convert::FromSpecImpl<i16> for BasicType {
    open spec fn obeys_from_spec() -> bool {
        true
    }

    open spec fn from_spec(v: i16) -> Self {
        BasicType::Integer(v as i64)
    }
}

impl From<u16> for BasicType {
    fn from(value: u16) -> (basic: Self)
        ensures
            basic@ == Value::Integer(value as i64),
    {
        BasicType::Integer(value as i64)
    }
}

impl vstd::std_specs::convert::FromSpecImpl<u16> for BasicType {
    open spec fn obeys_from_spec() -> bool {
        true
    }

    open spec fn from_spec(v: u16) -> Self {
        BasicType::Integer(v as i64)
    }
}

impl From<i8> for BasicType {
    fn from(value: i8) -> (basic: Self)
        ensures
            basic@ == Value::Integer(value as i64),
    {
        BasicType::Integer(value as i64)
    }
}

impl vstd::std_specs::convert::FromSpecImpl<i8> for BasicType {
    open spec fn obeys_from_spec() -> bool {
        true
    }

    open spec fn from_spec(v: i8) -> Self {
        BasicType::Integer(v as i64)
    }
}

impl From<u8> for BasicType {
    fn from(value: u8) -> (basic: Self)
        ensures
            basic@ == Value::Integer(value as i64),
    {
        BasicType::Integer(value as i64)
    }
}

impl vstd::std_specs::convert::FromSpecImpl<u8> for BasicType {
    open spec fn obeys_from_spec() -> bool {
        true
    }

    open spec fn from_spec(v: u8) -> Self {
        BasicType::Integer(v as i64)
    }
}

impl From<RealBits> for BasicType {
    fn from(value: RealBits) -> (basic: Self)
        ensures
            basic@ == Value::Real(value.bits),
    {
        BasicType::Real(value)
    }
}

impl vstd::std_specs::convert::FromSpecImpl<RealBits> for BasicType {
    open spec fn obeys_from_spec() -> bool {
        true
    }

    open spec fn from_spec(v: RealBits) -> Self {
        BasicType::Real(v)
    }
}

impl From<String> for BasicType {
    fn from(value: String) -> (basic: Self)
        ensures
            basic@ == Value::Text(value@),
    {
        BasicType::Text(value)
    }
}

impl vstd::std_specs::convert::FromSpecImpl<String> for BasicType {
    open spec fn obeys_from_spec() -> bool {
        true
    }

    open spec fn from_spec(v: String) -> Self {
        BasicType::Text(v)
    }
}

impl From<&str> for BasicType {
    fn from(value: &str) -> (basic: Self)
        ensures
            basic@ == Value::Text(value@),
    {
        BasicType::Text(value.to_owned())
    }
}

impl vstd::std_specs::convert::FromSpecImpl<&str> for BasicType {
    open spec fn obeys_from_spec() -> bool {
        false
    }

    open spec fn from_spec(v: &str) -> Self {
        BasicType::Null
    }
}

impl From<Vec<u8>> for BasicType {
    fn from(value: Vec<u8>) -> (basic: Self)
        ensures
            basic@ == Value::Blob(value@),
    {
        BasicType::Blob(value)
    }
}

impl vstd::std_specs::convert::FromSpecImpl<Vec<u8>> for BasicType {
    open spec fn obeys_from_spec() -> bool {
        true
    }

    open spec fn from_spec(v: Vec<u8>) -> Self {
        BasicType::Blob(v)
    }
}

impl From<&[u8]> for BasicType {
    fn from(value: &[u8]) -> (basic: Self)
        ensures
            basic@ == Value::Blob(value@),
    {
        BasicType::Blob(vstd::slice::slice_to_vec(value))
    }
}

impl vstd::std_specs::convert::FromSpecImpl<&[u8]> for BasicType {
    open spec fn obeys_from_spec() -> bool {
        false
    }

    open spec fn from_spec(v: &[u8]) -> Self {
        BasicType::Null
    }
}

impl<T: Into<BasicType>> From<Option<T>> for BasicType {
    fn from(value: Option<T>) -> (basic: Self)
        ensures
            value is None ==> basic@ == Value::Null,
            value matches Some(inner) ==> call_ensures(T::into, (inner,), basic),
    {
        match value {
            Some(v) => v.into(),
            None => BasicType::Null,
        }
    }
}

impl<T: Into<BasicType>> vstd::std_specs::convert::FromSpecImpl<Option<T>> for BasicType {
    open spec fn obeys_from_spec() -> bool {
        <T as vstd::std_specs::convert::IntoSpec<BasicType>>::obeys_into_spec()
    }

    open spec fn from_spec(v: Option<T>) -> Self {
        match v {
            Some(inner) => <T as vstd::std_specs::convert::IntoSpec<BasicType>>::into_spec(inner),
            None => BasicType::Null,
        }
    }
}

/// Every integer type goes into the domain as the integer of the same
/// number, and comes back out of it as that number.
pub proof fn lemma_integer_round_trip(a: i64, b: i32, c: u32, d: i16, e: u16, f: i8, g: u8)
    ensures
        <BasicType as vstd::std_specs::convert::FromSpec<i64>>::from_spec(a)@.integer() == Some(a),
        <BasicType as vstd::std_specs::convert::FromSpec<i32>>::from_spec(b)@.integer() == Some(
            b as i64,
        ),
        <BasicType as vstd::std_specs::convert::FromSpec<u32>>::from_spec(c)@.integer() == Some(
            c as i64,
        ),
        <BasicType as vstd::std_specs::convert::FromSpec<i16>>::from_spec(d)@.integer() == Some(
            d as i64,
        ),
        <BasicType as vstd::std_specs::convert::FromSpec<u16>>::from_spec(e)@.integer() == Some(
            e as i64,
        ),
        <BasicType as vstd::std_specs::convert::FromSpec<i8>>::from_spec(f)@.integer() == Some(
            f as i64,
        ),
        <BasicType as vstd::std_specs::convert::FromSpec<u8>>::from_spec(g)@.integer() == Some(
            g as i64,
        ),
        b as i64 == b as int,
        c as i64 == c as int,
        d as i64 == d as int,
        e as i64 == e as int,
        f as i64 == f as int,
        g as i64 == g as int,
{
}

/// A real goes into the domain and comes back out with the same bits.
pub proof fn lemma_real_round_trip(r: RealBits)
    ensures
        <BasicType as vstd::std_specs::convert::FromSpec<RealBits>>::from_spec(r)@.real_bits()
            == Some(r.bits),
{
}

/// A string goes into the domain and comes back out with the same
/// characters.
pub proof fn lemma_text_round_trip(s: String)
    ensures
        <BasicType as vstd::std_specs::convert::FromSpec<String>>::from_spec(s)@.text() == Some(
            s@,
        ),
{
}

/// A byte vector goes into the domain and comes back out with the same
/// bytes.
pub proof fn lemma_blob_round_trip(b: Vec<u8>)
    ensures
        <BasicType as vstd::std_specs::convert::FromSpec<Vec<u8>>>::from_spec(b)@.blob() == Some(
            b@,
        ),
{
}

/// An optional value goes into the domain as the value inside it, and as
/// `Null` where there is none; `Null` comes back out as no value of any
/// kind.
pub proof fn lemma_optional_round_trip<T: Into<BasicType>>(inner: T)
    ensures
        <BasicType as vstd::std_specs::convert::FromSpec<Option<T>>>::from_spec(None::<T>)@
            == Value::Null,
        <BasicType as vstd::std_specs::convert::FromSpec<Option<T>>>::from_spec(Some(inner))
            == <T as vstd::std_specs::convert::IntoSpec<BasicType>>::into_spec(inner),
        Value::Null.integer() is None,
        Value::Null.real_bits() is None,
        Value::Null.text() is None,
        Value::Null.blob() is None,
{
}

} // verus!
