//! The data model that the serializer walks, and the exact description of
//! what walking a value emits.
//!
//! [`Value`] is a tagged union of the shapes a caller's data can take:
//! scalars, strings, byte strings, optionals, unit-like shapes, transparent
//! newtype wrappers, sequence-like shapes, maps, and records with named
//! fields. A floating-point value enters the model as its already-rendered
//! decimal text, since the verified core holds no floats; the text is
//! written to the output unchanged, exactly as the scalar's canonical form
//! would be.
//!
//! [`ser_value`] gives the full meaning of one serialization pass: from a
//! value and a serializer state (output so far, current key, whether a
//! separator is owed) it computes either the state after the value, or the
//! state at the first failure together with the failure's message.

use vstd::prelude::*;
use crate::encode::form_encode;
use crate::text::bool_rep;
use crate::text::dec_rep;
use crate::text::int_rep;
use vstd::utf8::encode_utf8;

verus! {

/// One shape of the data model.
pub enum Value {
    /// A boolean scalar.
    Bool(bool),
    /// An 8-bit signed integer scalar.
    I8(i8),
    /// A 16-bit signed integer scalar.
    I16(i16),
    /// A 32-bit signed integer scalar.
    I32(i32),
    /// A 64-bit signed integer scalar.
    I64(i64),
    /// An 8-bit unsigned integer scalar.
    U8(u8),
    /// A 16-bit unsigned integer scalar.
    U16(u16),
    /// A 32-bit unsigned integer scalar.
    U32(u32),
    /// A 64-bit unsigned integer scalar.
    U64(u64),
    /// A floating-point scalar, carried as its rendered decimal text.
    Float(String),
    /// A single character.
    Char(char),
    /// A string; its value is percent-encoded on output.
    Str(String),
    /// A byte string; each byte is written as an integer under the same key.
    Bytes(Vec<u8>),
    /// An optional value: absent emits nothing, present recurses.
    Opt(Option<Box<Value>>),
    /// The unit value; emits nothing.
    Unit,
    /// A struct with no fields; emits nothing.
    UnitStruct,
    /// A dataless enum variant; writes the variant's name as a string.
    UnitVariant(String),
    /// A newtype struct: transparently unwraps to its inner value.
    NewtypeStruct(Box<Value>),
    /// A newtype enum variant: transparently unwraps to its inner value.
    NewtypeVariant(Box<Value>),
    /// A sequence; every element is written under the current key.
    Sequence(Vec<Value>),
    /// A tuple; every element is written under the current key.
    Tuple(Vec<Value>),
    /// A tuple struct; every element is written under the current key.
    TupleStruct(Vec<Value>),
    /// A tuple enum variant; every element is written under the current key.
    TupleVariant(Vec<Value>),
    /// A map; each key must reduce to a string and becomes the current key
    /// for the paired value.
    Mapping(Vec<(Value, Value)>),
    /// A struct with named fields; each field's name becomes the current
    /// key for the field's value.
    Struct(Vec<(String, Value)>),
    /// A struct-like enum variant; behaves exactly like a struct, the
    /// variant's own name contributing no key.
    StructVariant(Vec<(String, Value)>),
}

/// The serializer's state, as the contracts see it: the characters written
/// so far, the field name the next scalar will be written under, and
/// whether the very first pair of the pass is still to come.
#[verifier::ext_equal]
pub struct SerState {
    /// The output written so far.
    pub out: Seq<char>,
    /// The active field name, if a record scope or a map key set one.
    pub key: Option<Seq<char>>,
    /// True until the first `key=value` pair of the pass is written.
    pub first: bool,
}

/// The state a serialization pass starts from: empty output, no key, the
/// first pair still to come.
pub open spec fn init_state() -> SerState {
    SerState { out: seq![], key: None, first: true }
}

/// What one serialization step yields: the state after it, or the state at
/// the first failure together with the message of the `Unsupported` error.
#[verifier::ext_equal]
pub enum SerOutcome {
    /// The step succeeded, leaving this state.
    Done(SerState),
    /// The step failed with an `Unsupported` error carrying the message,
    /// leaving this state behind.
    Fail(SerState, Seq<char>),
}

/// The message of the error for a scalar with no key above it.
pub open spec fn top_level_msg() -> Seq<char> {
    "cannot serialize top level value"@
}

/// The characters one `key=value` pair adds to the output: the separator
/// `&` when a pair was already written, the current key, `=`, and the
/// rendered value.
pub open spec fn pair_rep(st: SerState, rendered: Seq<char>) -> Seq<char>
    recommends
        st.key is Some,
{
    (if st.first { seq![] } else { seq!['&'] }) + st.key->0 + seq!['='] + rendered
}

/// The state after writing one `key=value` pair.
pub open spec fn after_pair(st: SerState, rendered: Seq<char>) -> SerState
    recommends
        st.key is Some,
{
    SerState { out: st.out + pair_rep(st, rendered), key: st.key, first: false }
}

/// What writing one scalar does: a `key=value` pair when a key is active,
/// the top-level failure otherwise.
pub open spec fn ser_scalar(st: SerState, rendered: Seq<char>) -> SerOutcome {
    if st.key is Some {
        SerOutcome::Done(after_pair(st, rendered))
    } else {
        SerOutcome::Fail(st, top_level_msg())
    }
}

/// The string a map key reduces to, or the message of the `Unsupported`
/// error when its shape is not a string or a character.
pub open spec fn string_key(k: Value) -> Result<Seq<char>, Seq<char>> {
    match k {
        Value::Str(s) => Ok(s@),
        Value::Char(c) => Ok(seq![c]),
        Value::Bool(_) => Err("bool"@),
        Value::I8(_) => Err("i8"@),
        Value::I16(_) => Err("i16"@),
        Value::I32(_) => Err("i32"@),
        Value::I64(_) => Err("i64"@),
        Value::U8(_) => Err("u8"@),
        Value::U16(_) => Err("u16"@),
        Value::U32(_) => Err("u32"@),
        Value::U64(_) => Err("u64"@),
        Value::Float(_) => Err("f64"@),
        Value::Bytes(_) => Err("bytes"@),
        Value::Opt(o) => if o is Some { Err("some"@) } else { Err("none"@) },
        Value::Unit => Err("unit"@),
        Value::UnitStruct => Err("unit struct"@),
        Value::UnitVariant(_) => Err("unit variant"@),
        Value::NewtypeStruct(_) => Err("newtype struct"@),
        Value::NewtypeVariant(_) => Err("newtype variant"@),
        Value::Sequence(_) => Err("seq"@),
        Value::Tuple(_) => Err("tuple"@),
        Value::TupleStruct(_) => Err("tuple struct"@),
        Value::TupleVariant(_) => Err("tuple variant"@),
        Value::Mapping(_) => Err("map"@),
        Value::Struct(_) => Err("struct"@),
        Value::StructVariant(_) => Err("struct variant"@),
    }
}

/// What serializing a byte string does: each byte is written as an integer
/// under the same key, so an empty byte string emits nothing and succeeds
/// even at the top level.
pub open spec fn ser_bytes(bs: Seq<u8>, st: SerState) -> SerOutcome
    decreases bs.len(),
{
    if bs.len() == 0 {
        SerOutcome::Done(st)
    } else {
        match ser_scalar(st, dec_rep(bs[0] as nat)) {
            SerOutcome::Done(st1) => ser_bytes(bs.drop_first(), st1),
            SerOutcome::Fail(stf, msg) => SerOutcome::Fail(stf, msg),
        }
    }
}

/// What serializing one value into a serializer state does.
pub open spec fn ser_value(v: Value, st: SerState) -> SerOutcome
    decreases v,
{
    match v {
        Value::Bool(b) => ser_scalar(st, bool_rep(b)),
        Value::I8(n) => ser_scalar(st, int_rep(n as int)),
        Value::I16(n) => ser_scalar(st, int_rep(n as int)),
        Value::I32(n) => ser_scalar(st, int_rep(n as int)),
        Value::I64(n) => ser_scalar(st, int_rep(n as int)),
        Value::U8(n) => ser_scalar(st, dec_rep(n as nat)),
        Value::U16(n) => ser_scalar(st, dec_rep(n as nat)),
        Value::U32(n) => ser_scalar(st, dec_rep(n as nat)),
        Value::U64(n) => ser_scalar(st, dec_rep(n as nat)),
        Value::Float(text) => ser_scalar(st, text@),
        Value::Char(c) => ser_scalar(st, seq![c]),
        Value::Str(s) => ser_scalar(st, form_encode(encode_utf8(s@))),
        Value::Bytes(bs) => ser_bytes(bs@, st),
        Value::Opt(o) => match o {
            Some(inner) => ser_value(*inner, st),
            None => SerOutcome::Done(st),
        },
        Value::Unit => SerOutcome::Done(st),
        Value::UnitStruct => SerOutcome::Done(st),
        Value::UnitVariant(name) => ser_scalar(st, form_encode(encode_utf8(name@))),
        Value::NewtypeStruct(inner) => ser_value(*inner, st),
        Value::NewtypeVariant(inner) => ser_value(*inner, st),
        Value::Sequence(elems) => ser_elems(elems@, st),
        Value::Tuple(elems) => ser_elems(elems@, st),
        Value::TupleStruct(elems) => ser_elems(elems@, st),
        Value::TupleVariant(elems) => ser_elems(elems@, st),
        Value::Mapping(pairs) => ser_pairs(pairs@, st),
        Value::Struct(fields) => {
            if st.key is Some {
                SerOutcome::Fail(st, "nested struct"@)
            } else {
                ser_fields(fields@, st)
            }
        },
        Value::StructVariant(fields) => {
            if st.key is Some {
                SerOutcome::Fail(st, "nested struct variant"@)
            } else {
                ser_fields(fields@, st)
            }
        },
    }
}

/// What serializing the elements of a sequence-like shape does: each
/// element in order, under the unchanged current key, stopping at the
/// first failure.
pub open spec fn ser_elems(elems: Seq<Value>, st: SerState) -> SerOutcome
    decreases elems,
{
    if elems.len() == 0 {
        SerOutcome::Done(st)
    } else {
        match ser_value(elems[0], st) {
            SerOutcome::Done(st1) => ser_elems(elems.drop_first(), st1),
            SerOutcome::Fail(stf, msg) => SerOutcome::Fail(stf, msg),
        }
    }
}

/// What serializing the pairs of a map does: each key reduces to a string
/// and becomes the current key for the paired value; the last key stays in
/// place when the map ends.
pub open spec fn ser_pairs(pairs: Seq<(Value, Value)>, st: SerState) -> SerOutcome
    decreases pairs,
{
    if pairs.len() == 0 {
        SerOutcome::Done(st)
    } else {
        match string_key(pairs[0].0) {
            Ok(k) => match ser_value(
                pairs[0].1,
                SerState { out: st.out, key: Some(k), first: st.first },
            ) {
                SerOutcome::Done(st1) => ser_pairs(pairs.drop_first(), st1),
                SerOutcome::Fail(stf, msg) => SerOutcome::Fail(stf, msg),
            },
            Err(msg) => SerOutcome::Fail(st, msg),
        }
    }
}

/// What serializing the fields of a struct or struct variant does: each
/// field's name becomes the current key for the field's value, and the key
/// is cleared when the scope ends.
pub open spec fn ser_fields(fields: Seq<(String, Value)>, st: SerState) -> SerOutcome
    decreases fields,
{
    if fields.len() == 0 {
        SerOutcome::Done(SerState { out: st.out, key: None, first: st.first })
    } else {
        match ser_value(
            fields[0].1,
            SerState { out: st.out, key: Some(fields[0].0@), first: st.first },
        ) {
            SerOutcome::Done(st1) => ser_fields(fields.drop_first(), st1),
            SerOutcome::Fail(stf, msg) => SerOutcome::Fail(stf, msg),
        }
    }
}

} // verus!
