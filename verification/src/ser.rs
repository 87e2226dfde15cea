//! The serialization visitor: one entry point per data-model shape, a
//! restricted sub-serializer for map keys, and the driver functions that
//! walk a whole [`Value`].

use vstd::prelude::*;
use vstd::string::StrSliceExecFns;
use vstd::string::StringExecFns;
use crate::encode::form_encode;
use crate::encode::form_urlencode;
use crate::error::Error;
use crate::text::bool_rep;
use crate::text::dec_rep;
use crate::text::int_rep;
use crate::text::push_bool;
use crate::text::push_char;
use crate::text::push_dec;
use crate::text::push_int;
use crate::value::SerOutcome;
use crate::value::SerState;
use crate::value::Value;
use crate::value::after_pair;
use crate::value::init_state;
use crate::value::ser_bytes;
use crate::value::ser_elems;
use crate::value::ser_fields;
use crate::value::ser_pairs;
use crate::value::ser_scalar;
use crate::value::ser_value;
use crate::value::string_key;
use vstd::utf8::encode_utf8;

verus! {

/// True when a call's result and the serializer's state after it are the
/// ones a [`SerOutcome`] describes: success leaving the outcome's state, or
/// an `Unsupported` error with the outcome's message.
pub open spec fn reflects(o: SerOutcome, r: Result<(), Error>, post: SerState) -> bool {
    match o {
        SerOutcome::Done(st) => r is Ok && post == st,
        SerOutcome::Fail(st, msg) => post == st && (r matches Err(e) && e matches
            Error::Unsupported(m) && m@ == msg),
    }
}

/// True when a call was rejected with an `Unsupported` error carrying the
/// given message.
pub open spec fn rejects(r: Result<(), Error>, msg: Seq<char>) -> bool {
    r matches Err(e) && e matches Error::Unsupported(m) && m@ == msg
}

/// A structure for serializing values into a URL parameters string.
///
/// It owns the output written so far and two pieces of traversal state: the
/// field name active for the value currently being visited, and whether the
/// separator `&` is still owed before the next pair.
pub struct Serializer {
    out: String,
    current_key: Option<String>,
    first_param: bool,
}

impl View for Serializer {
    type V = SerState;

    closed spec fn view(&self) -> SerState {
        SerState { out: self.out@, key: self.current_key.deep_view(), first: self.first_param }
    }
}

impl Serializer {
    /// Creates a serializer with empty output, ready for one pass.
    pub fn new() -> (r: Serializer)
        ensures
            r@ == init_state(),
    {
        let r = Serializer { out: String::new(), current_key: None, first_param: true };
        proof {
            assert(r@ =~= init_state());
        }
        r
    }

    /// Gives up the serializer and hands out the output it has written.
    pub fn into_string(self) -> (r: String)
        ensures
            r@ == self@.out,
    {
        self.out
    }

    /// Writes one `key=value` pair with the given already-rendered value,
    /// or fails when no key is active.
    fn write_key_value(&mut self, rendered: &str) -> (r: Result<(), Error>)
        ensures
            reflects(ser_scalar(old(self)@, rendered@), r, final(self)@),
    {
        proof {
            reveal_strlit("&");
            reveal_strlit("=");
        }
        match &self.current_key {
            Some(key) => {
                if !self.first_param {
                    self.out.append("&");
                }
                self.out.append(key.as_str());
                self.out.append("=");
                self.out.append(rendered);
                self.first_param = false;
                proof {
                    assert(self@ =~= after_pair(old(self)@, rendered@));
                }
                Ok(())
            },
            None => Err(Error::unsupported("cannot serialize top level value")),
        }
    }

    /// Writes a boolean as `true` or `false` under the current key.
    pub fn serialize_bool(&mut self, value: bool) -> (r: Result<(), Error>)
        ensures
            reflects(ser_scalar(old(self)@, bool_rep(value)), r, final(self)@),
    {
        let mut rendered = String::new();
        push_bool(&mut rendered, value);
        self.write_key_value(rendered.as_str())
    }

    /// Writes a signed integer in decimal under the current key.
    pub fn serialize_i8(&mut self, value: i8) -> (r: Result<(), Error>)
        ensures
            reflects(ser_scalar(old(self)@, int_rep(value as int)), r, final(self)@),
    {
        self.serialize_i64(value as i64)
    }

    /// Writes a signed integer in decimal under the current key.
    pub fn serialize_i16(&mut self, value: i16) -> (r: Result<(), Error>)
        ensures
            reflects(ser_scalar(old(self)@, int_rep(value as int)), r, final(self)@),
    {
        self.serialize_i64(value as i64)
    }

    /// Writes a signed integer in decimal under the current key.
    pub fn serialize_i32(&mut self, value: i32) -> (r: Result<(), Error>)
        ensures
            reflects(ser_scalar(old(self)@, int_rep(value as int)), r, final(self)@),
    {
        self.serialize_i64(value as i64)
    }

    /// Writes a signed integer in decimal under the current key.
    pub fn serialize_i64(&mut self, value: i64) -> (r: Result<(), Error>)
        ensures
            reflects(ser_scalar(old(self)@, int_rep(value as int)), r, final(self)@),
    {
        let mut rendered = String::new();
        push_int(&mut rendered, value);
        self.write_key_value(rendered.as_str())
    }

    /// Writes an unsigned integer in decimal under the current key.
    pub fn serialize_u8(&mut self, value: u8) -> (r: Result<(), Error>)
        ensures
            reflects(ser_scalar(old(self)@, dec_rep(value as nat)), r, final(self)@),
    {
        self.serialize_u64(value as u64)
    }

    /// Writes an unsigned integer in decimal under the current key.
    pub fn serialize_u16(&mut self, value: u16) -> (r: Result<(), Error>)
        ensures
            reflects(ser_scalar(old(self)@, dec_rep(value as nat)), r, final(self)@),
    {
        self.serialize_u64(value as u64)
    }

    /// Writes an unsigned integer in decimal under the current key.
    pub fn serialize_u32(&mut self, value: u32) -> (r: Result<(), Error>)
        ensures
            reflects(ser_scalar(old(self)@, dec_rep(value as nat)), r, final(self)@),
    {
        self.serialize_u64(value as u64)
    }

    /// Writes an unsigned integer in decimal under the current key.
    pub fn serialize_u64(&mut self, value: u64) -> (r: Result<(), Error>)
        ensures
            reflects(ser_scalar(old(self)@, dec_rep(value as nat)), r, final(self)@),
    {
        let mut rendered = String::new();
        push_dec(&mut rendered, value);
        self.write_key_value(rendered.as_str())
    }

    /// Writes a 32-bit floating-point value under the current key. The
    /// verified core holds no floats, so the caller hands in the value's
    /// rendered decimal text, which is written unchanged.
    pub fn serialize_f32(&mut self, rendered: &str) -> (r: Result<(), Error>)
        ensures
            reflects(ser_scalar(old(self)@, rendered@), r, final(self)@),
    {
        self.write_key_value(rendered)
    }

    /// Writes a 64-bit floating-point value under the current key. The
    /// verified core holds no floats, so the caller hands in the value's
    /// rendered decimal text, which is written unchanged.
    pub fn serialize_f64(&mut self, rendered: &str) -> (r: Result<(), Error>)
        ensures
            reflects(ser_scalar(old(self)@, rendered@), r, final(self)@),
    {
        self.write_key_value(rendered)
    }

    /// Writes a character under the current key, as itself.
    pub fn serialize_char(&mut self, value: char) -> (r: Result<(), Error>)
        ensures
            reflects(ser_scalar(old(self)@, seq![value]), r, final(self)@),
    {
        let mut rendered = String::new();
        push_char(&mut rendered, value);
        self.write_key_value(rendered.as_str())
    }

    /// Writes a string under the current key, percent-encoding its bytes.
    pub fn serialize_str(&mut self, value: &str) -> (r: Result<(), Error>)
        ensures
            reflects(ser_scalar(old(self)@, form_encode(encode_utf8(value@))), r, final(self)@),
    {
        let encoded = form_urlencode(value.as_bytes());
        self.write_key_value(encoded.as_str())
    }

    /// Writes a byte string as a sequence of integers, one `key=value` pair
    /// per byte under the same key.
    #[verifier::loop_isolation(false)]
    pub fn serialize_bytes(&mut self, value: &[u8]) -> (r: Result<(), Error>)
        ensures
            reflects(ser_bytes(value@, old(self)@), r, final(self)@),
    {
        let ghost st0 = self@;
        proof {
            assert(value@.skip(0) =~= value@);
        }
        let mut i: usize = 0;
        while i < value.len()
            invariant
                i <= value@.len(),
                ser_bytes(value@, st0) == ser_bytes(value@.skip(i as int), self@),
            decreases value@.len() - i,
        {
            let ghost pre = self@;
            let r = self.serialize_u8(value[i]);
            proof {
                assert(value@.skip(i as int)[0] == value@[i as int]);
                assert(value@.skip(i as int).drop_first() =~= value@.skip(i as int + 1));
            }
            match r {
                Ok(_) => {},
                Err(e) => {
                    proof {
                        assert(ser_bytes(value@.skip(i as int), pre) == ser_scalar(
                            pre,
                            dec_rep(value@[i as int] as nat),
                        ));
                    }
                    return Err(e);
                },
            }
            i = i + 1;
        }
        proof {
            assert(value@.skip(i as int).len() == 0);
        }
        Ok(())
    }

    /// An absent optional emits nothing and succeeds.
    pub fn serialize_none(&mut self) -> (r: Result<(), Error>)
        ensures
            r is Ok,
            final(self)@ == old(self)@,
    {
        Ok(())
    }

    /// A present optional contributes nothing of its own; the caller then
    /// serializes the inner value under the unchanged key.
    pub fn serialize_some(&mut self) -> (r: Result<(), Error>)
        ensures
            r is Ok,
            final(self)@ == old(self)@,
    {
        Ok(())
    }

    /// The unit value emits nothing and succeeds.
    pub fn serialize_unit(&mut self) -> (r: Result<(), Error>)
        ensures
            r is Ok,
            final(self)@ == old(self)@,
    {
        Ok(())
    }

    /// A struct with no fields emits nothing and succeeds.
    pub fn serialize_unit_struct(&mut self, _name: &str) -> (r: Result<(), Error>)
        ensures
            r is Ok,
            final(self)@ == old(self)@,
    {
        Ok(())
    }

    /// A dataless enum variant writes its name as a string value under the
    /// current key.
    pub fn serialize_unit_variant(
        &mut self,
        _name: &str,
        _variant_index: u32,
        variant: &str,
    ) -> (r: Result<(), Error>)
        ensures
            reflects(ser_scalar(old(self)@, form_encode(encode_utf8(variant@))), r, final(self)@),
    {
        self.serialize_str(variant)
    }

    /// A newtype struct contributes nothing of its own; the caller then
    /// serializes the inner value under the unchanged key.
    pub fn serialize_newtype_struct(&mut self, _name: &str) -> (r: Result<(), Error>)
        ensures
            r is Ok,
            final(self)@ == old(self)@,
    {
        Ok(())
    }

    /// A newtype enum variant contributes nothing of its own; the caller
    /// then serializes the inner value under the unchanged key.
    pub fn serialize_newtype_variant(
        &mut self,
        _name: &str,
        _variant_index: u32,
        _variant: &str,
    ) -> (r: Result<(), Error>)
        ensures
            r is Ok,
            final(self)@ == old(self)@,
    {
        Ok(())
    }

    /// Begins a sequence scope; the current key is kept, so every element
    /// repeats it.
    pub fn serialize_seq(&mut self, _len: Option<usize>) -> (r: Result<(), Error>)
        ensures
            r is Ok,
            final(self)@ == old(self)@,
    {
        Ok(())
    }

    /// Begins a tuple scope; the current key is kept, so every element
    /// repeats it.
    pub fn serialize_tuple(&mut self, _len: usize) -> (r: Result<(), Error>)
        ensures
            r is Ok,
            final(self)@ == old(self)@,
    {
        Ok(())
    }

    /// Begins a tuple-struct scope; the current key is kept, so every
    /// element repeats it.
    pub fn serialize_tuple_struct(&mut self, _name: &str, _len: usize) -> (r: Result<(), Error>)
        ensures
            r is Ok,
            final(self)@ == old(self)@,
    {
        Ok(())
    }

    /// Begins a tuple-variant scope; the current key is kept, so every
    /// element repeats it.
    pub fn serialize_tuple_variant(
        &mut self,
        _name: &str,
        _variant_index: u32,
        _variant: &str,
        _len: usize,
    ) -> (r: Result<(), Error>)
        ensures
            r is Ok,
            final(self)@ == old(self)@,
    {
        Ok(())
    }

    /// Begins a map scope; each key must then reduce to a string before its
    /// value is serialized.
    pub fn serialize_map(&mut self, _len: Option<usize>) -> (r: Result<(), Error>)
        ensures
            r is Ok,
            final(self)@ == old(self)@,
    {
        Ok(())
    }

    /// Begins a struct scope, rejected when a key is already active: a flat
    /// parameter list has no way to represent a nested struct.
    pub fn serialize_struct(&mut self, _name: &str, _len: usize) -> (r: Result<(), Error>)
        ensures
            final(self)@ == old(self)@,
            old(self)@.key is Some ==> rejects(r, "nested struct"@),
            old(self)@.key is None ==> r is Ok,
    {
        if self.current_key.is_some() {
            Err(Error::unsupported("nested struct"))
        } else {
            Ok(())
        }
    }

    /// Begins a struct-variant scope, rejected when a key is already
    /// active, exactly as a struct is.
    pub fn serialize_struct_variant(
        &mut self,
        _name: &str,
        _variant_index: u32,
        _variant: &str,
        _len: usize,
    ) -> (r: Result<(), Error>)
        ensures
            final(self)@ == old(self)@,
            old(self)@.key is Some ==> rejects(r, "nested struct variant"@),
            old(self)@.key is None ==> r is Ok,
    {
        if self.current_key.is_some() {
            Err(Error::unsupported("nested struct variant"))
        } else {
            Ok(())
        }
    }

    /// Makes a field's name the current key; the caller then serializes the
    /// field's value under it.
    pub fn serialize_field(&mut self, key: &str)
        ensures
            final(self)@ == (SerState { out: old(self)@.out, key: Some(key@), first: old(self)@.first }),
    {
        self.current_key = Some(key.to_owned());
        proof {
            assert(self@ =~= SerState {
                out: old(self)@.out,
                key: Some(key@),
                first: old(self)@.first,
            });
        }
    }

    /// Makes the string a key sub-serializer produced the current key; the
    /// caller then serializes the paired map value under it.
    pub fn serialize_key(&mut self, key_ser: &StringOnlySerializer)
        ensures
            final(self)@ == (SerState {
                out: old(self)@.out,
                key: Some(key_ser@),
                first: old(self)@.first,
            }),
    {
        self.current_key = Some(key_ser.as_str().to_owned());
        proof {
            assert(self@ =~= SerState {
                out: old(self)@.out,
                key: Some(key_ser@),
                first: old(self)@.first,
            });
        }
    }

    /// Ends a struct or struct-variant scope, clearing the current key.
    pub fn end_struct(&mut self) -> (r: Result<(), Error>)
        ensures
            r is Ok,
            final(self)@ == (SerState { out: old(self)@.out, key: None, first: old(self)@.first }),
    {
        self.current_key = None;
        proof {
            assert(self@ =~= SerState { out: old(self)@.out, key: None, first: old(self)@.first });
        }
        Ok(())
    }
}

impl Serializer {
    /// Serializes one whole value: the executable counterpart of
    /// [`ser_value`], dispatching on the value's shape and walking its
    /// children depth-first.
    pub fn serialize_value(&mut self, v: &Value) -> (r: Result<(), Error>)
        ensures
            reflects(ser_value(*v, old(self)@), r, final(self)@),
        decreases v,
    {
        match v {
            Value::Bool(b) => self.serialize_bool(*b),
            Value::I8(n) => self.serialize_i8(*n),
            Value::I16(n) => self.serialize_i16(*n),
            Value::I32(n) => self.serialize_i32(*n),
            Value::I64(n) => self.serialize_i64(*n),
            Value::U8(n) => self.serialize_u8(*n),
            Value::U16(n) => self.serialize_u16(*n),
            Value::U32(n) => self.serialize_u32(*n),
            Value::U64(n) => self.serialize_u64(*n),
            Value::Float(text) => self.serialize_f64(text.as_str()),
            Value::Char(c) => self.serialize_char(*c),
            Value::Str(s) => self.serialize_str(s.as_str()),
            Value::Bytes(bs) => self.serialize_bytes(bs.as_slice()),
            Value::Opt(o) => match o {
                Some(inner) => match self.serialize_some() {
                    Ok(_) => self.serialize_value(&**inner),
                    Err(e) => Err(e),
                },
                None => self.serialize_none(),
            },
            Value::Unit => self.serialize_unit(),
            Value::UnitStruct => self.serialize_unit_struct(""),
            Value::UnitVariant(name) => self.serialize_unit_variant("", 0, name.as_str()),
            Value::NewtypeStruct(inner) => match self.serialize_newtype_struct("") {
                Ok(_) => self.serialize_value(&**inner),
                Err(e) => Err(e),
            },
            Value::NewtypeVariant(inner) => match self.serialize_newtype_variant("", 0, "") {
                Ok(_) => self.serialize_value(&**inner),
                Err(e) => Err(e),
            },
            Value::Sequence(elems) => match self.serialize_seq(None) {
                Ok(_) => self.serialize_elements(elems),
                Err(e) => Err(e),
            },
            Value::Tuple(elems) => match self.serialize_tuple(elems.len()) {
                Ok(_) => self.serialize_elements(elems),
                Err(e) => Err(e),
            },
            Value::TupleStruct(elems) => match self.serialize_tuple_struct("", elems.len()) {
                Ok(_) => self.serialize_elements(elems),
                Err(e) => Err(e),
            },
            Value::TupleVariant(elems) => match self.serialize_tuple_variant(
                "",
                0,
                "",
                elems.len(),
            ) {
                Ok(_) => self.serialize_elements(elems),
                Err(e) => Err(e),
            },
            Value::Mapping(pairs) => match self.serialize_map(None) {
                Ok(_) => self.serialize_entries(pairs),
                Err(e) => Err(e),
            },
            Value::Struct(fields) => match self.serialize_struct("", fields.len()) {
                Ok(_) => self.serialize_named_fields(fields),
                Err(e) => Err(e),
            },
            Value::StructVariant(fields) => match self.serialize_struct_variant(
                "",
                0,
                "",
                fields.len(),
            ) {
                Ok(_) => self.serialize_named_fields(fields),
                Err(e) => Err(e),
            },
        }
    }

    /// Serializes the elements of a sequence-like shape in order, each under
    /// the unchanged current key, stopping at the first failure.
    #[verifier::loop_isolation(false)]
    fn serialize_elements(&mut self, elems: &Vec<Value>) -> (r: Result<(), Error>)
        ensures
            reflects(ser_elems(elems@, old(self)@), r, final(self)@),
        decreases elems,
    {
        let ghost st0 = self@;
        proof {
            assert(elems@.skip(0) =~= elems@);
        }
        let mut i: usize = 0;
        while i < elems.len()
            invariant
                i <= elems@.len(),
                ser_elems(elems@, st0) == ser_elems(elems@.skip(i as int), self@),
            decreases elems@.len() - i,
        {
            let ghost pre = self@;
            let r = self.serialize_value(&elems[i]);
            proof {
                assert(elems@.skip(i as int)[0] == elems@[i as int]);
                assert(elems@.skip(i as int).drop_first() =~= elems@.skip(i as int + 1));
            }
            match r {
                Ok(_) => {},
                Err(e) => {
                    proof {
                        assert(ser_elems(elems@.skip(i as int), pre) == ser_value(
                            elems@[i as int],
                            pre,
                        ));
                    }
                    return Err(e);
                },
            }
            i = i + 1;
        }
        proof {
            assert(elems@.skip(i as int).len() == 0);
        }
        Ok(())
    }

    /// Serializes the entries of a map in order: each key is reduced to a
    /// string by the restricted sub-serializer and becomes the current key
    /// for the paired value.
    #[verifier::loop_isolation(false)]
    fn serialize_entries(&mut self, pairs: &Vec<(Value, Value)>) -> (r: Result<(), Error>)
        ensures
            reflects(ser_pairs(pairs@, old(self)@), r, final(self)@),
        decreases pairs,
    {
        let ghost st0 = self@;
        proof {
            assert(pairs@.skip(0) =~= pairs@);
        }
        let mut i: usize = 0;
        while i < pairs.len()
            invariant
                i <= pairs@.len(),
                ser_pairs(pairs@, st0) == ser_pairs(pairs@.skip(i as int), self@),
            decreases pairs@.len() - i,
        {
            let ghost pre = self@;
            proof {
                assert(pairs@.skip(i as int)[0] == pairs@[i as int]);
                assert(pairs@.skip(i as int).drop_first() =~= pairs@.skip(i as int + 1));
            }
            let mut key_ser = StringOnlySerializer::new();
            match serialize_string_key(&mut key_ser, &pairs[i].0) {
                Ok(_) => {},
                Err(e) => {
                    return Err(e);
                },
            }
            self.serialize_key(&key_ser);
            let r = self.serialize_value(&pairs[i].1);
            match r {
                Ok(_) => {},
                Err(e) => {
                    return Err(e);
                },
            }
            i = i + 1;
        }
        proof {
            assert(pairs@.skip(i as int).len() == 0);
        }
        Ok(())
    }

    /// Serializes the fields of a struct or struct variant in declaration
    /// order, each field's name becoming the current key for its value, and
    /// clears the key when the scope ends.
    #[verifier::loop_isolation(false)]
    fn serialize_named_fields(&mut self, fields: &Vec<(String, Value)>) -> (r: Result<(), Error>)
        ensures
            reflects(ser_fields(fields@, old(self)@), r, final(self)@),
        decreases fields,
    {
        let ghost st0 = self@;
        proof {
            assert(fields@.skip(0) =~= fields@);
        }
        let mut i: usize = 0;
        while i < fields.len()
            invariant
                i <= fields@.len(),
                ser_fields(fields@, st0) == ser_fields(fields@.skip(i as int), self@),
            decreases fields@.len() - i,
        {
            let ghost pre = self@;
            proof {
                assert(fields@.skip(i as int)[0] == fields@[i as int]);
                assert(fields@.skip(i as int).drop_first() =~= fields@.skip(i as int + 1));
            }
            self.serialize_field(fields[i].0.as_str());
            let r = self.serialize_value(&fields[i].1);
            match r {
                Ok(_) => {},
                Err(e) => {
                    return Err(e);
                },
            }
            i = i + 1;
        }
        proof {
            assert(fields@.skip(i as int).len() == 0);
        }
        self.end_struct()
    }
}

/// Coerces a map key to a string by driving it through the restricted
/// sub-serializer, exactly as a map scope does for each of its keys: only
/// the string and character shapes succeed.
pub fn serialize_string_key(key_ser: &mut StringOnlySerializer, key: &Value) -> (r: Result<
    (),
    Error,
>)
    ensures
        match string_key(*key) {
            Ok(k) => r is Ok && final(key_ser)@ == k,
            Err(msg) => rejects(r, msg) && final(key_ser)@ == old(key_ser)@,
        },
{
    match key {
        Value::Bool(b) => key_ser.serialize_bool(*b),
        Value::I8(n) => key_ser.serialize_i8(*n),
        Value::I16(n) => key_ser.serialize_i16(*n),
        Value::I32(n) => key_ser.serialize_i32(*n),
        Value::I64(n) => key_ser.serialize_i64(*n),
        Value::U8(n) => key_ser.serialize_u8(*n),
        Value::U16(n) => key_ser.serialize_u16(*n),
        Value::U32(n) => key_ser.serialize_u32(*n),
        Value::U64(n) => key_ser.serialize_u64(*n),
        Value::Float(_) => key_ser.serialize_f64(),
        Value::Char(c) => key_ser.serialize_char(*c),
        Value::Str(s) => key_ser.serialize_str(s.as_str()),
        Value::Bytes(bs) => key_ser.serialize_bytes(bs.as_slice()),
        Value::Opt(o) => match o {
            Some(_) => key_ser.serialize_some(),
            None => key_ser.serialize_none(),
        },
        Value::Unit => key_ser.serialize_unit(),
        Value::UnitStruct => key_ser.serialize_unit_struct(""),
        Value::UnitVariant(_) => key_ser.serialize_unit_variant("", 0, ""),
        Value::NewtypeStruct(_) => key_ser.serialize_newtype_struct(""),
        Value::NewtypeVariant(_) => key_ser.serialize_newtype_variant("", 0, ""),
        Value::Sequence(_) => key_ser.serialize_seq(None),
        Value::Tuple(elems) => key_ser.serialize_tuple(elems.len()),
        Value::TupleStruct(elems) => key_ser.serialize_tuple_struct("", elems.len()),
        Value::TupleVariant(elems) => key_ser.serialize_tuple_variant("", 0, "", elems.len()),
        Value::Mapping(_) => key_ser.serialize_map(None),
        Value::Struct(fields) => key_ser.serialize_struct("", fields.len()),
        Value::StructVariant(fields) => key_ser.serialize_struct_variant("", 0, "", fields.len()),
    }
}

/// Serialize the given value as a String of URL parameters.
///
/// # Errors
///
/// Serialization fails if:
///
/// * the value is a bare scalar without a key, i.e. not inside a struct,
/// * the value contains a nested struct,
/// * the value contains a map whose keys are not strings or characters.
pub fn to_string(value: &Value) -> (r: Result<String, Error>)
    ensures
        match ser_value(*value, init_state()) {
            SerOutcome::Done(st) => r matches Ok(s) && s@ == st.out,
            SerOutcome::Fail(_, msg) => r matches Err(e) && e matches Error::Unsupported(m)
                && m@ == msg,
        },
{
    let mut ser = Serializer::new();
    match ser.serialize_value(value) {
        Ok(_) => Ok(ser.into_string()),
        Err(e) => Err(e),
    }
}

/// Serialize the given value as a byte vector containing URL parameters.
///
/// # Errors
///
/// Serialization fails if:
///
/// * the value is a bare scalar without a key, i.e. not inside a struct,
/// * the value contains a nested struct,
/// * the value contains a map whose keys are not strings or characters.
pub fn to_vec(value: &Value) -> (r: Result<Vec<u8>, Error>)
    ensures
        match ser_value(*value, init_state()) {
            SerOutcome::Done(st) => r matches Ok(v) && v@ == encode_utf8(st.out),
            SerOutcome::Fail(_, msg) => r matches Err(e) && e matches Error::Unsupported(m)
                && m@ == msg,
        },
{
    match to_string(value) {
        Ok(s) => Ok(s.as_str().as_bytes_vec()),
        Err(e) => Err(e),
    }
}

/// Serialize the given value as URL parameters appended to the byte sink.
///
/// On failure the sink keeps the bytes that were written before the first
/// error; that partial output must not be treated as valid.
///
/// # Errors
///
/// Serialization fails if:
///
/// * the value is a bare scalar without a key, i.e. not inside a struct,
/// * the value contains a nested struct,
/// * the value contains a map whose keys are not strings or characters.
pub fn to_writer(writer: &mut Vec<u8>, value: &Value) -> (r: Result<(), Error>)
    ensures
        match ser_value(*value, init_state()) {
            SerOutcome::Done(st) => r is Ok && final(writer)@ == old(writer)@ + encode_utf8(
                st.out,
            ),
            SerOutcome::Fail(st, msg) => rejects(r, msg) && final(writer)@ == old(writer)@
                + encode_utf8(st.out),
        },
{
    let mut ser = Serializer::new();
    let r = ser.serialize_value(value);
    let s = ser.into_string();
    let bytes = s.as_str().as_bytes_vec();
    writer.extend_from_slice(bytes.as_slice());
    r
}

/// The restricted sub-serializer that coerces a map key to a string: it
/// accepts exactly the string and character shapes and fails for every
/// other shape of the data model.
pub struct StringOnlySerializer {
    value: String,
}

impl View for StringOnlySerializer {
    type V = Seq<char>;

    closed spec fn view(&self) -> Seq<char> {
        self.value@
    }
}

impl StringOnlySerializer {
    /// Creates a key sub-serializer holding the empty string.
    pub fn new() -> (r: StringOnlySerializer)
        ensures
            r@ == Seq::<char>::empty(),
    {
        let r = StringOnlySerializer { value: String::new() };
        proof {
            assert(r@ =~= Seq::<char>::empty());
        }
        r
    }

    /// Borrows the string the sub-serializer has produced.
    pub fn as_str(&self) -> (r: &str)
        ensures
            r@ == self@,
    {
        self.value.as_str()
    }

    /// Gives up the sub-serializer and hands out the string it produced.
    pub fn into_string(self) -> (r: String)
        ensures
            r@ == self@,
    {
        self.value
    }

    /// A string key is taken as it is, with no percent-encoding.
    pub fn serialize_str(&mut self, value: &str) -> (r: Result<(), Error>)
        ensures
            r is Ok,
            final(self)@ == value@,
    {
        self.value = value.to_owned();
        Ok(())
    }

    /// A character key is taken as the one-character string.
    pub fn serialize_char(&mut self, value: char) -> (r: Result<(), Error>)
        ensures
            r is Ok,
            final(self)@ == seq![value],
    {
        let mut rendered = String::new();
        push_char(&mut rendered, value);
        self.value = rendered;
        proof {
            assert(self@ =~= seq![value]);
        }
        Ok(())
    }

    /// A boolean cannot be a key.
    pub fn serialize_bool(&mut self, _value: bool) -> (r: Result<(), Error>)
        ensures
            rejects(r, "bool"@),
            final(self)@ == old(self)@,
    {
        Err(Error::unsupported("bool"))
    }

    /// A signed integer cannot be a key.
    pub fn serialize_i8(&mut self, _value: i8) -> (r: Result<(), Error>)
        ensures
            rejects(r, "i8"@),
            final(self)@ == old(self)@,
    {
        Err(Error::unsupported("i8"))
    }

    /// A signed integer cannot be a key.
    pub fn serialize_i16(&mut self, _value: i16) -> (r: Result<(), Error>)
        ensures
            rejects(r, "i16"@),
            final(self)@ == old(self)@,
    {
        Err(Error::unsupported("i16"))
    }

    /// A signed integer cannot be a key.
    pub fn serialize_i32(&mut self, _value: i32) -> (r: Result<(), Error>)
        ensures
            rejects(r, "i32"@),
            final(self)@ == old(self)@,
    {
        Err(Error::unsupported("i32"))
    }

    /// A signed integer cannot be a key.
    pub fn serialize_i64(&mut self, _value: i64) -> (r: Result<(), Error>)
        ensures
            rejects(r, "i64"@),
            final(self)@ == old(self)@,
    {
        Err(Error::unsupported("i64"))
    }

    /// An unsigned integer cannot be a key.
    pub fn serialize_u8(&mut self, _value: u8) -> (r: Result<(), Error>)
        ensures
            rejects(r, "u8"@),
            final(self)@ == old(self)@,
    {
        Err(Error::unsupported("u8"))
    }

    /// An unsigned integer cannot be a key.
    pub fn serialize_u16(&mut self, _value: u16) -> (r: Result<(), Error>)
        ensures
            rejects(r, "u16"@),
            final(self)@ == old(self)@,
    {
        Err(Error::unsupported("u16"))
    }

    /// An unsigned integer cannot be a key.
    pub fn serialize_u32(&mut self, _value: u32) -> (r: Result<(), Error>)
        ensures
            rejects(r, "u32"@),
            final(self)@ == old(self)@,
    {
        Err(Error::unsupported("u32"))
    }

    /// An unsigned integer cannot be a key.
    pub fn serialize_u64(&mut self, _value: u64) -> (r: Result<(), Error>)
        ensures
            rejects(r, "u64"@),
            final(self)@ == old(self)@,
    {
        Err(Error::unsupported("u64"))
    }

    /// A 32-bit floating-point value cannot be a key.
    pub fn serialize_f32(&mut self) -> (r: Result<(), Error>)
        ensures
            rejects(r, "f32"@),
            final(self)@ == old(self)@,
    {
        Err(Error::unsupported("f32"))
    }

    /// A 64-bit floating-point value cannot be a key.
    pub fn serialize_f64(&mut self) -> (r: Result<(), Error>)
        ensures
            rejects(r, "f64"@),
            final(self)@ == old(self)@,
    {
        Err(Error::unsupported("f64"))
    }

    /// A byte string cannot be a key.
    pub fn serialize_bytes(&mut self, _value: &[u8]) -> (r: Result<(), Error>)
        ensures
            rejects(r, "bytes"@),
            final(self)@ == old(self)@,
    {
        Err(Error::unsupported("bytes"))
    }

    /// An absent optional cannot be a key.
    pub fn serialize_none(&mut self) -> (r: Result<(), Error>)
        ensures
            rejects(r, "none"@),
            final(self)@ == old(self)@,
    {
        Err(Error::unsupported("none"))
    }

    /// A present optional cannot be a key.
    pub fn serialize_some(&mut self) -> (r: Result<(), Error>)
        ensures
            rejects(r, "some"@),
            final(self)@ == old(self)@,
    {
        Err(Error::unsupported("some"))
    }

    /// The unit value cannot be a key.
    pub fn serialize_unit(&mut self) -> (r: Result<(), Error>)
        ensures
            rejects(r, "unit"@),
            final(self)@ == old(self)@,
    {
        Err(Error::unsupported("unit"))
    }

    /// A struct with no fields cannot be a key.
    pub fn serialize_unit_struct(&mut self, _name: &str) -> (r: Result<(), Error>)
        ensures
            rejects(r, "unit struct"@),
            final(self)@ == old(self)@,
    {
        Err(Error::unsupported("unit struct"))
    }

    /// A dataless enum variant cannot be a key.
    pub fn serialize_unit_variant(
        &mut self,
        _name: &str,
        _variant_index: u32,
        _variant: &str,
    ) -> (r: Result<(), Error>)
        ensures
            rejects(r, "unit variant"@),
            final(self)@ == old(self)@,
    {
        Err(Error::unsupported("unit variant"))
    }

    /// A newtype struct cannot be a key.
    pub fn serialize_newtype_struct(&mut self, _name: &str) -> (r: Result<(), Error>)
        ensures
            rejects(r, "newtype struct"@),
            final(self)@ == old(self)@,
    {
        Err(Error::unsupported("newtype struct"))
    }

    /// A newtype enum variant cannot be a key.
    pub fn serialize_newtype_variant(
        &mut self,
        _name: &str,
        _variant_index: u32,
        _variant: &str,
    ) -> (r: Result<(), Error>)
        ensures
            rejects(r, "newtype variant"@),
            final(self)@ == old(self)@,
    {
        Err(Error::unsupported("newtype variant"))
    }

    /// A sequence cannot be a key.
    pub fn serialize_seq(&mut self, _len: Option<usize>) -> (r: Result<(), Error>)
        ensures
            rejects(r, "seq"@),
            final(self)@ == old(self)@,
    {
        Err(Error::unsupported("seq"))
    }

    /// A tuple cannot be a key.
    pub fn serialize_tuple(&mut self, _len: usize) -> (r: Result<(), Error>)
        ensures
            rejects(r, "tuple"@),
            final(self)@ == old(self)@,
    {
        Err(Error::unsupported("tuple"))
    }

    /// A tuple struct cannot be a key.
    pub fn serialize_tuple_struct(&mut self, _name: &str, _len: usize) -> (r: Result<(), Error>)
        ensures
            rejects(r, "tuple struct"@),
            final(self)@ == old(self)@,
    {
        Err(Error::unsupported("tuple struct"))
    }

    /// A tuple enum variant cannot be a key.
    pub fn serialize_tuple_variant(
        &mut self,
        _name: &str,
        _variant_index: u32,
        _variant: &str,
        _len: usize,
    ) -> (r: Result<(), Error>)
        ensures
            rejects(r, "tuple variant"@),
            final(self)@ == old(self)@,
    {
        Err(Error::unsupported("tuple variant"))
    }

    /// A map cannot be a key.
    pub fn serialize_map(&mut self, _len: Option<usize>) -> (r: Result<(), Error>)
        ensures
            rejects(r, "map"@),
            final(self)@ == old(self)@,
    {
        Err(Error::unsupported("map"))
    }

    /// A struct cannot be a key.
    pub fn serialize_struct(&mut self, _name: &str, _len: usize) -> (r: Result<(), Error>)
        ensures
            rejects(r, "struct"@),
            final(self)@ == old(self)@,
    {
        Err(Error::unsupported("struct"))
    }

    /// A struct-like enum variant cannot be a key.
    pub fn serialize_struct_variant(
        &mut self,
        _name: &str,
        _variant_index: u32,
        _variant: &str,
        _len: usize,
    ) -> (r: Result<(), Error>)
        ensures
            rejects(r, "struct variant"@),
            final(self)@ == old(self)@,
    {
        Err(Error::unsupported("struct variant"))
    }
}

impl Default for StringOnlySerializer {
    /// The default key sub-serializer holds the empty string.
    fn default() -> (r: StringOnlySerializer)
        ensures
            r@ == Seq::<char>::empty(),
    {
        StringOnlySerializer::new()
    }
}

} // verus!
