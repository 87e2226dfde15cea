//! The laws the serializer obeys, stated over the data model and proved
//! once and for all: how flat records, sequence-valued fields, optionals
//! and flattened records come out, that encoding is deterministic, and that
//! percent-encoding round-trips through a standard decoder.

use vstd::prelude::*;
use crate::encode::form_decode;
use crate::encode::form_encode;
use crate::encode::lemma_form_encode_decode;
use crate::text::bool_rep;
use crate::text::dec_rep;
use crate::text::int_rep;
use crate::value::SerOutcome;
use crate::value::SerState;
use crate::value::Value;
use crate::value::after_pair;
use crate::value::init_state;
use crate::value::ser_elems;
use crate::value::ser_fields;
use crate::value::ser_pairs;
use crate::value::ser_scalar;
use crate::value::ser_value;
use vstd::utf8::decode_utf8;
use vstd::utf8::encode_utf8;
use vstd::utf8::encode_utf8_decode_utf8;

verus! {

/// True for the leaf shapes that write exactly one `key=value` pair.
pub open spec fn is_scalar_shape(v: Value) -> bool {
    match v {
        Value::Bool(_) => true,
        Value::I8(_) => true,
        Value::I16(_) => true,
        Value::I32(_) => true,
        Value::I64(_) => true,
        Value::U8(_) => true,
        Value::U16(_) => true,
        Value::U32(_) => true,
        Value::U64(_) => true,
        Value::Float(_) => true,
        Value::Char(_) => true,
        Value::Str(_) => true,
        _ => false,
    }
}

/// The rendered text of a leaf shape, as it stands after `=` in its pair.
pub open spec fn scalar_rep(v: Value) -> Seq<char>
    recommends
        is_scalar_shape(v),
{
    match v {
        Value::Bool(b) => bool_rep(b),
        Value::I8(n) => int_rep(n as int),
        Value::I16(n) => int_rep(n as int),
        Value::I32(n) => int_rep(n as int),
        Value::I64(n) => int_rep(n as int),
        Value::U8(n) => dec_rep(n as nat),
        Value::U16(n) => dec_rep(n as nat),
        Value::U32(n) => dec_rep(n as nat),
        Value::U64(n) => dec_rep(n as nat),
        Value::Float(text) => text@,
        Value::Char(c) => seq![c],
        Value::Str(s) => form_encode(encode_utf8(s@)),
        _ => seq![],
    }
}

/// A leaf shape serializes as exactly one pair of its rendered text.
pub proof fn lemma_scalar_shape(v: Value, st: SerState)
    requires
        is_scalar_shape(v),
    ensures
        ser_value(v, st) == ser_scalar(st, scalar_rep(v)),
{
}

/// The pairs a record with the given fields adds to the output when every
/// field holds a leaf value: one `name=value` pair per field, joined by
/// `&`, in field declaration order.
pub open spec fn joined_field_pairs(fields: Seq<(String, Value)>, first: bool) -> Seq<char>
    decreases fields.len(),
{
    if fields.len() == 0 {
        seq![]
    } else {
        (if first { seq![] } else { seq!['&'] }) + fields[0].0@ + seq!['='] + scalar_rep(
            fields[0].1,
        ) + joined_field_pairs(fields.drop_first(), false)
    }
}

/// A record whose fields all hold leaf values writes exactly one
/// `name=value` pair per field, joined by `&`, in field declaration order.
pub proof fn lemma_record_of_scalars(fields: Seq<(String, Value)>, st: SerState)
    requires
        forall|i: int| 0 <= i < fields.len() ==> is_scalar_shape(#[trigger] fields[i].1),
    ensures
        ser_fields(fields, st) == SerOutcome::Done(
            SerState {
                out: st.out + joined_field_pairs(fields, st.first),
                key: None,
                first: st.first && fields.len() == 0,
            },
        ),
    decreases fields.len(),
{
    if fields.len() == 0 {
        assert(st.out + joined_field_pairs(fields, st.first) =~= st.out);
    } else {
        let name = fields[0].0;
        let v = fields[0].1;
        let keyed = SerState { out: st.out, key: Some(name@), first: st.first };
        lemma_scalar_shape(v, keyed);
        let st1 = after_pair(keyed, scalar_rep(v));
        lemma_record_of_scalars(fields.drop_first(), st1);
        assert(st1.out + joined_field_pairs(fields.drop_first(), false) =~= st.out
            + joined_field_pairs(fields, st.first));
    }
}

/// A whole record of leaf fields, serialized from the start state, yields
/// exactly the joined pairs of its fields.
pub proof fn lemma_flat_record_output(fields: Vec<(String, Value)>)
    requires
        forall|i: int| 0 <= i < fields@.len() ==> is_scalar_shape(#[trigger] fields@[i].1),
    ensures
        ser_value(Value::Struct(fields), init_state()) == SerOutcome::Done(
            SerState {
                out: joined_field_pairs(fields@, true),
                key: None,
                first: fields@.len() == 0,
            },
        ),
{
    lemma_record_of_scalars(fields@, init_state());
    assert(init_state().out + joined_field_pairs(fields@, true) =~= joined_field_pairs(
        fields@,
        true,
    ));
}

/// The pairs a sequence of leaf elements adds to the output under one key:
/// the same key once per element, joined by `&`, in element order.
pub open spec fn repeated_key_pairs(key: Seq<char>, elems: Seq<Value>, first: bool) -> Seq<char>
    decreases elems.len(),
{
    if elems.len() == 0 {
        seq![]
    } else {
        (if first { seq![] } else { seq!['&'] }) + key + seq!['='] + scalar_rep(elems[0])
            + repeated_key_pairs(key, elems.drop_first(), false)
    }
}

/// A sequence of M leaf elements under a key writes exactly M pairs of that
/// same key, joined by `&`, in element order.
pub proof fn lemma_sequence_repeats_key(key: Seq<char>, elems: Seq<Value>, st: SerState)
    requires
        st.key == Some(key),
        forall|i: int| 0 <= i < elems.len() ==> is_scalar_shape(#[trigger] elems[i]),
    ensures
        ser_elems(elems, st) == SerOutcome::Done(
            SerState {
                out: st.out + repeated_key_pairs(key, elems, st.first),
                key: Some(key),
                first: st.first && elems.len() == 0,
            },
        ),
    decreases elems.len(),
{
    if elems.len() == 0 {
        assert(st.out + repeated_key_pairs(key, elems, st.first) =~= st.out);
        assert(ser_elems(elems, st) == SerOutcome::Done(st));
        assert(st =~= SerState {
            out: st.out + repeated_key_pairs(key, elems, st.first),
            key: Some(key),
            first: st.first && elems.len() == 0,
        });
    } else {
        lemma_scalar_shape(elems[0], st);
        let st1 = after_pair(st, scalar_rep(elems[0]));
        lemma_sequence_repeats_key(key, elems.drop_first(), st1);
        assert(st1.out + repeated_key_pairs(key, elems.drop_first(), false) =~= st.out
            + repeated_key_pairs(key, elems, st.first));
    }
}

/// An absent optional contributes nothing: serializing it leaves the state
/// exactly as it was, and succeeds.
pub proof fn lemma_optional_absent(st: SerState)
    ensures
        ser_value(Value::Opt(None), st) == SerOutcome::Done(st),
{
}

/// A present optional contributes exactly what its inner value would,
/// under the same key.
pub proof fn lemma_optional_present(inner: Box<Value>, st: SerState)
    ensures
        ser_value(Value::Opt(Some(inner)), st) == ser_value(*inner, st),
{
}

/// A newtype wrapper is transparent: it contributes no key of its own and
/// serializes exactly as its inner value does.
pub proof fn lemma_newtype_transparent(inner: Box<Value>, st: SerState)
    ensures
        ser_value(Value::NewtypeStruct(inner), st) == ser_value(*inner, st),
        ser_value(Value::NewtypeVariant(inner), st) == ser_value(*inner, st),
{
}

/// Flattening a record into a map promotes its fields to top-level keys
/// with no key contributed by the wrapper: a map whose keys are the field
/// names, string for string, writes exactly the output the record itself
/// would, succeeds exactly when it would, and fails exactly as it would;
/// only the key left behind on success differs, and a record leaves none.
pub proof fn lemma_flatten_promotes_fields(
    pairs: Seq<(Value, Value)>,
    fields: Seq<(String, Value)>,
    st: SerState,
)
    requires
        pairs.len() == fields.len(),
        forall|i: int| 0 <= i < pairs.len() ==> ((#[trigger] pairs[i]).0 matches Value::Str(s)
            && s@ == fields[i].0@ && pairs[i].1 == fields[i].1),
    ensures
        match (ser_pairs(pairs, st), ser_fields(fields, st)) {
            (SerOutcome::Done(a), SerOutcome::Done(b)) => a.out == b.out && a.first == b.first
                && b.key is None,
            (SerOutcome::Fail(a, m1), SerOutcome::Fail(b, m2)) => a == b && m1 == m2,
            _ => false,
        },
    decreases pairs.len(),
{
    if pairs.len() == 0 {
    } else {
        assert((pairs[0].0 matches Value::Str(s) && s@ == fields[0].0@
            && pairs[0].1 == fields[0].1));
        let keyed = SerState { out: st.out, key: Some(fields[0].0@), first: st.first };
        match ser_value(pairs[0].1, keyed) {
            SerOutcome::Done(st1) => {
                lemma_flatten_promotes_fields(pairs.drop_first(), fields.drop_first(), st1);
            },
            SerOutcome::Fail(_, _) => {},
        }
    }
}

/// Encoding is a pure function of the input value: any two outcomes of
/// serializing the same value from the start state are the same, so equal
/// inputs yield identical output strings.
pub proof fn lemma_encoding_deterministic(v: Value, a: SerOutcome, b: SerOutcome)
    requires
        a == ser_value(v, init_state()),
        b == ser_value(v, init_state()),
    ensures
        a == b,
{
}

/// Decoding a produced value segment with a standard percent-decoder gives
/// back the original string content.
pub proof fn lemma_percent_round_trip(s: Seq<char>)
    ensures
        decode_utf8(form_decode(form_encode(encode_utf8(s)))) == s,
{
    lemma_form_encode_decode(encode_utf8(s));
    encode_utf8_decode_utf8(s);
}

} // verus!
