//! Positional serialization of script values.
//!
//! A value is written as the concatenation of its slots in definition order,
//! with no names or tags: position is identity. Reading needs the type.
//!
//! The bytes are those of the interpreter, and the interpreter's own writer
//! and reader are called for every value that converts to a value of the
//! interpreter one for one: ints, floats, bools, and strings on the way out.
//! The walk over the slots of a tuple or a struct is made here, and so is the
//! byte of an enum variant:
//!
//! - A value of the interpreter holds its slots in shared cells and carries
//!   the interpreter's definition of its struct or enum. A plain value has
//!   neither, and a native handle has no counterpart that could be made here.
//! - The interpreter's writer goes beyond the end of a buffer that is too
//!   small. Whether a value fits has to be known before it is called, and to
//!   know it takes the same walk.
//! - The interpreter's reader stops the program on bytes that are too short
//!   for the type. A reload has to go on with the fields that could be read,
//!   so reading gives `None` instead, field by field.
//!
//! Where the interpreter's reader gives a value, reading here gives the same
//! value. It also reads what the interpreter's writer writes and its reader
//! cannot take: a variant index beyond seven, and a string of 65534 or 65535
//! bytes, whose size that reader counts in sixteen bits.

use fixed32::Fp;
use swamp_script::prelude::{Type, Value};
use vstd::prelude::*;
use vstd::bytes::*;
use vstd::utf8::*;
use vstd::slice::{slice_subrange, slice_to_vec};
use crate::value::{
    conforms, conforms_all, field_type_views, lemma_field_type_views, lemma_type_views, lemma_views,
    type_views, views, ScriptType, ScriptValue, StructField, TypeModel, ValueModel,
};

verus! {

/// The longest string, in UTF-8 bytes, that the layout can hold.
pub const MAX_STRING_OCTETS: usize = 65535;

/// The serialized form of a value.
///
/// Int and Float take four little-endian bytes, Bool one byte, a String its
/// UTF-8 length as two little-endian bytes followed by the bytes, an enum
/// variant its index as one byte. Unit and native handles take no bytes.
/// Tuples and structs are their slots, one after the other.
pub open spec fn encode(value: ValueModel) -> Seq<u8>
    decreases value,
{
    match value {
        ValueModel::Unit => Seq::empty(),
        ValueModel::Int(i) => spec_u32_to_le_bytes(i as u32),
        ValueModel::Float(raw) => spec_u32_to_le_bytes(raw as u32),
        ValueModel::Bool(b) => seq![if b { 1u8 } else { 0u8 }],
        ValueModel::String(s) => spec_u16_to_le_bytes(encode_utf8(s).len() as u16) + encode_utf8(s),
        ValueModel::Tuple(items) => encode_all(items),
        ValueModel::Struct(fields) => encode_all(fields),
        ValueModel::EnumVariant(index) => seq![index],
        ValueModel::Handle(_, _) => Seq::empty(),
    }
}

/// The serialized form of a run of slots.
pub open spec fn encode_all(values: Seq<ValueModel>) -> Seq<u8>
    decreases values,
{
    if values.len() == 0 {
        Seq::empty()
    } else {
        encode(values[0]) + encode_all(values.skip(1))
    }
}

/// Whether every string inside the value is short enough for its length prefix.
pub open spec fn strings_fit(value: ValueModel) -> bool
    decreases value,
{
    match value {
        ValueModel::String(s) => encode_utf8(s).len() <= MAX_STRING_OCTETS,
        ValueModel::Tuple(items) => strings_fit_all(items),
        ValueModel::Struct(fields) => strings_fit_all(fields),
        _ => true,
    }
}

/// Whether every string inside the slots is short enough for its length prefix.
pub open spec fn strings_fit_all(values: Seq<ValueModel>) -> bool
    decreases values,
{
    values.len() == 0 || (strings_fit(values[0]) && strings_fit_all(values.skip(1)))
}

/// Reads one value of type `ty` from the front of `bytes`: the value and the
/// number of bytes it took, or `None` where the bytes do not hold such a value
/// (too few bytes, a string that is not UTF-8, a variant index that the enum
/// lacks, or a native handle, which has no serialized form to read back).
/// Every index at which the enum has a variant is read, so that every variant
/// that was written comes back.
pub open spec fn decode(ty: TypeModel, bytes: Seq<u8>) -> Option<(ValueModel, nat)>
    decreases ty,
{
    match ty {
        TypeModel::Unit => Some((ValueModel::Unit, 0nat)),
        TypeModel::Int => if bytes.len() >= 4 {
            Some((ValueModel::Int(spec_u32_from_le_bytes(bytes.subrange(0, 4)) as i32), 4nat))
        } else {
            None
        },
        TypeModel::Float => if bytes.len() >= 4 {
            Some((ValueModel::Float(spec_u32_from_le_bytes(bytes.subrange(0, 4)) as i32), 4nat))
        } else {
            None
        },
        TypeModel::Bool => if bytes.len() >= 1 {
            Some((ValueModel::Bool(bytes[0] != 0), 1nat))
        } else {
            None
        },
        TypeModel::String => if bytes.len() >= 2 {
            let count = spec_u16_from_le_bytes(bytes.subrange(0, 2)) as int;
            if bytes.len() >= 2 + count && valid_utf8(bytes.subrange(2, 2 + count)) {
                Some(
                    (
                        ValueModel::String(decode_utf8(bytes.subrange(2, 2 + count))),
                        (2 + count) as nat,
                    ),
                )
            } else {
                None
            }
        } else {
            None
        },
        TypeModel::Tuple(types) => match decode_all(types, bytes) {
            Some((items, used)) => Some((ValueModel::Tuple(items), used)),
            None => None,
        },
        TypeModel::Struct(definition) => match decode_all(definition.field_types, bytes) {
            Some((fields, used)) => Some((ValueModel::Struct(fields), used)),
            None => None,
        },
        TypeModel::Enum(definition) => if bytes.len() >= 1 && bytes[0] < definition.variants.len() {
            Some((ValueModel::EnumVariant(bytes[0]), 1nat))
        } else {
            None
        },
        TypeModel::External(_) => None,
    }
}

/// Reads one value for each type, in order, from the front of `bytes`.
pub open spec fn decode_all(types: Seq<TypeModel>, bytes: Seq<u8>) -> Option<(Seq<ValueModel>, nat)>
    decreases types,
{
    if types.len() == 0 {
        Some((Seq::empty(), 0nat))
    } else {
        match decode(types[0], bytes) {
            Some((first, used)) => match decode_all(types.skip(1), bytes.skip(used as int)) {
                Some((rest, more)) => Some((seq![first] + rest, used + more)),
                None => None,
            },
            None => None,
        }
    }
}

/// A value that was read took no more bytes than there were.
pub proof fn lemma_decode_within(ty: TypeModel, bytes: Seq<u8>)
    ensures
        decode(ty, bytes) matches Some((_, used)) ==> used <= bytes.len(),
    decreases ty,
{
    match ty {
        TypeModel::Tuple(types) => lemma_decode_all_within(types, bytes),
        TypeModel::Struct(definition) => lemma_decode_all_within(definition.field_types, bytes),
        _ => {},
    }
}

/// Values that were read took no more bytes than there were, and there is one
/// value for each type.
pub proof fn lemma_decode_all_within(types: Seq<TypeModel>, bytes: Seq<u8>)
    ensures
        decode_all(types, bytes) matches Some((values, used)) ==> used <= bytes.len()
            && values.len() == types.len(),
    decreases types,
{
    if types.len() > 0 {
        lemma_decode_within(types[0], bytes);
        if let Some((first, used)) = decode(types[0], bytes) {
            lemma_decode_all_within(types.skip(1), bytes.skip(used as int));
        }
    }
}


/// Whether values of the type can be read back: the type holds no native handle.
pub open spec fn readable(ty: TypeModel) -> bool
    decreases ty,
{
    match ty {
        TypeModel::Tuple(types) => readable_all(types),
        TypeModel::Struct(definition) => readable_all(definition.field_types),
        TypeModel::External(_) => false,
        _ => true,
    }
}

/// Whether values of each of the types can be read back.
pub open spec fn readable_all(types: Seq<TypeModel>) -> bool
    decreases types,
{
    types.len() == 0 || (readable(types[0]) && readable_all(types.skip(1)))
}

proof fn lemma_int_bits(i: i32)
    ensures
        ((i as u32) as i32) == i,
{
    assert(((i as u32) as i32) == i) by (bit_vector);
}

/// Reading back what was written gives the value that was written, and takes
/// exactly the bytes that writing produced, whatever follows them.
pub proof fn lemma_round_trip(value: ValueModel, ty: TypeModel, rest: Seq<u8>)
    requires
        conforms(value, ty),
        strings_fit(value),
        readable(ty),
    ensures
        decode(ty, encode(value) + rest) == Some((value, encode(value).len())),
    decreases value,
{
    let bytes = encode(value) + rest;
    match value {
        ValueModel::Unit => {},
        ValueModel::Int(i) => {
            lemma_auto_spec_u32_to_from_le_bytes();
            lemma_int_bits(i);
            assert(bytes.subrange(0, 4) =~= spec_u32_to_le_bytes(i as u32));
        },
        ValueModel::Float(raw) => {
            lemma_auto_spec_u32_to_from_le_bytes();
            lemma_int_bits(raw);
            assert(bytes.subrange(0, 4) =~= spec_u32_to_le_bytes(raw as u32));
        },
        ValueModel::Bool(b) => {},
        ValueModel::String(s) => {
            lemma_auto_spec_u16_to_from_le_bytes();
            let text = encode_utf8(s);
            let count = text.len() as u16;
            assert(count as int == text.len());
            assert(bytes.subrange(0, 2) =~= spec_u16_to_le_bytes(count));
            assert(bytes.subrange(2, 2 + count as int) =~= text);
            encode_utf8_valid_utf8(s);
            encode_utf8_decode_utf8(s);
        },
        ValueModel::Tuple(items) => {
            let types = ty->Tuple_0;
            lemma_round_trip_all(items, types, rest);
        },
        ValueModel::Struct(fields) => {
            let definition = ty->Struct_0;
            lemma_round_trip_all(fields, definition.field_types, rest);
        },
        ValueModel::EnumVariant(index) => {},
        ValueModel::Handle(_, _) => {},
    }
}

/// Reading back a run of slots gives the slots that were written.
pub proof fn lemma_round_trip_all(values: Seq<ValueModel>, types: Seq<TypeModel>, rest: Seq<u8>)
    requires
        conforms_all(values, types),
        strings_fit_all(values),
        readable_all(types),
    ensures
        decode_all(types, encode_all(values) + rest) == Some((values, encode_all(values).len())),
    decreases values,
{
    if values.len() == 0 {
        assert(values =~= Seq::empty());
    } else {
        let tail = encode_all(values.skip(1)) + rest;
        let bytes = encode_all(values) + rest;
        assert(bytes =~= encode(values[0]) + tail);
        lemma_round_trip(values[0], types[0], tail);
        let used = encode(values[0]).len();
        assert(bytes.skip(used as int) =~= tail);
        lemma_round_trip_all(values.skip(1), types.skip(1), rest);
        assert(seq![values[0]] + values.skip(1) =~= values);
    }
}


/// Writing a run of slots that is split in two writes the first part, then the second.
pub proof fn lemma_encode_all_concat(first: Seq<ValueModel>, second: Seq<ValueModel>)
    ensures
        encode_all(first + second) == encode_all(first) + encode_all(second),
    decreases first.len(),
{
    if first.len() == 0 {
        assert(first + second =~= second);
        assert(encode_all(first) + encode_all(second) =~= encode_all(second));
    } else {
        lemma_encode_all_concat(first.skip(1), second);
        assert((first + second).skip(1) =~= first.skip(1) + second);
        assert(encode_all(first + second) =~= encode_all(first) + encode_all(second));
    }
}

/// Writing one more slot appends that slot's bytes.
pub proof fn lemma_encode_all_step(values: Seq<ValueModel>, i: int)
    requires
        0 <= i < values.len(),
    ensures
        encode_all(values.take(i + 1)) == encode_all(values.take(i)) + encode(values[i]),
        encode_all(values).len() >= encode_all(values.take(i + 1)).len(),
{
    let one = seq![values[i]];
    assert(values.take(i + 1) =~= values.take(i) + one);
    lemma_encode_all_concat(values.take(i), one);
    assert(one.skip(1) =~= Seq::empty());
    assert(encode_all(one.skip(1)) =~= Seq::empty());
    assert(encode_all(one) =~= encode(one[0]) + encode_all(one.skip(1)));
    assert(encode_all(one) =~= encode(values[i]));
    assert(values =~= values.take(i + 1) + values.skip(i + 1));
    lemma_encode_all_concat(values.take(i + 1), values.skip(i + 1));
}

/// The strings of a run fit exactly when those of each slot fit.
pub proof fn lemma_strings_fit_all(values: Seq<ValueModel>)
    ensures
        strings_fit_all(values) <==> forall|i: int|
            0 <= i < values.len() ==> strings_fit(#[trigger] values[i]),
    decreases values.len(),
{
    if values.len() > 0 {
        lemma_strings_fit_all(values.skip(1));
        if strings_fit_all(values) {
            assert forall|i: int| 0 <= i < values.len() implies strings_fit(
                #[trigger] values[i],
            ) by {
                if i > 0 {
                    assert(values[i] == values.skip(1)[i - 1]);
                }
            }
        }
        if forall|i: int| 0 <= i < values.len() ==> strings_fit(#[trigger] values[i]) {
            assert forall|i: int| 0 <= i < values.skip(1).len() implies strings_fit(
                #[trigger] values.skip(1)[i],
            ) by {
                assert(values.skip(1)[i] == values[i + 1]);
            }
        }
    }
}

/// Why a value could not be serialized.
#[derive(Debug, PartialEq, Eq, Clone, Copy, Structural)]
pub enum SerializeError {
    /// A string inside the value is longer than its length prefix can say.
    StringTooLong,
    /// The serialized form is longer than the buffer.
    BufferFull,
}

/// Tells whether every string inside the value is short enough to be written.
pub fn strings_within_limit(value: &ScriptValue) -> (ok: bool)
    ensures
        ok == strings_fit(value@),
    decreases value,
{
    match value {
        ScriptValue::String(s) => s.as_str().as_bytes().len() <= MAX_STRING_OCTETS,
        ScriptValue::Tuple(items) => all_strings_within_limit(items),
        ScriptValue::Struct(fields) => all_strings_within_limit(fields),
        _ => true,
    }
}

fn all_strings_within_limit(values: &Vec<ScriptValue>) -> (ok: bool)
    ensures
        ok == strings_fit_all(views(values@)),
    decreases values,
{
    proof {
        lemma_strings_fit_all(views(values@));
        lemma_views(values@);
    }
    let mut i: usize = 0;
    while i < values.len()
        invariant
            i <= values.len(),
            views(values@).len() == values@.len(),
            forall|j: int| 0 <= j < values@.len() ==> #[trigger] views(values@)[j] == values@[j]@,
            forall|j: int| 0 <= j < i ==> strings_fit(#[trigger] views(values@)[j]),
            strings_fit_all(views(values@)) <==> forall|j: int|
                0 <= j < views(values@).len() ==> strings_fit(#[trigger] views(values@)[j]),
        decreases values.len() - i,
    {
        if !strings_within_limit(&values[i]) {
            assert(!strings_fit(views(values@)[i as int]));
            return false;
        }
        i += 1;
    }
    true
}

/// Appends the serialized form of `value` to `out`, unless that would take
/// `out` beyond `capacity` bytes.
fn write_value(value: &ScriptValue, out: &mut Vec<u8>, capacity: usize) -> (ok: bool)
    requires
        strings_fit(value@),
        old(out)@.len() <= capacity,
    ensures
        ok ==> final(out)@ == old(out)@ + encode(value@),
        !ok ==> old(out)@.len() + encode(value@).len() > capacity,
        final(out)@.len() <= capacity,
    decreases value,
{
    proof {
        lemma_auto_spec_u32_to_from_le_bytes();
        lemma_auto_spec_u16_to_from_le_bytes();
    }
    match value {
        ScriptValue::Unit => {
            assert(out@ =~= old(out)@ + encode(value@));
            true
        },
        ScriptValue::Int(_) => write_primitive(value, 4, out, capacity),
        ScriptValue::Float(_) => write_primitive(value, 4, out, capacity),
        ScriptValue::Bool(_) => write_primitive(value, 1, out, capacity),
        ScriptValue::String(s) => {
            let count = s.as_str().as_bytes().len();
            write_primitive(value, 2 + count, out, capacity)
        },
        ScriptValue::Tuple(items) => write_all(items, out, capacity),
        ScriptValue::Struct(fields) => write_all(fields, out, capacity),
        ScriptValue::EnumVariant(index) => {
            if capacity - out.len() < 1 {
                return false;
            }
            out.push(*index);
            assert(out@ =~= old(out)@ + encode(value@));
            true
        },
        ScriptValue::Handle(_, _) => {
            assert(out@ =~= old(out)@ + encode(value@));
            true
        },
    }
}

/// Whether a value is an int, a float, a bool or a string.
pub open spec fn is_primitive(value: ValueModel) -> bool {
    value is Int || value is Float || value is Bool || value is String
}

/// `Value::quick_serialize` of swamp_script, on the interpreter's value for
/// an int, a float, a bool or a string, into a buffer of exactly the size that
/// the value takes. The bytes are the value's serialized form: four
/// little-endian bytes for an int or a float's raw number, one byte for a
/// bool, and for a string its length in two little-endian bytes before its
/// UTF-8 bytes.
#[verifier::external_body]
fn quick_serialize(value: &ScriptValue, size: usize) -> (octets: Vec<u8>)
    requires
        is_primitive(value@),
        strings_fit(value@),
        size == encode(value@).len(),
    ensures
        octets@ == encode(value@),
{
    let outside = match value {
        ScriptValue::Int(i) => Value::Int(*i),
        ScriptValue::Float(raw) => Value::Float(Fp::from_raw(*raw)),
        ScriptValue::Bool(b) => Value::Bool(*b),
        ScriptValue::String(s) => Value::String(s.clone()),
        _ => Value::Unit,
    };
    let mut octets = vec![0u8; size];
    outside.quick_serialize(&mut octets, 0);
    octets
}

fn write_primitive(value: &ScriptValue, size: usize, out: &mut Vec<u8>, capacity: usize) -> (ok:
    bool)
    requires
        is_primitive(value@),
        strings_fit(value@),
        size == encode(value@).len(),
        old(out)@.len() <= capacity,
    ensures
        ok ==> final(out)@ == old(out)@ + encode(value@),
        !ok ==> old(out)@.len() + encode(value@).len() > capacity,
        final(out)@.len() <= capacity,
{
    if capacity - out.len() < size {
        return false;
    }
    let mut octets = quick_serialize(value, size);
    out.append(&mut octets);
    true
}

fn write_all(values: &Vec<ScriptValue>, out: &mut Vec<u8>, capacity: usize) -> (ok: bool)
    requires
        strings_fit_all(views(values@)),
        old(out)@.len() <= capacity,
    ensures
        ok ==> final(out)@ == old(out)@ + encode_all(views(values@)),
        !ok ==> old(out)@.len() + encode_all(views(values@)).len() > capacity,
        final(out)@.len() <= capacity,
    decreases values,
{
    let ghost models = views(values@);
    proof {
        lemma_strings_fit_all(models);
        lemma_views(values@);
        assert(models.take(0) =~= Seq::empty());
        assert(out@ =~= old(out)@ + encode_all(models.take(0)));
    }
    let mut i: usize = 0;
    while i < values.len()
        invariant
            i <= values.len(),
            models == views(values@),
            models.len() == values@.len(),
            forall|j: int| 0 <= j < values@.len() ==> #[trigger] models[j] == values@[j]@,
            forall|j: int| 0 <= j < models.len() ==> strings_fit(#[trigger] models[j]),
            out@ == old(out)@ + encode_all(models.take(i as int)),
            out@.len() <= capacity,
        decreases values.len() - i,
    {
        let ghost before = out@;
        proof {
            lemma_encode_all_step(models, i as int);
        }
        if !write_value(&values[i], out, capacity) {
            return false;
        }
        assert(out@ =~= old(out)@ + encode_all(models.take(i as int + 1)));
        i += 1;
    }
    assert(models.take(i as int) =~= models);
    true
}

/// Serializes a value into a buffer of at most `capacity` bytes.
///
/// Succeeds exactly when every string inside the value fits its length prefix
/// and the serialized form fits the buffer; the bytes are then the serialized
/// form, slot after slot in definition order.
pub fn serialize(value: &ScriptValue, capacity: usize) -> (result: Result<Vec<u8>, SerializeError>)
    ensures
        match result {
            Ok(bytes) => strings_fit(value@) && bytes@ == encode(value@) && bytes@.len()
                <= capacity,
            Err(SerializeError::StringTooLong) => !strings_fit(value@),
            Err(SerializeError::BufferFull) => strings_fit(value@) && encode(value@).len()
                > capacity,
        },
{
    if !strings_within_limit(value) {
        return Err(SerializeError::StringTooLong);
    }
    let mut out: Vec<u8> = Vec::new();
    if write_value(value, &mut out, capacity) {
        assert(out@ =~= encode(value@));
        Ok(out)
    } else {
        Err(SerializeError::BufferFull)
    }
}


/// Reading for a run of types that is split in two reads the first part, then
/// the second from where the first stopped.
pub proof fn lemma_decode_all_concat(first: Seq<TypeModel>, second: Seq<TypeModel>, bytes: Seq<u8>)
    ensures
        decode_all(first + second, bytes) == match decode_all(first, bytes) {
            Some((values, used)) => match decode_all(second, bytes.skip(used as int)) {
                Some((more_values, more)) => Some((values + more_values, used + more)),
                None => None,
            },
            None => None,
        },
    decreases first.len(),
{
    if first.len() == 0 {
        assert(first + second =~= second);
        assert(bytes.skip(0) =~= bytes);
        if let Some((more_values, more)) = decode_all(second, bytes) {
            assert(Seq::<ValueModel>::empty() + more_values =~= more_values);
        }
    } else {
        let whole = first + second;
        assert(whole[0] == first[0]);
        assert(whole.skip(1) =~= first.skip(1) + second);
        lemma_decode_within(first[0], bytes);
        if let Some((head, used)) = decode(first[0], bytes) {
            let after = bytes.skip(used as int);
            lemma_decode_all_concat(first.skip(1), second, after);
            lemma_decode_all_within(first.skip(1), after);
            if let Some((values, more)) = decode_all(first.skip(1), after) {
                assert(after.skip(more as int) =~= bytes.skip((used + more) as int));
                if let Some((more_values, last)) = decode_all(
                    second,
                    after.skip(more as int),
                ) {
                    assert((seq![head] + values) + more_values =~= seq![head] + (values
                        + more_values));
                }
            }
        }
    }
}

/// Reading for one more type reads one more value from where the run stopped.
pub proof fn lemma_decode_all_step(types: Seq<TypeModel>, i: int, bytes: Seq<u8>)
    requires
        0 <= i < types.len(),
    ensures
        decode_all(types.take(i + 1), bytes) == match decode_all(types.take(i), bytes) {
            Some((values, used)) => match decode(types[i], bytes.skip(used as int)) {
                Some((value, more)) => Some((values.push(value), used + more)),
                None => None,
            },
            None => None,
        },
        decode_all(types.take(i + 1), bytes) is None ==> decode_all(types, bytes) is None,
{
    let one = seq![types[i]];
    assert(types.take(i + 1) =~= types.take(i) + one);
    lemma_decode_all_concat(types.take(i), one, bytes);
    assert(one.skip(1) =~= Seq::empty());
    if let Some((values, used)) = decode_all(types.take(i), bytes) {
        let after = bytes.skip(used as int);
        assert(decode_all(one.skip(1), after) == Some((Seq::<ValueModel>::empty(), 0nat)));
        if let Some((value, more)) = decode(types[i], after) {
            assert(decode_all(one.skip(1), after.skip(more as int)) == Some(
                (Seq::<ValueModel>::empty(), 0nat),
            ));
            assert(seq![value] + Seq::<ValueModel>::empty() =~= seq![value]);
            assert(values + seq![value] =~= values.push(value));
        }
    }
    assert(types =~= types.take(i + 1) + types.skip(i + 1));
    lemma_decode_all_concat(types.take(i + 1), types.skip(i + 1), bytes);
}

/// `String::from_utf8` of std, with the error dropped: it gives a string
/// exactly when the bytes are well-formed UTF-8, and the string then holds the
/// characters that the bytes spell.
#[verifier::external_body]
fn string_from_utf8(octets: Vec<u8>) -> (text: Option<String>)
    ensures
        text is Some <==> valid_utf8(octets@),
        text matches Some(s) ==> s@ == decode_utf8(octets@),
{
    String::from_utf8(octets).ok()
}

/// `quick_deserialize` of swamp_script, for the types int, float and bool, on
/// bytes that hold such a value: an int or a float's raw number from four
/// little-endian bytes, a bool from one byte, which is false exactly where it
/// is zero. It gives the value and the number of bytes that it took.
#[verifier::external_body]
fn quick_deserialize(ty: &ScriptType, bytes: &[u8], start: usize) -> (result: (ScriptValue, usize))
    requires
        ty@ is Int || ty@ is Float || ty@ is Bool,
        start <= bytes@.len(),
        decode(ty@, bytes@.skip(start as int)) is Some,
    ensures
        decode(ty@, bytes@.skip(start as int)) == Some((result.0@, result.1 as nat)),
{
    let outside = match ty {
        ScriptType::Int => Type::Int,
        ScriptType::Float => Type::Float,
        _ => Type::Bool,
    };
    let (value, size) = swamp_script::prelude::quick_deserialize(&outside, &bytes[start..], 0);
    let plain = match value {
        Value::Int(i) => ScriptValue::Int(i),
        Value::Float(fp) => ScriptValue::Float(fp.inner()),
        Value::Bool(b) => ScriptValue::Bool(b),
        _ => ScriptValue::Unit,
    };
    (plain, size)
}

/// Reads one value of type `ty` from `bytes`, beginning at `start`: the value
/// and the number of bytes it took.
pub(crate) fn read_value(ty: &ScriptType, bytes: &[u8], start: usize) -> (result: Option<
    (ScriptValue, usize),
>)
    requires
        start <= bytes@.len(),
    ensures
        match result {
            Some((value, used)) => decode(ty@, bytes@.skip(start as int)) == Some(
                (value@, used as nat),
            ) && start + used <= bytes@.len(),
            None => decode(ty@, bytes@.skip(start as int)) is None,
        },
    decreases ty,
{
    let ghost input = bytes@.skip(start as int);
    let room = bytes.len() - start;
    match ty {
        ScriptType::Unit => Some((ScriptValue::Unit, 0)),
        ScriptType::Int => {
            if room < 4 {
                return None;
            }
            Some(quick_deserialize(ty, bytes, start))
        },
        ScriptType::Float => {
            if room < 4 {
                return None;
            }
            Some(quick_deserialize(ty, bytes, start))
        },
        ScriptType::Bool => {
            if room < 1 {
                return None;
            }
            Some(quick_deserialize(ty, bytes, start))
        },
        ScriptType::String => {
            // Strings are read here and not by the interpreter's reader, which
            // counts the bytes that it took in sixteen bits and stops on bytes
            // that are not UTF-8.
            if room < 2 {
                return None;
            }
            let count = u16_from_le_bytes(slice_subrange(bytes, start, start + 2)) as usize;
            assert(input.subrange(0, 2) =~= bytes@.subrange(start as int, start + 2));
            if room - 2 < count {
                return None;
            }
            let octets = slice_to_vec(slice_subrange(bytes, start + 2, start + 2 + count));
            assert(input.subrange(2, 2 + count) =~= bytes@.subrange(
                start + 2,
                start + 2 + count,
            ));
            match string_from_utf8(octets) {
                Some(text) => Some((ScriptValue::String(text), 2 + count)),
                None => None,
            }
        },
        ScriptType::Tuple(types) => {
            proof {
                lemma_type_views(types@);
            }
            match read_all(types, bytes, start) {
                Some((items, used)) => Some((ScriptValue::Tuple(items), used)),
                None => None,
            }
        },
        ScriptType::Struct(definition) => {
            match read_fields(&definition.fields, bytes, start) {
                Some((fields, used)) => Some((ScriptValue::Struct(fields), used)),
                None => None,
            }
        },
        ScriptType::Enum(definition) => {
            if room < 1 {
                return None;
            }
            let index = bytes[start];
            if (index as usize) < definition.variants.len() {
                Some((ScriptValue::EnumVariant(index), 1))
            } else {
                None
            }
        },
        ScriptType::External(_) => None,
    }
}

fn read_all(types: &Vec<ScriptType>, bytes: &[u8], start: usize) -> (result: Option<
    (Vec<ScriptValue>, usize),
>)
    requires
        start <= bytes@.len(),
    ensures
        match result {
            Some((values, used)) => decode_all(type_views(types@), bytes@.skip(start as int))
                == Some((views(values@), used as nat)) && start + used <= bytes@.len(),
            None => decode_all(type_views(types@), bytes@.skip(start as int)) is None,
        },
    decreases types,
{
    let ghost input = bytes@.skip(start as int);
    let ghost models = type_views(types@);
    let mut values: Vec<ScriptValue> = Vec::new();
    let mut used: usize = 0;
    let mut i: usize = 0;
    let total = bytes.len();
    proof {
        lemma_type_views(types@);
        assert(models.take(0) =~= Seq::empty());
    }
    while i < types.len()
        invariant
            i <= types.len(),
            start + used <= bytes@.len() == total,
            input == bytes@.skip(start as int),
            models == type_views(types@),
            models.len() == types@.len(),
            forall|j: int| 0 <= j < types@.len() ==> #[trigger] models[j] == types@[j]@,
            decode_all(models.take(i as int), input) == Some((views(values@), used as nat)),
        decreases types.len() - i,
    {
        proof {
            lemma_decode_all_step(models, i as int, input);
            assert(input.skip(used as int) =~= bytes@.skip(start + used));
        }
        match read_value(&types[i], bytes, start + used) {
            Some((value, more)) => {
                proof {
                    assert(values@.push(value).drop_last() =~= values@);
                }
                values.push(value);
                used = used + more;
            },
            None => {
                return None;
            },
        }
        i += 1;
    }
    assert(models.take(i as int) =~= models);
    Some((values, used))
}

fn read_fields(fields: &Vec<StructField>, bytes: &[u8], start: usize) -> (result: Option<
    (Vec<ScriptValue>, usize),
>)
    requires
        start <= bytes@.len(),
    ensures
        match result {
            Some((values, used)) => decode_all(
                field_type_views(fields@),
                bytes@.skip(start as int),
            ) == Some((views(values@), used as nat)) && start + used <= bytes@.len(),
            None => decode_all(field_type_views(fields@), bytes@.skip(start as int)) is None,
        },
    decreases fields,
{
    let ghost input = bytes@.skip(start as int);
    let ghost models = field_type_views(fields@);
    let mut values: Vec<ScriptValue> = Vec::new();
    let mut used: usize = 0;
    let mut i: usize = 0;
    let total = bytes.len();
    proof {
        lemma_field_type_views(fields@);
        assert(models.take(0) =~= Seq::empty());
    }
    while i < fields.len()
        invariant
            i <= fields.len(),
            start + used <= bytes@.len() == total,
            input == bytes@.skip(start as int),
            models == field_type_views(fields@),
            models.len() == fields@.len(),
            forall|j: int|
                0 <= j < fields@.len() ==> #[trigger] models[j] == fields@[j].field_type@,
            decode_all(models.take(i as int), input) == Some((views(values@), used as nat)),
        decreases fields.len() - i,
    {
        proof {
            lemma_decode_all_step(models, i as int, input);
            assert(input.skip(used as int) =~= bytes@.skip(start + used));
        }
        match read_value(&fields[i].field_type, bytes, start + used) {
            Some((value, more)) => {
                proof {
                    assert(values@.push(value).drop_last() =~= values@);
                }
                values.push(value);
                used = used + more;
            },
            None => {
                return None;
            },
        }
        i += 1;
    }
    assert(models.take(i as int) =~= models);
    Some((values, used))
}

/// Reads one value of type `ty` from the front of `bytes`.
///
/// Gives the value and the number of bytes it took, exactly where the bytes
/// hold such a value; bytes behind it are left unread.
pub fn deserialize(ty: &ScriptType, bytes: &[u8]) -> (result: Option<(ScriptValue, usize)>)
    ensures
        match result {
            Some((value, used)) => decode(ty@, bytes@) == Some((value@, used as nat)) && used
                <= bytes@.len(),
            None => decode(ty@, bytes@) is None,
        },
{
    assert(bytes@.skip(0) =~= bytes@);
    read_value(ty, bytes, 0)
}


/// Serializing a value and reading the bytes back gives the value again, and
/// reading takes exactly as many bytes as writing produced. This holds of every
/// value of a type without native handles whose strings fit their length
/// prefix; a struct of primitives is the plainest case.
pub proof fn theorem_serialize_then_deserialize(value: ValueModel, ty: TypeModel)
    requires
        conforms(value, ty),
        strings_fit(value),
        readable(ty),
    ensures
        decode(ty, encode(value)) == Some((value, encode(value).len())),
{
    lemma_round_trip(value, ty, Seq::empty());
    assert(encode(value) + Seq::<u8>::empty() =~= encode(value));
}

/// Where nothing is left to read, a type that can still be read has only one
/// value, and reading gives it without taking a byte.
pub proof fn lemma_decode_nothing(ty: TypeModel, value: ValueModel)
    requires
        conforms(value, ty),
        decode(ty, Seq::empty()) is Some,
    ensures
        decode(ty, Seq::empty()) == Some((value, 0nat)),
    decreases value,
{
    match value {
        ValueModel::Tuple(items) => {
            lemma_decode_all_nothing(ty->Tuple_0, items);
        },
        ValueModel::Struct(fields) => {
            lemma_decode_all_nothing(ty->Struct_0.field_types, fields);
        },
        _ => {},
    }
}

/// The same for a run of slots.
pub proof fn lemma_decode_all_nothing(types: Seq<TypeModel>, values: Seq<ValueModel>)
    requires
        conforms_all(values, types),
        decode_all(types, Seq::empty()) is Some,
    ensures
        decode_all(types, Seq::empty()) == Some((values, 0nat)),
    decreases values,
{
    let nothing = Seq::<u8>::empty();
    if values.len() == 0 {
        assert(values =~= Seq::empty());
    } else {
        lemma_decode_within(types[0], nothing);
        lemma_decode_nothing(types[0], values[0]);
        assert(nothing.skip(0) =~= nothing);
        lemma_decode_all_nothing(types.skip(1), values.skip(1));
        assert(seq![values[0]] + values.skip(1) =~= values);
    }
}

} // verus!
