use mangrove::codec::{deserialize, serialize, strings_within_limit, SerializeError};
use mangrove::value::{EnumType, ScriptType, ScriptValue, StructField, StructType};

fn field(name: &str, field_type: ScriptType) -> StructField {
    StructField { name: name.to_string(), field_type }
}

fn sample_type() -> ScriptType {
    ScriptType::Struct(StructType {
        type_id: 7,
        name: "Sample".to_string(),
        fields: vec![
            field("a", ScriptType::Int),
            field("b", ScriptType::Float),
            field("c", ScriptType::Bool),
            field("d", ScriptType::String),
            field("e", ScriptType::Unit),
        ],
    })
}

fn sample_value() -> ScriptValue {
    ScriptValue::Struct(vec![
        ScriptValue::Int(5),
        ScriptValue::Float(2 << 16),
        ScriptValue::Bool(true),
        ScriptValue::String("hi".to_string()),
        ScriptValue::Unit,
    ])
}

#[test]
fn int_is_four_little_endian_bytes() {
    assert_eq!(serialize(&ScriptValue::Int(5), 16), Ok(vec![5, 0, 0, 0]));
    assert_eq!(serialize(&ScriptValue::Int(0x0102_0304), 16), Ok(vec![4, 3, 2, 1]));
}

#[test]
fn negative_int_is_twos_complement() {
    assert_eq!(serialize(&ScriptValue::Int(-1), 16), Ok(vec![255, 255, 255, 255]));
    assert_eq!(serialize(&ScriptValue::Int(i32::MIN), 16), Ok(vec![0, 0, 0, 128]));
}

#[test]
fn float_is_its_raw_number() {
    assert_eq!(serialize(&ScriptValue::Float(2 << 16), 16), Ok(vec![0, 0, 2, 0]));
}

#[test]
fn bool_is_one_byte() {
    assert_eq!(serialize(&ScriptValue::Bool(true), 16), Ok(vec![1]));
    assert_eq!(serialize(&ScriptValue::Bool(false), 16), Ok(vec![0]));
}

#[test]
fn string_is_length_then_utf8() {
    assert_eq!(
        serialize(&ScriptValue::String("hi".to_string()), 16),
        Ok(vec![2, 0, b'h', b'i'])
    );
    assert_eq!(
        serialize(&ScriptValue::String("é".to_string()), 16),
        Ok(vec![2, 0, 0xc3, 0xa9])
    );
    assert_eq!(serialize(&ScriptValue::String(String::new()), 16), Ok(vec![0, 0]));
}

#[test]
fn unit_and_handle_take_no_bytes() {
    assert_eq!(serialize(&ScriptValue::Unit, 0), Ok(vec![]));
    assert_eq!(serialize(&ScriptValue::Handle(91, 3), 0), Ok(vec![]));
}

#[test]
fn enum_variant_is_its_index() {
    assert_eq!(serialize(&ScriptValue::EnumVariant(16), 1), Ok(vec![16]));
}

#[test]
fn struct_is_its_slots_in_order() {
    assert_eq!(
        serialize(&sample_value(), 2048),
        Ok(vec![5, 0, 0, 0, 0, 0, 2, 0, 1, 2, 0, b'h', b'i'])
    );
}

#[test]
fn nested_values_are_flattened() {
    let value = ScriptValue::Struct(vec![
        ScriptValue::Tuple(vec![ScriptValue::Int(1), ScriptValue::Int(2)]),
        ScriptValue::Bool(true),
    ]);
    assert_eq!(serialize(&value, 2048), Ok(vec![1, 0, 0, 0, 2, 0, 0, 0, 1]));
}

#[test]
fn serialize_fails_when_buffer_is_full() {
    assert_eq!(serialize(&ScriptValue::Int(5), 3), Err(SerializeError::BufferFull));
    assert_eq!(serialize(&sample_value(), 12), Err(SerializeError::BufferFull));
    assert_eq!(serialize(&sample_value(), 13).map(|bytes| bytes.len()), Ok(13));
}

#[test]
fn serialize_fails_on_a_string_that_is_too_long() {
    let long = "x".repeat(65536);
    let value = ScriptValue::Struct(vec![ScriptValue::String(long)]);
    assert!(!strings_within_limit(&value));
    assert_eq!(serialize(&value, usize::MAX), Err(SerializeError::StringTooLong));
    assert_eq!(serialize(&value, 4), Err(SerializeError::StringTooLong));
    let longest = ScriptValue::String("x".repeat(65535));
    assert!(strings_within_limit(&longest));
    assert_eq!(serialize(&longest, 70000).map(|bytes| bytes.len()), Ok(65537));
}

#[test]
fn deserialize_gives_back_what_was_serialized() {
    let bytes = serialize(&sample_value(), 2048).unwrap();
    let (value, used) = deserialize(&sample_type(), &bytes).unwrap();
    assert_eq!(value, sample_value());
    assert_eq!(used, bytes.len());
}

#[test]
fn deserialize_leaves_bytes_behind_the_value_unread() {
    let mut bytes = serialize(&sample_value(), 2048).unwrap();
    let written = bytes.len();
    bytes.extend_from_slice(&[9, 9, 9]);
    let (value, used) = deserialize(&sample_type(), &bytes).unwrap();
    assert_eq!(value, sample_value());
    assert_eq!(used, written);
}

#[test]
fn deserialize_reads_each_primitive() {
    assert_eq!(
        deserialize(&ScriptType::Int, &[254, 255, 255, 255]),
        Some((ScriptValue::Int(-2), 4))
    );
    assert_eq!(
        deserialize(&ScriptType::Float, &[0, 128, 0, 0]),
        Some((ScriptValue::Float(32768), 4))
    );
    assert_eq!(deserialize(&ScriptType::Bool, &[7]), Some((ScriptValue::Bool(true), 1)));
    assert_eq!(deserialize(&ScriptType::Unit, &[]), Some((ScriptValue::Unit, 0)));
    assert_eq!(
        deserialize(&ScriptType::String, &[3, 0, b'a', b'b', b'c', b'd']),
        Some((ScriptValue::String("abc".to_string()), 5))
    );
}

#[test]
fn deserialize_fails_on_too_few_bytes() {
    assert_eq!(deserialize(&ScriptType::Int, &[1, 2, 3]), None);
    assert_eq!(deserialize(&ScriptType::Bool, &[]), None);
    assert_eq!(deserialize(&ScriptType::String, &[1]), None);
    assert_eq!(deserialize(&ScriptType::String, &[3, 0, b'a', b'b']), None);
    assert_eq!(deserialize(&sample_type(), &[5, 0, 0, 0, 0, 0, 2, 0]), None);
}

#[test]
fn deserialize_fails_on_bytes_that_are_not_utf8() {
    assert_eq!(deserialize(&ScriptType::String, &[1, 0, 0xff]), None);
    assert_eq!(deserialize(&ScriptType::String, &[2, 0, 0xc3, 0x28]), None);
}

#[test]
fn deserialize_checks_the_variant_index() {
    let axis = ScriptType::Enum(EnumType {
        name: "Axis".to_string(),
        variants: vec!["X".to_string(), "Y".to_string()],
    });
    assert_eq!(deserialize(&axis, &[1]), Some((ScriptValue::EnumVariant(1), 1)));
    assert_eq!(deserialize(&axis, &[2]), None);
    assert_eq!(deserialize(&axis, &[]), None);
}

#[test]
fn deserialize_cannot_read_a_native_handle() {
    assert_eq!(deserialize(&ScriptType::External(91), &[1, 2, 3, 4]), None);
    let holder = ScriptType::Tuple(vec![ScriptType::Int, ScriptType::External(91)]);
    assert_eq!(deserialize(&holder, &[1, 0, 0, 0]), None);
}

#[test]
fn duplicate_is_equal_to_its_source() {
    let value = ScriptValue::Struct(vec![
        sample_value(),
        ScriptValue::Tuple(vec![ScriptValue::EnumVariant(3), ScriptValue::Handle(92, 1)]),
    ]);
    assert_eq!(value.duplicate(), value);
}
