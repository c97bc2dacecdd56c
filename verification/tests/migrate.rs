use mangrove::codec::serialize;
use mangrove::migrate::migrate;
use mangrove::value::{ScriptType, ScriptValue, StructField, StructType};

fn layout(fields: Vec<(&str, ScriptType)>) -> StructType {
    StructType {
        type_id: 1,
        name: "S".to_string(),
        fields: fields
            .into_iter()
            .map(|(name, field_type)| StructField { name: name.to_string(), field_type })
            .collect(),
    }
}

const TWO: i32 = 2 << 16;

#[test]
fn reload_preserves_compatible_fields() {
    let definition = layout(vec![("a", ScriptType::Int), ("b", ScriptType::Float)]);
    let live = ScriptValue::Struct(vec![ScriptValue::Int(5), ScriptValue::Float(TWO)]);
    let saved = serialize(&live, 2048).unwrap();
    let fresh = ScriptValue::Struct(vec![ScriptValue::Int(0), ScriptValue::Float(0)]);
    assert_eq!(migrate(&definition, fresh, &saved), live);
}

#[test]
fn added_field_keeps_its_fresh_value() {
    let live = ScriptValue::Struct(vec![ScriptValue::Int(5)]);
    let saved = serialize(&live, 2048).unwrap();
    let grown = layout(vec![("a", ScriptType::Int), ("b", ScriptType::Int)]);
    let fresh = ScriptValue::Struct(vec![ScriptValue::Int(0), ScriptValue::Int(42)]);
    assert_eq!(
        migrate(&grown, fresh, &saved),
        ScriptValue::Struct(vec![ScriptValue::Int(5), ScriptValue::Int(42)])
    );
}

#[test]
fn removed_field_leaves_bytes_unread() {
    let live = ScriptValue::Struct(vec![ScriptValue::Int(5), ScriptValue::Int(6)]);
    let saved = serialize(&live, 2048).unwrap();
    let shrunk = layout(vec![("a", ScriptType::Int)]);
    let fresh = ScriptValue::Struct(vec![ScriptValue::Int(0)]);
    assert_eq!(migrate(&shrunk, fresh, &saved), ScriptValue::Struct(vec![ScriptValue::Int(5)]));
}

#[test]
fn changed_type_is_read_by_position() {
    let live = ScriptValue::Struct(vec![ScriptValue::Int(0x0101), ScriptValue::Bool(true)]);
    let saved = serialize(&live, 2048).unwrap();
    let drifted = layout(vec![("a", ScriptType::Bool), ("b", ScriptType::Int)]);
    let fresh = ScriptValue::Struct(vec![ScriptValue::Bool(false), ScriptValue::Int(9)]);
    assert_eq!(
        migrate(&drifted, fresh, &saved),
        ScriptValue::Struct(vec![ScriptValue::Bool(true), ScriptValue::Int(0x0100_0001)])
    );
}

#[test]
fn fields_behind_an_unreadable_field_stay_fresh() {
    let saved = vec![1, 0, 0, 0, 1, 0, 0xff, 7, 0, 0, 0];
    let definition = layout(vec![
        ("a", ScriptType::Int),
        ("b", ScriptType::String),
        ("c", ScriptType::Int),
    ]);
    let fresh = ScriptValue::Struct(vec![
        ScriptValue::Int(0),
        ScriptValue::String("new".to_string()),
        ScriptValue::Int(3),
    ]);
    assert_eq!(
        migrate(&definition, fresh, &saved),
        ScriptValue::Struct(vec![
            ScriptValue::Int(1),
            ScriptValue::String("new".to_string()),
            ScriptValue::Int(3),
        ])
    );
}

#[test]
fn nothing_saved_leaves_the_fresh_value() {
    let definition = layout(vec![("a", ScriptType::Int), ("b", ScriptType::Unit)]);
    let fresh = ScriptValue::Struct(vec![ScriptValue::Int(8), ScriptValue::Unit]);
    assert_eq!(
        migrate(&definition, fresh, &[]),
        ScriptValue::Struct(vec![ScriptValue::Int(8), ScriptValue::Unit])
    );
}

#[test]
fn value_that_is_no_struct_is_left_alone() {
    let definition = layout(vec![("a", ScriptType::Int)]);
    assert_eq!(migrate(&definition, ScriptValue::Int(4), &[1, 0, 0, 0]), ScriptValue::Int(4));
}

#[test]
fn fewer_slots_than_fields_are_filled_as_far_as_they_go() {
    let definition = layout(vec![("a", ScriptType::Int), ("b", ScriptType::Int)]);
    let fresh = ScriptValue::Struct(vec![ScriptValue::Int(0)]);
    assert_eq!(
        migrate(&definition, fresh, &[1, 0, 0, 0, 2, 0, 0, 0]),
        ScriptValue::Struct(vec![ScriptValue::Int(1)])
    );
}
