//! Reading native arguments out of script values.

use swamp_script::prelude::{RuntimeError, ScriptResolveError};
use vstd::prelude::*;
use vstd::std_specs::convert::FromSpecImpl;
use crate::value::{
    lemma_field_type_views, lemma_views, ScriptType, ScriptValue, StructField, StructModel,
    StructType, TypeModel, ValueModel,
};

verus! {

/// `RuntimeError` of swamp_script, the interpreter's error. It is carried
/// through and never looked into.
#[verifier::external_type_specification]
#[verifier::external_body]
pub struct ExRuntimeError(RuntimeError);

/// `ScriptResolveError` of swamp_script, the compiler's error. It is carried
/// through and never looked into.
#[verifier::external_type_specification]
#[verifier::external_body]
pub struct ExScriptResolveError(ScriptResolveError);

/// What can go wrong between a script and its host.
#[derive(Debug)]
pub enum MangroveError {
    /// The interpreter failed while it ran a script function.
    RuntimeError(RuntimeError),
    /// A failure of the glue between script and host, in words.
    Other(String),
    /// The script could not be parsed, resolved or analyzed.
    ScriptResolveError(ScriptResolveError),
}

impl From<ScriptResolveError> for MangroveError {
    fn from(value: ScriptResolveError) -> (error: Self) {
        Self::ScriptResolveError(value)
    }
}

impl FromSpecImpl<ScriptResolveError> for MangroveError {
    open spec fn obeys_from_spec() -> bool {
        true
    }

    open spec fn from_spec(value: ScriptResolveError) -> Self {
        MangroveError::ScriptResolveError(value)
    }
}

impl From<RuntimeError> for MangroveError {
    fn from(value: RuntimeError) -> (error: Self) {
        Self::RuntimeError(value)
    }
}

impl FromSpecImpl<RuntimeError> for MangroveError {
    open spec fn obeys_from_spec() -> bool {
        true
    }

    open spec fn from_spec(value: RuntimeError) -> Self {
        MangroveError::RuntimeError(value)
    }
}

impl From<String> for MangroveError {
    fn from(value: String) -> (error: Self) {
        Self::Other(value)
    }
}

impl FromSpecImpl<String> for MangroveError {
    open spec fn obeys_from_spec() -> bool {
        true
    }

    open spec fn from_spec(value: String) -> Self {
        MangroveError::Other(value)
    }
}

/// Why a script value could not be read as the native value that was asked for.
#[derive(Debug, Clone, Copy, PartialEq, Eq, Structural)]
pub enum ValueError {
    ExpectedInt,
    ExpectedFloat,
    ExpectedBool,
    ExpectedString,
    NotAVec3,
    NotAUVec2,
    NotAColor,
    NotASpriteParam,
    NotAHandle,
    WrongRotation,
    FrameOutOfRange,
    /// The value has fewer slots than the native value needs.
    TooFewSlots { expected: usize, got: usize },
    WrongNumberOfArguments { expected: usize, got: usize },
}

/// A position with depth, in whole pixels.
#[derive(Debug, Clone, Copy, PartialEq, Eq, Structural)]
pub struct Vec3 {
    pub x: i16,
    pub y: i16,
    pub z: i16,
}

/// A size or an unsigned position, in whole pixels.
#[derive(Debug, Clone, Copy, PartialEq, Eq, Structural)]
pub struct UVec2 {
    pub x: u16,
    pub y: u16,
}

/// A colour as its four raw fixed-point components.
#[derive(Debug, Clone, Copy, PartialEq, Eq, Structural)]
pub struct Color {
    pub r: i32,
    pub g: i32,
    pub b: i32,
    pub a: i32,
}

/// A rectangle on the screen, in whole pixels.
#[derive(Debug, Clone, Copy, PartialEq, Eq, Structural)]
pub struct URect {
    pub position: UVec2,
    pub size: UVec2,
}

/// A rotation in quarter turns.
#[derive(Debug, Clone, Copy, PartialEq, Eq, Structural)]
pub enum Rotation {
    Degrees0,
    Degrees90,
    Degrees180,
    Degrees270,
}

/// How a sprite is drawn.
#[derive(Debug, Clone, Copy, PartialEq, Eq, Structural)]
pub struct SpriteParams {
    pub texture_pos: UVec2,
    pub texture_size: UVec2,
    pub flip_x: bool,
    pub flip_y: bool,
    pub rotation: Rotation,
    pub color: Color,
    pub scale: u8,
}

/// The int that a value holds.
pub open spec fn int_of(value: ValueModel) -> Result<i32, ValueError> {
    match value {
        ValueModel::Int(i) => Ok(i),
        _ => Err(ValueError::ExpectedInt),
    }
}

/// The raw fixed-point number that a value holds.
pub open spec fn float_of(value: ValueModel) -> Result<i32, ValueError> {
    match value {
        ValueModel::Float(raw) => Ok(raw),
        _ => Err(ValueError::ExpectedFloat),
    }
}

/// The bool that a value holds.
pub open spec fn bool_of(value: ValueModel) -> Result<bool, ValueError> {
    match value {
        ValueModel::Bool(b) => Ok(b),
        _ => Err(ValueError::ExpectedBool),
    }
}

/// The three ints of a tuple as a position, each cut down to sixteen bits.
pub open spec fn vec3_of(value: ValueModel) -> Result<Vec3, ValueError> {
    match value {
        ValueModel::Tuple(slots) => if slots.len() < 3 {
            Err(ValueError::TooFewSlots { expected: 3, got: slots.len() as usize })
        } else {
            match (int_of(slots[0]), int_of(slots[1]), int_of(slots[2])) {
                (Ok(x), Ok(y), Ok(z)) => Ok(Vec3 { x: x as i16, y: y as i16, z: z as i16 }),
                _ => Err(ValueError::ExpectedInt),
            }
        },
        _ => Err(ValueError::NotAVec3),
    }
}

/// The two ints of a tuple as a size, each cut down to sixteen bits.
pub open spec fn uvec2_of(value: ValueModel) -> Result<UVec2, ValueError> {
    match value {
        ValueModel::Tuple(slots) => if slots.len() < 2 {
            Err(ValueError::TooFewSlots { expected: 2, got: slots.len() as usize })
        } else {
            match (int_of(slots[0]), int_of(slots[1])) {
                (Ok(width), Ok(height)) => Ok(UVec2 { x: width as u16, y: height as u16 }),
                _ => Err(ValueError::ExpectedInt),
            }
        },
        _ => Err(ValueError::NotAUVec2),
    }
}

/// The four floats of a struct as a colour.
pub open spec fn color_of(value: ValueModel) -> Result<Color, ValueError> {
    match value {
        ValueModel::Struct(slots) => if slots.len() < 4 {
            Err(ValueError::TooFewSlots { expected: 4, got: slots.len() as usize })
        } else {
            match (float_of(slots[0]), float_of(slots[1]), float_of(slots[2]), float_of(slots[3])) {
                (Ok(r), Ok(g), Ok(b), Ok(a)) => Ok(Color { r, g, b, a }),
                _ => Err(ValueError::ExpectedFloat),
            }
        },
        _ => Err(ValueError::NotAColor),
    }
}

/// The rotation that an int names: its remainder by four, where that is not
/// negative.
pub open spec fn rotation_of(turns: i32) -> Result<Rotation, ValueError> {
    if turns < 0 && turns % 4 != 0 {
        Err(ValueError::WrongRotation)
    } else if turns % 4 == 0 {
        Ok(Rotation::Degrees0)
    } else if turns % 4 == 1 {
        Ok(Rotation::Degrees90)
    } else if turns % 4 == 2 {
        Ok(Rotation::Degrees180)
    } else {
        Ok(Rotation::Degrees270)
    }
}

/// The sprite parameters that a struct of seven slots holds: flip x, flip y,
/// rotation, colour, scale, texture position and texture size, in that order.
/// Where several slots are wrong, the error is that of the first in the order
/// scale, texture size, texture position, flip x, flip y, rotation, colour.
pub open spec fn sprite_params_of(value: ValueModel) -> Result<SpriteParams, ValueError> {
    match value {
        ValueModel::Struct(slots) => if slots.len() < 7 {
            Err(ValueError::TooFewSlots { expected: 7, got: slots.len() as usize })
        } else {
            match int_of(slots[4]) {
                Err(e) => Err(e),
                Ok(scale) => match uvec2_of(slots[6]) {
                    Err(e) => Err(e),
                    Ok(texture_size) => match uvec2_of(slots[5]) {
                        Err(e) => Err(e),
                        Ok(texture_pos) => match bool_of(slots[0]) {
                            Err(e) => Err(e),
                            Ok(flip_x) => match bool_of(slots[1]) {
                                Err(e) => Err(e),
                                Ok(flip_y) => match int_of(slots[2]) {
                                    Err(e) => Err(e),
                                    Ok(turns) => match rotation_of(turns) {
                                        Err(e) => Err(e),
                                        Ok(rotation) => match color_of(slots[3]) {
                                            Err(e) => Err(e),
                                            Ok(color) => Ok(
                                                SpriteParams {
                                                    texture_pos,
                                                    texture_size,
                                                    flip_x,
                                                    flip_y,
                                                    rotation,
                                                    color,
                                                    scale: scale as u8,
                                                },
                                            ),
                                        },
                                    },
                                },
                            },
                        },
                    },
                },
            }
        },
        _ => Err(ValueError::NotASpriteParam),
    }
}

/// Reads an int.
pub fn expect_int(value: &ScriptValue) -> (result: Result<i32, ValueError>)
    ensures
        result == int_of(value@),
{
    match value {
        ScriptValue::Int(i) => Ok(*i),
        _ => Err(ValueError::ExpectedInt),
    }
}

/// Reads a raw fixed-point number.
pub fn expect_float(value: &ScriptValue) -> (result: Result<i32, ValueError>)
    ensures
        result == float_of(value@),
{
    match value {
        ScriptValue::Float(raw) => Ok(*raw),
        _ => Err(ValueError::ExpectedFloat),
    }
}

/// Reads a bool.
pub fn as_bool(value: &ScriptValue) -> (result: Result<bool, ValueError>)
    ensures
        result == bool_of(value@),
{
    match value {
        ScriptValue::Bool(b) => Ok(*b),
        _ => Err(ValueError::ExpectedBool),
    }
}

/// Reads a tuple of three ints as a position.
pub fn vec3_like(v: &ScriptValue) -> (result: Result<Vec3, ValueError>)
    ensures
        result == vec3_of(v@),
{
    match v {
        ScriptValue::Tuple(fields) => {
            proof {
                lemma_views(fields@);
            }
            if fields.len() < 3 {
                return Err(ValueError::TooFewSlots { expected: 3, got: fields.len() });
            }
            let x = expect_int(&fields[0])?;
            let y = expect_int(&fields[1])?;
            let z = expect_int(&fields[2])?;
            Ok(Vec3 { x: x as i16, y: y as i16, z: z as i16 })
        },
        _ => Err(ValueError::NotAVec3),
    }
}

/// Reads a tuple of two ints as a size.
pub fn uvec2_like(v: &ScriptValue) -> (result: Result<UVec2, ValueError>)
    ensures
        result == uvec2_of(v@),
{
    match v {
        ScriptValue::Tuple(fields) => {
            proof {
                lemma_views(fields@);
            }
            if fields.len() < 2 {
                return Err(ValueError::TooFewSlots { expected: 2, got: fields.len() });
            }
            let width = expect_int(&fields[0])?;
            let height = expect_int(&fields[1])?;
            Ok(UVec2 { x: width as u16, y: height as u16 })
        },
        _ => Err(ValueError::NotAUVec2),
    }
}

/// Reads a struct of four floats as a colour.
pub fn color_like(v: &ScriptValue) -> (result: Result<Color, ValueError>)
    ensures
        result == color_of(v@),
{
    match v {
        ScriptValue::Struct(fields) => {
            proof {
                lemma_views(fields@);
            }
            if fields.len() < 4 {
                return Err(ValueError::TooFewSlots { expected: 4, got: fields.len() });
            }
            let r = expect_float(&fields[0])?;
            let g = expect_float(&fields[1])?;
            let b = expect_float(&fields[2])?;
            let a = expect_float(&fields[3])?;
            Ok(Color { r, g, b, a })
        },
        _ => Err(ValueError::NotAColor),
    }
}

/// Names the rotation of a number of quarter turns.
pub fn rotation(turns: i32) -> (result: Result<Rotation, ValueError>)
    ensures
        result == rotation_of(turns),
{
    let quarter = turns % 4;
    if quarter == 0 {
        Ok(Rotation::Degrees0)
    } else if quarter == 1 {
        Ok(Rotation::Degrees90)
    } else if quarter == 2 {
        Ok(Rotation::Degrees180)
    } else if quarter == 3 {
        Ok(Rotation::Degrees270)
    } else {
        Err(ValueError::WrongRotation)
    }
}

/// Reads the sprite parameters out of their struct.
pub fn sprite_params(sprite_params_struct: &ScriptValue) -> (result: Result<
    SpriteParams,
    ValueError,
>)
    ensures
        result == sprite_params_of(sprite_params_struct@),
{
    match sprite_params_struct {
        ScriptValue::Struct(fields) => {
            proof {
                lemma_views(fields@);
            }
            if fields.len() < 7 {
                return Err(ValueError::TooFewSlots { expected: 7, got: fields.len() });
            }
            let scale = expect_int(&fields[4])?;
            let texture_size = uvec2_like(&fields[6])?;
            let texture_pos = uvec2_like(&fields[5])?;
            let flip_x = as_bool(&fields[0])?;
            let flip_y = as_bool(&fields[1])?;
            let turns = expect_int(&fields[2])?;
            let rotation = rotation(turns)?;
            let color = color_like(&fields[3])?;
            Ok(
                SpriteParams {
                    texture_pos,
                    texture_size,
                    flip_x,
                    flip_y,
                    rotation,
                    color,
                    scale: scale as u8,
                },
            )
        },
        _ => Err(ValueError::NotASpriteParam),
    }
}

/// The definition of a struct through which a script sees a native service:
/// it has the one field `hidden`, of type unit.
pub fn create_empty_struct_type(type_id: u32, name: &str) -> (struct_type: StructType)
    ensures
        struct_type@ == (StructModel {
            type_id,
            name: name@,
            field_names: seq!["hidden"@],
            field_types: seq![TypeModel::Unit],
        }),
{
    let mut fields: Vec<StructField> = Vec::new();
    fields.push(StructField { name: "hidden".to_string(), field_type: ScriptType::Unit });
    let struct_type = StructType { type_id, name: name.to_string(), fields };
    proof {
        lemma_field_type_views(struct_type.fields@);
        assert(struct_type@.field_names =~= seq!["hidden"@]);
        assert(struct_type@.field_types =~= seq![TypeModel::Unit]);
    }
    struct_type
}

/// The definition of a native service's struct, and a value of it.
pub fn create_empty_struct_value_util(type_id: u32, name: &str) -> (pair: (ScriptValue, StructType))
    ensures
        pair.0@ == ValueModel::Struct(Seq::empty()),
        pair.1@ == (StructModel {
            type_id,
            name: name@,
            field_names: seq!["hidden"@],
            field_types: seq![TypeModel::Unit],
        }),
{
    let struct_type = create_empty_struct_type(type_id, name);
    (create_empty_struct_value(), struct_type)
}

/// A struct value without slots, as the script sees a native service.
pub fn create_empty_struct_value() -> (value: ScriptValue)
    ensures
        value@ == ValueModel::Struct(Seq::empty()),
{
    let slots: Vec<ScriptValue> = Vec::new();
    ScriptValue::Struct(slots)
}

} // verus!
