//! The native services that scripts call: drawing, assets and printing.
//!
//! A call arrives as a function and its argument values. It is decoded here
//! into one command for the host, which alone touches the screen and the
//! asset store. The first argument of every member function is the script's
//! own handle on the service and is not read.

use vstd::prelude::*;
use crate::registry::{registered_all, ExternalFunctionId, ExternalFunctions, RegistryError};
use crate::script::{
    color_like, color_of, expect_int, int_of, sprite_params, sprite_params_of, uvec2_like,
    uvec2_of, vec3_like, vec3_of, Color, SpriteParams, UVec2, ValueError, Vec3,
};
use crate::value::{lemma_views, views, ScriptValue, ValueModel};

verus! {

/// The number of the external type behind a material handle.
pub const MATERIAL_TYPE_NUMBER: u32 = 91;

/// The number of the external type behind a font handle.
pub const FONT_AND_MATERIAL_TYPE_NUMBER: u32 = 92;

/// The number of the external type behind a fixed atlas handle.
pub const FIXED_ATLAS_TYPE_NUMBER: u32 = 93;

/// An external type: a native type that scripts hold only through handles.
#[derive(Debug, Clone, PartialEq, Eq)]
pub struct ExternalType {
    pub name: String,
    pub number: u32,
}

/// The external types of the three kinds of asset handle.
#[derive(Debug, Clone, PartialEq, Eq)]
pub struct ExternalTypes {
    pub material: ExternalType,
    pub font_and_material: ExternalType,
    pub fixed_atlas: ExternalType,
}

/// The external types of the asset handles, under their fixed numbers.
pub fn create_external_types() -> (types: ExternalTypes)
    ensures
        types.material.number == MATERIAL_TYPE_NUMBER,
        types.material.name@ == "MaterialHandle"@,
        types.font_and_material.number == FONT_AND_MATERIAL_TYPE_NUMBER,
        types.font_and_material.name@ == "FontAndMaterial"@,
        types.fixed_atlas.number == FIXED_ATLAS_TYPE_NUMBER,
        types.fixed_atlas.name@ == "FixedAtlas"@,
{
    ExternalTypes {
        material: ExternalType {
            name: "MaterialHandle".to_string(),
            number: MATERIAL_TYPE_NUMBER,
        },
        font_and_material: ExternalType {
            name: "FontAndMaterial".to_string(),
            number: FONT_AND_MATERIAL_TYPE_NUMBER,
        },
        fixed_atlas: ExternalType {
            name: "FixedAtlas".to_string(),
            number: FIXED_ATLAS_TYPE_NUMBER,
        },
    }
}

/// What the script asked the display to be.
#[derive(Debug, Clone, Copy, PartialEq, Eq, Structural)]
pub struct DisplaySettings {
    pub scale: u16,
}

impl DisplaySettings {
    /// Settings that ask for nothing: a scale of zero leaves the window alone.
    pub fn new() -> (settings: Self)
        ensures
            settings.scale == 0,
    {
        Self { scale: 0 }
    }

    /// Asks for a window of `scale` times the virtual surface size.
    pub fn set_scale(&mut self, scale: u16)
        ensures
            final(self).scale == scale,
    {
        self.scale = scale;
    }
}

/// The window size that the display settings ask for: the virtual surface
/// size times the scale, or nothing where the scale is zero.
pub fn requested_surface_size(virtual_surface_size: UVec2, display_settings: &DisplaySettings) -> (size:
    Option<UVec2>)
    requires
        virtual_surface_size.x * display_settings.scale <= u16::MAX,
        virtual_surface_size.y * display_settings.scale <= u16::MAX,
    ensures
        display_settings.scale == 0 ==> size is None,
        display_settings.scale != 0 ==> size == Some(
            UVec2 {
                x: (virtual_surface_size.x * display_settings.scale) as u16,
                y: (virtual_surface_size.y * display_settings.scale) as u16,
            },
        ),
{
    if display_settings.scale != 0 {
        Some(
            UVec2 {
                x: virtual_surface_size.x * display_settings.scale,
                y: virtual_surface_size.y * display_settings.scale,
            },
        )
    } else {
        None
    }
}

/// A native function that a script can call.
#[derive(Debug, Clone, Copy, PartialEq, Eq, Structural)]
pub enum HostFunction {
    Print,
    MaterialPng,
    BmFont,
    FrameFixedGridMaterialPng,
    Sprite,
    SpriteEx,
    Quad,
    NineSlice,
    Text,
    SpriteAtlasFrame,
    SpriteAtlasFrameEx,
    SetVirtualResolution,
    SetResolutionScale,
}

/// One thing for the host to do. Handles are the host's indices for native
/// payloads.
#[derive(Debug, PartialEq, Eq)]
pub enum HostCommand {
    Print(ScriptValue),
    MaterialPng { name: String },
    BmFont { name: String },
    FrameFixedGridMaterialPng { name: String, grid_size: UVec2, texture_size: UVec2 },
    Sprite { position: Vec3, material: usize },
    SpriteEx { position: Vec3, material: usize, params: SpriteParams },
    Quad { position: Vec3, size: UVec2, color: Color },
    NineSlice {
        position: Vec3,
        size: UVec2,
        corner_size_in_texture: UVec2,
        window_size_in_texture: UVec2,
        material: usize,
        atlas_offset: UVec2,
        color: Color,
    },
    Text { position: Vec3, text: String, font: usize, color: Color },
    SpriteAtlasFrame { position: Vec3, frame: u16, atlas: usize },
    SpriteAtlasFrameEx { position: Vec3, frame: u16, atlas: usize, params: SpriteParams },
    SetVirtualResolution(UVec2),
    SetResolutionScale(u16),
}

/// Mathematical model of a host command.
pub enum CommandModel {
    Print(ValueModel),
    MaterialPng { name: Seq<char> },
    BmFont { name: Seq<char> },
    FrameFixedGridMaterialPng { name: Seq<char>, grid_size: UVec2, texture_size: UVec2 },
    Sprite { position: Vec3, material: usize },
    SpriteEx { position: Vec3, material: usize, params: SpriteParams },
    Quad { position: Vec3, size: UVec2, color: Color },
    NineSlice {
        position: Vec3,
        size: UVec2,
        corner_size_in_texture: UVec2,
        window_size_in_texture: UVec2,
        material: usize,
        atlas_offset: UVec2,
        color: Color,
    },
    Text { position: Vec3, text: Seq<char>, font: usize, color: Color },
    SpriteAtlasFrame { position: Vec3, frame: u16, atlas: usize },
    SpriteAtlasFrameEx { position: Vec3, frame: u16, atlas: usize, params: SpriteParams },
    SetVirtualResolution(UVec2),
    SetResolutionScale(u16),
}

impl View for HostCommand {
    type V = CommandModel;

    open spec fn view(&self) -> CommandModel {
        match self {
            HostCommand::Print(value) => CommandModel::Print(value@),
            HostCommand::MaterialPng { name } => CommandModel::MaterialPng { name: name@ },
            HostCommand::BmFont { name } => CommandModel::BmFont { name: name@ },
            HostCommand::FrameFixedGridMaterialPng { name, grid_size, texture_size } => {
                CommandModel::FrameFixedGridMaterialPng {
                    name: name@,
                    grid_size: *grid_size,
                    texture_size: *texture_size,
                }
            },
            HostCommand::Sprite { position, material } => CommandModel::Sprite {
                position: *position,
                material: *material,
            },
            HostCommand::SpriteEx { position, material, params } => CommandModel::SpriteEx {
                position: *position,
                material: *material,
                params: *params,
            },
            HostCommand::Quad { position, size, color } => CommandModel::Quad {
                position: *position,
                size: *size,
                color: *color,
            },
            HostCommand::NineSlice {
                position,
                size,
                corner_size_in_texture,
                window_size_in_texture,
                material,
                atlas_offset,
                color,
            } => CommandModel::NineSlice {
                position: *position,
                size: *size,
                corner_size_in_texture: *corner_size_in_texture,
                window_size_in_texture: *window_size_in_texture,
                material: *material,
                atlas_offset: *atlas_offset,
                color: *color,
            },
            HostCommand::Text { position, text, font, color } => CommandModel::Text {
                position: *position,
                text: text@,
                font: *font,
                color: *color,
            },
            HostCommand::SpriteAtlasFrame { position, frame, atlas } => {
                CommandModel::SpriteAtlasFrame {
                    position: *position,
                    frame: *frame,
                    atlas: *atlas,
                }
            },
            HostCommand::SpriteAtlasFrameEx { position, frame, atlas, params } => {
                CommandModel::SpriteAtlasFrameEx {
                    position: *position,
                    frame: *frame,
                    atlas: *atlas,
                    params: *params,
                }
            },
            HostCommand::SetVirtualResolution(size) => CommandModel::SetVirtualResolution(*size),
            HostCommand::SetResolutionScale(scale) => CommandModel::SetResolutionScale(*scale),
        }
    }
}

/// The argument at a position, or the complaint that too few were passed.
pub open spec fn argument_of(args: Seq<ValueModel>, index: int) -> Result<ValueModel, ValueError> {
    if 0 <= index < args.len() {
        Ok(args[index])
    } else {
        Err(
            ValueError::WrongNumberOfArguments {
                expected: (index + 1) as usize,
                got: args.len() as usize,
            },
        )
    }
}

/// The string that a value holds.
pub open spec fn string_of(value: ValueModel) -> Result<Seq<char>, ValueError> {
    match value {
        ValueModel::String(s) => Ok(s),
        _ => Err(ValueError::ExpectedString),
    }
}

/// The host's index behind a handle of the given external type: the value is a
/// struct whose first slot holds the native payload.
pub open spec fn handle_of(value: ValueModel, type_number: u32) -> Result<usize, ValueError> {
    match value {
        ValueModel::Struct(slots) => if slots.len() >= 1 {
            match slots[0] {
                ValueModel::Handle(number, payload) => if number == type_number {
                    Ok(payload)
                } else {
                    Err(ValueError::NotAHandle)
                },
                _ => Err(ValueError::NotAHandle),
            }
        } else {
            Err(ValueError::NotAHandle)
        },
        _ => Err(ValueError::NotAHandle),
    }
}

/// The atlas frame that an int names: its size without sign, where that fits
/// sixteen bits.
pub open spec fn frame_of(frame: i32) -> Result<u16, ValueError> {
    if -65535 <= frame <= 65535 {
        Ok(
            (if frame < 0 {
                -frame
            } else {
                frame as int
            }) as u16,
        )
    } else {
        Err(ValueError::FrameOutOfRange)
    }
}

/// The argument at a position, read as a position.
pub open spec fn position_argument(args: Seq<ValueModel>, index: int) -> Result<Vec3, ValueError> {
    match argument_of(args, index) {
        Ok(value) => vec3_of(value),
        Err(e) => Err(e),
    }
}

/// The argument at a position, read as a size.
pub open spec fn size_argument(args: Seq<ValueModel>, index: int) -> Result<UVec2, ValueError> {
    match argument_of(args, index) {
        Ok(value) => uvec2_of(value),
        Err(e) => Err(e),
    }
}

/// The argument at a position, read as a colour.
pub open spec fn color_argument(args: Seq<ValueModel>, index: int) -> Result<Color, ValueError> {
    match argument_of(args, index) {
        Ok(value) => color_of(value),
        Err(e) => Err(e),
    }
}

/// The argument at a position, read as sprite parameters.
pub open spec fn params_argument(args: Seq<ValueModel>, index: int) -> Result<
    SpriteParams,
    ValueError,
> {
    match argument_of(args, index) {
        Ok(value) => sprite_params_of(value),
        Err(e) => Err(e),
    }
}

/// The argument at a position, read as a string.
pub open spec fn string_argument(args: Seq<ValueModel>, index: int) -> Result<
    Seq<char>,
    ValueError,
> {
    match argument_of(args, index) {
        Ok(value) => string_of(value),
        Err(e) => Err(e),
    }
}

/// The argument at a position, read as an int.
pub open spec fn int_argument(args: Seq<ValueModel>, index: int) -> Result<i32, ValueError> {
    match argument_of(args, index) {
        Ok(value) => int_of(value),
        Err(e) => Err(e),
    }
}

/// The argument at a position, read as a handle of the given external type.
pub open spec fn handle_argument(args: Seq<ValueModel>, index: int, type_number: u32) -> Result<
    usize,
    ValueError,
> {
    match argument_of(args, index) {
        Ok(value) => handle_of(value, type_number),
        Err(e) => Err(e),
    }
}

/// The command that a call stands for, or the error of the first argument, in
/// the order in which the function reads them, that is not what it must be.
pub open spec fn command_of(function: HostFunction, args: Seq<ValueModel>) -> Result<
    CommandModel,
    ValueError,
> {
    match function {
        HostFunction::Print => if args.len() >= 1 {
            Ok(CommandModel::Print(args[0]))
        } else {
            Err(ValueError::WrongNumberOfArguments { expected: 1, got: 0 })
        },
        HostFunction::MaterialPng => match string_argument(args, 1) {
            Err(e) => Err(e),
            Ok(name) => Ok(CommandModel::MaterialPng { name }),
        },
        HostFunction::BmFont => match string_argument(args, 1) {
            Err(e) => Err(e),
            Ok(name) => Ok(CommandModel::BmFont { name }),
        },
        HostFunction::FrameFixedGridMaterialPng => match string_argument(args, 1) {
            Err(e) => Err(e),
            Ok(name) => match size_argument(args, 2) {
                Err(e) => Err(e),
                Ok(grid_size) => match size_argument(args, 3) {
                    Err(e) => Err(e),
                    Ok(texture_size) => Ok(
                        CommandModel::FrameFixedGridMaterialPng { name, grid_size, texture_size },
                    ),
                },
            },
        },
        HostFunction::Sprite => match position_argument(args, 1) {
            Err(e) => Err(e),
            Ok(position) => match handle_argument(args, 2, MATERIAL_TYPE_NUMBER) {
                Err(e) => Err(e),
                Ok(material) => Ok(CommandModel::Sprite { position, material }),
            },
        },
        HostFunction::SpriteEx => match position_argument(args, 1) {
            Err(e) => Err(e),
            Ok(position) => match handle_argument(args, 2, MATERIAL_TYPE_NUMBER) {
                Err(e) => Err(e),
                Ok(material) => match params_argument(args, 3) {
                    Err(e) => Err(e),
                    Ok(params) => Ok(CommandModel::SpriteEx { position, material, params }),
                },
            },
        },
        HostFunction::Quad => match position_argument(args, 1) {
            Err(e) => Err(e),
            Ok(position) => match size_argument(args, 2) {
                Err(e) => Err(e),
                Ok(size) => match color_argument(args, 3) {
                    Err(e) => Err(e),
                    Ok(color) => Ok(CommandModel::Quad { position, size, color }),
                },
            },
        },
        HostFunction::NineSlice => match position_argument(args, 1) {
            Err(e) => Err(e),
            Ok(position) => match size_argument(args, 2) {
                Err(e) => Err(e),
                Ok(size) => match size_argument(args, 3) {
                    Err(e) => Err(e),
                    Ok(corner_size_in_texture) => match size_argument(args, 4) {
                        Err(e) => Err(e),
                        Ok(window_size_in_texture) => match handle_argument(
                            args,
                            5,
                            MATERIAL_TYPE_NUMBER,
                        ) {
                            Err(e) => Err(e),
                            Ok(material) => match size_argument(args, 6) {
                                Err(e) => Err(e),
                                Ok(atlas_offset) => match color_argument(args, 7) {
                                    Err(e) => Err(e),
                                    Ok(color) => Ok(
                                        CommandModel::NineSlice {
                                            position,
                                            size,
                                            corner_size_in_texture,
                                            window_size_in_texture,
                                            material,
                                            atlas_offset,
                                            color,
                                        },
                                    ),
                                },
                            },
                        },
                    },
                },
            },
        },
        HostFunction::Text => match position_argument(args, 1) {
            Err(e) => Err(e),
            Ok(position) => match string_argument(args, 2) {
                Err(e) => Err(e),
                Ok(text) => match handle_argument(args, 3, FONT_AND_MATERIAL_TYPE_NUMBER) {
                    Err(e) => Err(e),
                    Ok(font) => match color_argument(args, 4) {
                        Err(e) => Err(e),
                        Ok(color) => Ok(CommandModel::Text { position, text, font, color }),
                    },
                },
            },
        },
        HostFunction::SpriteAtlasFrame => match position_argument(args, 1) {
            Err(e) => Err(e),
            Ok(position) => match handle_argument(args, 2, FIXED_ATLAS_TYPE_NUMBER) {
                Err(e) => Err(e),
                Ok(atlas) => match int_argument(args, 3) {
                    Err(e) => Err(e),
                    Ok(number) => match frame_of(number) {
                        Err(e) => Err(e),
                        Ok(frame) => Ok(CommandModel::SpriteAtlasFrame { position, frame, atlas }),
                    },
                },
            },
        },
        HostFunction::SpriteAtlasFrameEx => match position_argument(args, 1) {
            Err(e) => Err(e),
            Ok(position) => match handle_argument(args, 2, FIXED_ATLAS_TYPE_NUMBER) {
                Err(e) => Err(e),
                Ok(atlas) => match int_argument(args, 3) {
                    Err(e) => Err(e),
                    Ok(number) => match params_argument(args, 4) {
                        Err(e) => Err(e),
                        Ok(params) => match frame_of(number) {
                            Err(e) => Err(e),
                            Ok(frame) => Ok(
                                CommandModel::SpriteAtlasFrameEx { position, frame, atlas, params },
                            ),
                        },
                    },
                },
            },
        },
        HostFunction::SetVirtualResolution => match size_argument(args, 1) {
            Err(e) => Err(e),
            Ok(size) => Ok(CommandModel::SetVirtualResolution(size)),
        },
        HostFunction::SetResolutionScale => match int_argument(args, 1) {
            Err(e) => Err(e),
            Ok(scale) => Ok(CommandModel::SetResolutionScale(scale as u16)),
        },
    }
}

fn argument(args: &Vec<ScriptValue>, index: usize) -> (result: Result<&ScriptValue, ValueError>)
    requires
        index < usize::MAX,
    ensures
        match result {
            Ok(value) => argument_of(views(args@), index as int) == Ok::<ValueModel, ValueError>(
                value@,
            ),
            Err(e) => argument_of(views(args@), index as int) == Err::<ValueModel, ValueError>(e),
        },
{
    proof {
        lemma_views(args@);
    }
    if index < args.len() {
        Ok(&args[index])
    } else {
        Err(ValueError::WrongNumberOfArguments { expected: index + 1, got: args.len() })
    }
}

/// Reads a string.
pub fn expect_string(value: &ScriptValue) -> (result: Result<String, ValueError>)
    ensures
        match result {
            Ok(s) => string_of(value@) == Ok::<Seq<char>, ValueError>(s@),
            Err(e) => string_of(value@) == Err::<Seq<char>, ValueError>(e),
        },
{
    match value {
        ScriptValue::String(s) => Ok(s.clone()),
        _ => Err(ValueError::ExpectedString),
    }
}

/// Reads the host's index out of a handle of the given external type.
pub fn expect_handle(value: &ScriptValue, type_number: u32) -> (result: Result<usize, ValueError>)
    ensures
        result == handle_of(value@, type_number),
{
    match value {
        ScriptValue::Struct(slots) => {
            proof {
                lemma_views(slots@);
            }
            if slots.len() >= 1 {
                match &slots[0] {
                    ScriptValue::Handle(number, payload) => {
                        if *number == type_number {
                            Ok(*payload)
                        } else {
                            Err(ValueError::NotAHandle)
                        }
                    },
                    _ => Err(ValueError::NotAHandle),
                }
            } else {
                Err(ValueError::NotAHandle)
            }
        },
        _ => Err(ValueError::NotAHandle),
    }
}

/// Reads an atlas frame number.
pub fn expect_frame(frame: i32) -> (result: Result<u16, ValueError>)
    ensures
        result == frame_of(frame),
{
    if frame < -65535 || frame > 65535 {
        Err(ValueError::FrameOutOfRange)
    } else if frame < 0 {
        Ok((-frame) as u16)
    } else {
        Ok(frame as u16)
    }
}

/// Decodes one call of a native function into the command for the host.
pub fn host_call(function: HostFunction, args: &Vec<ScriptValue>) -> (result: Result<
    HostCommand,
    ValueError,
>)
    ensures
        match result {
            Ok(command) => command_of(function, views(args@)) == Ok::<CommandModel, ValueError>(
                command@,
            ),
            Err(e) => command_of(function, views(args@)) == Err::<CommandModel, ValueError>(e),
        },
{
    proof {
        lemma_views(args@);
    }
    match function {
        HostFunction::Print => {
            if args.len() >= 1 {
                Ok(HostCommand::Print(args[0].duplicate()))
            } else {
                Err(ValueError::WrongNumberOfArguments { expected: 1, got: 0 })
            }
        },
        HostFunction::MaterialPng => {
            let name = expect_string(argument(args, 1)?)?;
            Ok(HostCommand::MaterialPng { name })
        },
        HostFunction::BmFont => {
            let name = expect_string(argument(args, 1)?)?;
            Ok(HostCommand::BmFont { name })
        },
        HostFunction::FrameFixedGridMaterialPng => {
            let name = expect_string(argument(args, 1)?)?;
            let grid_size = uvec2_like(argument(args, 2)?)?;
            let texture_size = uvec2_like(argument(args, 3)?)?;
            Ok(HostCommand::FrameFixedGridMaterialPng { name, grid_size, texture_size })
        },
        HostFunction::Sprite => {
            let position = vec3_like(argument(args, 1)?)?;
            let material = expect_handle(argument(args, 2)?, MATERIAL_TYPE_NUMBER)?;
            Ok(HostCommand::Sprite { position, material })
        },
        HostFunction::SpriteEx => {
            let position = vec3_like(argument(args, 1)?)?;
            let material = expect_handle(argument(args, 2)?, MATERIAL_TYPE_NUMBER)?;
            let params = sprite_params(argument(args, 3)?)?;
            Ok(HostCommand::SpriteEx { position, material, params })
        },
        HostFunction::Quad => {
            let position = vec3_like(argument(args, 1)?)?;
            let size = uvec2_like(argument(args, 2)?)?;
            let color = color_like(argument(args, 3)?)?;
            Ok(HostCommand::Quad { position, size, color })
        },
        HostFunction::NineSlice => {
            let position = vec3_like(argument(args, 1)?)?;
            let size = uvec2_like(argument(args, 2)?)?;
            let corner_size_in_texture = uvec2_like(argument(args, 3)?)?;
            let window_size_in_texture = uvec2_like(argument(args, 4)?)?;
            let material = expect_handle(argument(args, 5)?, MATERIAL_TYPE_NUMBER)?;
            let atlas_offset = uvec2_like(argument(args, 6)?)?;
            let color = color_like(argument(args, 7)?)?;
            Ok(
                HostCommand::NineSlice {
                    position,
                    size,
                    corner_size_in_texture,
                    window_size_in_texture,
                    material,
                    atlas_offset,
                    color,
                },
            )
        },
        HostFunction::Text => {
            let position = vec3_like(argument(args, 1)?)?;
            let text = expect_string(argument(args, 2)?)?;
            let font = expect_handle(argument(args, 3)?, FONT_AND_MATERIAL_TYPE_NUMBER)?;
            let color = color_like(argument(args, 4)?)?;
            Ok(HostCommand::Text { position, text, font, color })
        },
        HostFunction::SpriteAtlasFrame => {
            let position = vec3_like(argument(args, 1)?)?;
            let atlas = expect_handle(argument(args, 2)?, FIXED_ATLAS_TYPE_NUMBER)?;
            let number = expect_int(argument(args, 3)?)?;
            let frame = expect_frame(number)?;
            Ok(HostCommand::SpriteAtlasFrame { position, frame, atlas })
        },
        HostFunction::SpriteAtlasFrameEx => {
            let position = vec3_like(argument(args, 1)?)?;
            let atlas = expect_handle(argument(args, 2)?, FIXED_ATLAS_TYPE_NUMBER)?;
            let number = expect_int(argument(args, 3)?)?;
            let params = sprite_params(argument(args, 4)?)?;
            let frame = expect_frame(number)?;
            Ok(HostCommand::SpriteAtlasFrameEx { position, frame, atlas, params })
        },
        HostFunction::SetVirtualResolution => {
            let size = uvec2_like(argument(args, 1)?)?;
            Ok(HostCommand::SetVirtualResolution(size))
        },
        HostFunction::SetResolutionScale => {
            let scale = expect_int(argument(args, 1)?)?;
            Ok(HostCommand::SetResolutionScale(scale as u16))
        },
    }
}


impl HostFunction {
    /// The name under which scripts declare the function.
    pub fn member_name(self) -> (name: &'static str)
        ensures
            name@ == member_name_of(self),
    {
        match self {
            HostFunction::Print => "print",
            HostFunction::MaterialPng => "material_png",
            HostFunction::BmFont => "bm_font",
            HostFunction::FrameFixedGridMaterialPng => "frame_fixed_grid_material_png",
            HostFunction::Sprite => "sprite",
            HostFunction::SpriteEx => "sprite_ex",
            HostFunction::Quad => "quad",
            HostFunction::NineSlice => "nine_slice",
            HostFunction::Text => "text",
            HostFunction::SpriteAtlasFrame => "sprite_atlas_frame",
            HostFunction::SpriteAtlasFrameEx => "sprite_atlas_frame_ex",
            HostFunction::SetVirtualResolution => "set_virtual_resolution",
            HostFunction::SetResolutionScale => "set_resolution_scale",
        }
    }
}

/// The name under which scripts declare a native function.
pub open spec fn member_name_of(function: HostFunction) -> Seq<char> {
    match function {
        HostFunction::Print => "print"@,
        HostFunction::MaterialPng => "material_png"@,
        HostFunction::BmFont => "bm_font"@,
        HostFunction::FrameFixedGridMaterialPng => "frame_fixed_grid_material_png"@,
        HostFunction::Sprite => "sprite"@,
        HostFunction::SpriteEx => "sprite_ex"@,
        HostFunction::Quad => "quad"@,
        HostFunction::NineSlice => "nine_slice"@,
        HostFunction::Text => "text"@,
        HostFunction::SpriteAtlasFrame => "sprite_atlas_frame"@,
        HostFunction::SpriteAtlasFrameEx => "sprite_atlas_frame_ex"@,
        HostFunction::SetVirtualResolution => "set_virtual_resolution"@,
        HostFunction::SetResolutionScale => "set_resolution_scale"@,
    }
}

/// The ids that analysis gave to the member functions of the drawing service.
#[derive(Debug, Clone, Copy)]
pub struct GfxFunctionIds {
    pub sprite: ExternalFunctionId,
    pub sprite_ex: ExternalFunctionId,
    pub quad: ExternalFunctionId,
    pub nine_slice: ExternalFunctionId,
    pub text: ExternalFunctionId,
    pub sprite_atlas_frame: ExternalFunctionId,
    pub sprite_atlas_frame_ex: ExternalFunctionId,
    pub set_virtual_resolution: ExternalFunctionId,
    pub set_resolution_scale: ExternalFunctionId,
}

/// The ids that analysis gave to the member functions of the asset service.
#[derive(Debug, Clone, Copy)]
pub struct AssetFunctionIds {
    pub material_png: ExternalFunctionId,
    pub bm_font: ExternalFunctionId,
    pub frame_fixed_grid_material_png: ExternalFunctionId,
}

/// The bindings of the drawing service, in the order in which they are made.
pub open spec fn gfx_members(ids: GfxFunctionIds) -> Seq<(ExternalFunctionId, HostFunction)> {
    seq![
        (ids.sprite, HostFunction::Sprite),
        (ids.sprite_ex, HostFunction::SpriteEx),
        (ids.quad, HostFunction::Quad),
        (ids.nine_slice, HostFunction::NineSlice),
        (ids.text, HostFunction::Text),
        (ids.sprite_atlas_frame, HostFunction::SpriteAtlasFrame),
        (ids.sprite_atlas_frame_ex, HostFunction::SpriteAtlasFrameEx),
        (ids.set_virtual_resolution, HostFunction::SetVirtualResolution),
        (ids.set_resolution_scale, HostFunction::SetResolutionScale),
    ]
}

/// The bindings of the asset service, in the order in which they are made.
pub open spec fn assets_members(ids: AssetFunctionIds) -> Seq<(ExternalFunctionId, HostFunction)> {
    seq![
        (ids.material_png, HostFunction::MaterialPng),
        (ids.bm_font, HostFunction::BmFont),
        (ids.frame_fixed_grid_material_png, HostFunction::FrameFixedGridMaterialPng),
    ]
}

/// The outcome of binding entries, as the registry reports it.
pub open spec fn registration_result(
    bindings: Map<ExternalFunctionId, HostFunction>,
    entries: Seq<(ExternalFunctionId, HostFunction)>,
) -> Result<(), RegistryError> {
    match registered_all(bindings, entries).1 {
        Some(function_id) => Err(RegistryError::AlreadyRegistered(function_id)),
        None => Ok(()),
    }
}

/// Binds the member functions of the drawing service to their ids.
pub fn register_gfx_members(ids: &GfxFunctionIds, externals: &mut ExternalFunctions) -> (result:
    Result<(), RegistryError>)
    ensures
        final(externals)@ == registered_all(old(externals)@, gfx_members(*ids)).0,
        result == registration_result(old(externals)@, gfx_members(*ids)),
{
    let mut entries: Vec<(ExternalFunctionId, HostFunction)> = Vec::new();
    entries.push((ids.sprite, HostFunction::Sprite));
    entries.push((ids.sprite_ex, HostFunction::SpriteEx));
    entries.push((ids.quad, HostFunction::Quad));
    entries.push((ids.nine_slice, HostFunction::NineSlice));
    entries.push((ids.text, HostFunction::Text));
    entries.push((ids.sprite_atlas_frame, HostFunction::SpriteAtlasFrame));
    entries.push((ids.sprite_atlas_frame_ex, HostFunction::SpriteAtlasFrameEx));
    entries.push((ids.set_virtual_resolution, HostFunction::SetVirtualResolution));
    entries.push((ids.set_resolution_scale, HostFunction::SetResolutionScale));
    assert(entries@ =~= gfx_members(*ids));
    externals.register_all(&entries)
}

/// Binds the member functions of the asset service to their ids.
pub fn register_assets_members(ids: &AssetFunctionIds, externals: &mut ExternalFunctions) -> (result:
    Result<(), RegistryError>)
    ensures
        final(externals)@ == registered_all(old(externals)@, assets_members(*ids)).0,
        result == registration_result(old(externals)@, assets_members(*ids)),
{
    let mut entries: Vec<(ExternalFunctionId, HostFunction)> = Vec::new();
    entries.push((ids.material_png, HostFunction::MaterialPng));
    entries.push((ids.bm_font, HostFunction::BmFont));
    entries.push((ids.frame_fixed_grid_material_png, HostFunction::FrameFixedGridMaterialPng));
    assert(entries@ =~= assets_members(*ids));
    externals.register_all(&entries)
}

/// Binds `print` to its id. The id is not bound yet: to bind `print` twice in
/// one generation is a mistake of the host, not an outcome.
pub fn register_print(print_id: ExternalFunctionId, externals: &mut ExternalFunctions)
    requires
        !old(externals)@.contains_key(print_id),
    ensures
        final(externals)@ == old(externals)@.insert(print_id, HostFunction::Print),
{
    let _ = externals.register_external_function(print_id, HostFunction::Print);
}

/// Bindings whose ids are new and all different are all made.
pub proof fn lemma_registered_all_new(
    bindings: Map<ExternalFunctionId, HostFunction>,
    entries: Seq<(ExternalFunctionId, HostFunction)>,
)
    requires
        forall|i: int| 0 <= i < entries.len() ==> !bindings.contains_key(#[trigger] entries[i].0),
        forall|i: int, j: int|
            0 <= i < j < entries.len() ==> (#[trigger] entries[i]).0 != (#[trigger] entries[j]).0,
    ensures
        registered_all(bindings, entries).1 is None,
        forall|i: int|
            0 <= i < entries.len() ==> registered_all(bindings, entries).0.contains_key(
                (#[trigger] entries[i]).0,
            ) && registered_all(bindings, entries).0[entries[i].0] == entries[i].1,
        forall|function_id: ExternalFunctionId|
            #![trigger bindings.contains_key(function_id)]
            bindings.contains_key(function_id) ==> registered_all(
                bindings,
                entries,
            ).0.contains_key(function_id) && registered_all(bindings, entries).0[function_id]
                == bindings[function_id],
    decreases entries.len(),
{
    if entries.len() > 0 {
        let next = bindings.insert(entries[0].0, entries[0].1);
        let rest = entries.skip(1);
        assert forall|i: int| 0 <= i < rest.len() implies !next.contains_key(
            #[trigger] rest[i].0,
        ) by {
            assert(rest[i] == entries[i + 1]);
        }
        assert forall|i: int, j: int| 0 <= i < j < rest.len() implies (#[trigger] rest[i]).0 != (
        #[trigger] rest[j]).0 by {
            assert(rest[i] == entries[i + 1]);
            assert(rest[j] == entries[j + 1]);
        }
        lemma_registered_all_new(next, rest);
        assert(!bindings.contains_key(entries[0].0));
        assert(registered_all(bindings, entries) == registered_all(next, rest));
        assert(next.contains_key(entries[0].0));
        assert forall|function_id: ExternalFunctionId|
            #![trigger bindings.contains_key(function_id)]
            bindings.contains_key(function_id) implies registered_all(
            bindings,
            entries,
        ).0.contains_key(function_id) && registered_all(bindings, entries).0[function_id]
            == bindings[function_id] by {
            assert(next.contains_key(function_id));
        }
        assert forall|i: int| 0 <= i < entries.len() implies registered_all(
            bindings,
            entries,
        ).0.contains_key((#[trigger] entries[i]).0) && registered_all(
            bindings,
            entries,
        ).0[entries[i].0] == entries[i].1 by {
            if i > 0 {
                assert(rest[i - 1] == entries[i]);
            }
        }
    }
}


/// The value through which a script holds a native payload: a struct whose
/// only slot is the handle.
pub open spec fn handle_value(type_number: u32, payload: usize) -> ValueModel {
    ValueModel::Struct(seq![ValueModel::Handle(type_number, payload)])
}

fn hidden_handle(type_number: u32, payload: usize) -> (value: ScriptValue)
    ensures
        value@ == handle_value(type_number, payload),
{
    let mut slots: Vec<ScriptValue> = Vec::new();
    slots.push(ScriptValue::Handle(type_number, payload));
    proof {
        lemma_views(slots@);
        assert(views(slots@) =~= seq![ValueModel::Handle(type_number, payload)]);
    }
    ScriptValue::Struct(slots)
}

/// The script's handle on a material that the host holds at `payload`.
pub fn material_handle(payload: usize) -> (value: ScriptValue)
    ensures
        value@ == handle_value(MATERIAL_TYPE_NUMBER, payload),
{
    hidden_handle(MATERIAL_TYPE_NUMBER, payload)
}

/// The script's handle on a fixed atlas that the host holds at `payload`.
pub fn fixed_atlas_handle(payload: usize) -> (value: ScriptValue)
    ensures
        value@ == handle_value(FIXED_ATLAS_TYPE_NUMBER, payload),
{
    hidden_handle(FIXED_ATLAS_TYPE_NUMBER, payload)
}

/// The script's handle on a font that the host holds at `payload`.
pub fn font_and_material_handle(payload: usize) -> (value: ScriptValue)
    ensures
        value@ == handle_value(FONT_AND_MATERIAL_TYPE_NUMBER, payload),
{
    hidden_handle(FONT_AND_MATERIAL_TYPE_NUMBER, payload)
}

/// A handle gives back the payload that it was made for, to the one who asks
/// for its own external type, and to nobody else.
pub proof fn lemma_handle_round_trip(type_number: u32, payload: usize, asked: u32)
    ensures
        handle_of(handle_value(type_number, payload), asked) == if asked == type_number {
            Ok::<usize, ValueError>(payload)
        } else {
            Err::<usize, ValueError>(ValueError::NotAHandle)
        },
{
}


/// The models of a run of commands.
pub open spec fn command_views(commands: Seq<HostCommand>) -> Seq<CommandModel> {
    Seq::new(commands.len(), |i: int| commands[i]@)
}

/// The scale that the first `count` commands of a render leave: that of the
/// last command among them that set the scale, or zero where none did.
pub open spec fn scale_after(commands: Seq<CommandModel>, count: nat) -> u16
    decreases count,
{
    if count == 0 {
        0
    } else {
        match commands[count - 1] {
            CommandModel::SetResolutionScale(scale) => scale,
            _ => scale_after(commands, (count - 1) as nat),
        }
    }
}

/// The display settings that one render leaves behind. Every render starts
/// from settings that ask for nothing.
pub fn render_display_settings(commands: &Vec<HostCommand>) -> (settings: DisplaySettings)
    ensures
        settings.scale == scale_after(command_views(commands@), commands@.len()),
{
    let mut settings = DisplaySettings::new();
    let mut i: usize = 0;
    while i < commands.len()
        invariant
            i <= commands.len(),
            settings.scale == scale_after(command_views(commands@), i as nat),
        decreases commands.len() - i,
    {
        match &commands[i] {
            HostCommand::SetResolutionScale(scale) => {
                settings.set_scale(*scale);
            },
            _ => {},
        }
        i += 1;
    }
    settings
}

} // verus!
