use mangrove::registry::{ExternalFunctions, InvokeError, RegistryError};
use mangrove::render::{
    create_external_types, expect_frame, expect_handle, expect_string, fixed_atlas_handle,
    font_and_material_handle, host_call, material_handle, register_assets_members,
    register_gfx_members, register_print, render_display_settings, requested_surface_size,
    AssetFunctionIds,
    DisplaySettings, GfxFunctionIds, HostCommand, HostFunction,
};
use mangrove::script::{Color, Rotation, SpriteParams, UVec2, ValueError, Vec3};
use mangrove::value::ScriptValue;

fn ints(values: &[i32]) -> ScriptValue {
    ScriptValue::Tuple(values.iter().map(|v| ScriptValue::Int(*v)).collect())
}

fn color() -> ScriptValue {
    ScriptValue::Struct(vec![
        ScriptValue::Float(1),
        ScriptValue::Float(2),
        ScriptValue::Float(3),
        ScriptValue::Float(4),
    ])
}

fn params() -> ScriptValue {
    ScriptValue::Struct(vec![
        ScriptValue::Bool(false),
        ScriptValue::Bool(true),
        ScriptValue::Int(1),
        color(),
        ScriptValue::Int(3),
        ints(&[0, 8]),
        ints(&[16, 16]),
    ])
}

fn read_params() -> SpriteParams {
    SpriteParams {
        texture_pos: UVec2 { x: 0, y: 8 },
        texture_size: UVec2 { x: 16, y: 16 },
        flip_x: false,
        flip_y: true,
        rotation: Rotation::Degrees90,
        color: read_color(),
        scale: 3,
    }
}

fn read_color() -> Color {
    Color { r: 1, g: 2, b: 3, a: 4 }
}

fn text(s: &str) -> ScriptValue {
    ScriptValue::String(s.to_string())
}

fn this() -> ScriptValue {
    ScriptValue::Struct(vec![])
}

fn gfx_ids() -> GfxFunctionIds {
    GfxFunctionIds {
        sprite: 10,
        sprite_ex: 11,
        quad: 12,
        nine_slice: 13,
        text: 14,
        sprite_atlas_frame: 15,
        sprite_atlas_frame_ex: 16,
        set_virtual_resolution: 17,
        set_resolution_scale: 18,
    }
}

#[test]
fn print_with_one_string_is_one_command_to_print_it() {
    let mut externals = ExternalFunctions::new();
    register_print(3, &mut externals);
    assert_eq!(externals.invoke(3, &vec![text("hello")]), Ok(HostCommand::Print(text("hello"))));
}

#[test]
fn print_takes_any_value_and_needs_one() {
    assert_eq!(
        host_call(HostFunction::Print, &vec![ScriptValue::Int(5), text("more")]),
        Ok(HostCommand::Print(ScriptValue::Int(5)))
    );
    assert_eq!(
        host_call(HostFunction::Print, &vec![]),
        Err(ValueError::WrongNumberOfArguments { expected: 1, got: 0 })
    );
}

#[test]
fn call_through_an_unbound_id_is_an_error() {
    let mut externals = ExternalFunctions::new();
    assert_eq!(externals.invoke(3, &vec![text("hello")]), Err(InvokeError::NotRegistered(3)));
    register_print(3, &mut externals);
    assert_eq!(externals.invoke(4, &vec![text("hello")]), Err(InvokeError::NotRegistered(4)));
    assert_eq!(externals.lookup(4), None);
    assert_eq!(externals.lookup(3), Some(HostFunction::Print));
}

#[test]
fn id_is_bound_once() {
    let mut externals = ExternalFunctions::new();
    assert_eq!(externals.register_external_function(3, HostFunction::Quad), Ok(()));
    assert_eq!(
        externals.register_external_function(3, HostFunction::Print),
        Err(RegistryError::AlreadyRegistered(3))
    );
    assert_eq!(externals.lookup(3), Some(HostFunction::Quad));
}

#[test]
fn refused_arguments_are_a_value_error() {
    let mut externals = ExternalFunctions::new();
    externals.register_external_function(3, HostFunction::SetVirtualResolution).unwrap();
    assert_eq!(
        externals.invoke(3, &vec![this(), text("wide")]),
        Err(InvokeError::Value(ValueError::NotAUVec2))
    );
}

#[test]
fn gfx_members_are_bound_to_their_ids() {
    let mut externals = ExternalFunctions::new();
    assert_eq!(register_gfx_members(&gfx_ids(), &mut externals), Ok(()));
    assert_eq!(externals.lookup(10), Some(HostFunction::Sprite));
    assert_eq!(externals.lookup(11), Some(HostFunction::SpriteEx));
    assert_eq!(externals.lookup(12), Some(HostFunction::Quad));
    assert_eq!(externals.lookup(13), Some(HostFunction::NineSlice));
    assert_eq!(externals.lookup(14), Some(HostFunction::Text));
    assert_eq!(externals.lookup(15), Some(HostFunction::SpriteAtlasFrame));
    assert_eq!(externals.lookup(16), Some(HostFunction::SpriteAtlasFrameEx));
    assert_eq!(externals.lookup(17), Some(HostFunction::SetVirtualResolution));
    assert_eq!(externals.lookup(18), Some(HostFunction::SetResolutionScale));
    assert_eq!(externals.lookup(19), None);
}

#[test]
fn gfx_members_stop_at_the_first_id_that_is_bound() {
    let mut externals = ExternalFunctions::new();
    register_print(12, &mut externals);
    assert_eq!(
        register_gfx_members(&gfx_ids(), &mut externals),
        Err(RegistryError::AlreadyRegistered(12))
    );
    assert_eq!(externals.lookup(10), Some(HostFunction::Sprite));
    assert_eq!(externals.lookup(11), Some(HostFunction::SpriteEx));
    assert_eq!(externals.lookup(12), Some(HostFunction::Print));
    assert_eq!(externals.lookup(13), None);
}

#[test]
fn assets_members_are_bound_to_their_ids() {
    let mut externals = ExternalFunctions::new();
    let ids = AssetFunctionIds { material_png: 1, bm_font: 2, frame_fixed_grid_material_png: 3 };
    assert_eq!(register_assets_members(&ids, &mut externals), Ok(()));
    assert_eq!(externals.lookup(1), Some(HostFunction::MaterialPng));
    assert_eq!(externals.lookup(2), Some(HostFunction::BmFont));
    assert_eq!(externals.lookup(3), Some(HostFunction::FrameFixedGridMaterialPng));
    let twice = AssetFunctionIds { material_png: 7, bm_font: 7, frame_fixed_grid_material_png: 8 };
    assert_eq!(
        register_assets_members(&twice, &mut externals),
        Err(RegistryError::AlreadyRegistered(7))
    );
    assert_eq!(externals.lookup(7), Some(HostFunction::MaterialPng));
    assert_eq!(externals.lookup(8), None);
}

#[test]
fn member_names_are_those_of_the_script() {
    assert_eq!(HostFunction::Print.member_name(), "print");
    assert_eq!(HostFunction::MaterialPng.member_name(), "material_png");
    assert_eq!(HostFunction::BmFont.member_name(), "bm_font");
    assert_eq!(
        HostFunction::FrameFixedGridMaterialPng.member_name(),
        "frame_fixed_grid_material_png"
    );
    assert_eq!(HostFunction::Sprite.member_name(), "sprite");
    assert_eq!(HostFunction::SpriteEx.member_name(), "sprite_ex");
    assert_eq!(HostFunction::Quad.member_name(), "quad");
    assert_eq!(HostFunction::NineSlice.member_name(), "nine_slice");
    assert_eq!(HostFunction::Text.member_name(), "text");
    assert_eq!(HostFunction::SpriteAtlasFrame.member_name(), "sprite_atlas_frame");
    assert_eq!(HostFunction::SpriteAtlasFrameEx.member_name(), "sprite_atlas_frame_ex");
    assert_eq!(HostFunction::SetVirtualResolution.member_name(), "set_virtual_resolution");
    assert_eq!(HostFunction::SetResolutionScale.member_name(), "set_resolution_scale");
}

#[test]
fn asset_calls_are_decoded() {
    assert_eq!(
        host_call(HostFunction::MaterialPng, &vec![this(), text("player")]),
        Ok(HostCommand::MaterialPng { name: "player".to_string() })
    );
    assert_eq!(
        host_call(HostFunction::BmFont, &vec![this(), text("menu")]),
        Ok(HostCommand::BmFont { name: "menu".to_string() })
    );
    assert_eq!(
        host_call(
            HostFunction::FrameFixedGridMaterialPng,
            &vec![this(), text("tiles"), ints(&[16, 16]), ints(&[256, 128])]
        ),
        Ok(HostCommand::FrameFixedGridMaterialPng {
            name: "tiles".to_string(),
            grid_size: UVec2 { x: 16, y: 16 },
            texture_size: UVec2 { x: 256, y: 128 },
        })
    );
    assert_eq!(
        host_call(HostFunction::MaterialPng, &vec![this(), ScriptValue::Int(1)]),
        Err(ValueError::ExpectedString)
    );
    assert_eq!(
        host_call(HostFunction::BmFont, &vec![this()]),
        Err(ValueError::WrongNumberOfArguments { expected: 2, got: 1 })
    );
}

#[test]
fn draw_calls_are_decoded() {
    let position = Vec3 { x: 1, y: 2, z: 3 };
    assert_eq!(
        host_call(HostFunction::Sprite, &vec![this(), ints(&[1, 2, 3]), material_handle(5)]),
        Ok(HostCommand::Sprite { position, material: 5 })
    );
    assert_eq!(
        host_call(
            HostFunction::SpriteEx,
            &vec![this(), ints(&[1, 2, 3]), material_handle(5), params()]
        ),
        Ok(HostCommand::SpriteEx { position, material: 5, params: read_params() })
    );
    assert_eq!(
        host_call(HostFunction::Quad, &vec![this(), ints(&[1, 2, 3]), ints(&[8, 9]), color()]),
        Ok(HostCommand::Quad { position, size: UVec2 { x: 8, y: 9 }, color: read_color() })
    );
    assert_eq!(
        host_call(
            HostFunction::NineSlice,
            &vec![
                this(),
                ints(&[1, 2, 3]),
                ints(&[100, 50]),
                ints(&[4, 4]),
                ints(&[32, 32]),
                material_handle(6),
                ints(&[64, 0]),
                color(),
            ]
        ),
        Ok(HostCommand::NineSlice {
            position,
            size: UVec2 { x: 100, y: 50 },
            corner_size_in_texture: UVec2 { x: 4, y: 4 },
            window_size_in_texture: UVec2 { x: 32, y: 32 },
            material: 6,
            atlas_offset: UVec2 { x: 64, y: 0 },
            color: read_color(),
        })
    );
    assert_eq!(
        host_call(
            HostFunction::Text,
            &vec![this(), ints(&[1, 2, 3]), text("score"), font_and_material_handle(2), color()]
        ),
        Ok(HostCommand::Text { position, text: "score".to_string(), font: 2, color: read_color() })
    );
    assert_eq!(
        host_call(
            HostFunction::SpriteAtlasFrame,
            &vec![this(), ints(&[1, 2, 3]), fixed_atlas_handle(4), ScriptValue::Int(-7)]
        ),
        Ok(HostCommand::SpriteAtlasFrame { position, frame: 7, atlas: 4 })
    );
    assert_eq!(
        host_call(
            HostFunction::SpriteAtlasFrameEx,
            &vec![this(), ints(&[1, 2, 3]), fixed_atlas_handle(4), ScriptValue::Int(9), params()]
        ),
        Ok(HostCommand::SpriteAtlasFrameEx { position, frame: 9, atlas: 4, params: read_params() })
    );
}

#[test]
fn display_calls_are_decoded() {
    assert_eq!(
        host_call(HostFunction::SetVirtualResolution, &vec![this(), ints(&[320, 180])]),
        Ok(HostCommand::SetVirtualResolution(UVec2 { x: 320, y: 180 }))
    );
    assert_eq!(
        host_call(HostFunction::SetResolutionScale, &vec![this(), ScriptValue::Int(5)]),
        Ok(HostCommand::SetResolutionScale(5))
    );
    assert_eq!(
        host_call(HostFunction::SetResolutionScale, &vec![this(), ScriptValue::Int(65541)]),
        Ok(HostCommand::SetResolutionScale(5))
    );
}

#[test]
fn first_wrong_argument_decides_the_error() {
    assert_eq!(
        host_call(HostFunction::Sprite, &vec![this(), ScriptValue::Int(1), ScriptValue::Int(2)]),
        Err(ValueError::NotAVec3)
    );
    assert_eq!(
        host_call(HostFunction::Sprite, &vec![this(), ints(&[1, 2, 3]), fixed_atlas_handle(1)]),
        Err(ValueError::NotAHandle)
    );
    assert_eq!(
        host_call(
            HostFunction::SpriteAtlasFrameEx,
            &vec![this(), ints(&[1, 2, 3]), fixed_atlas_handle(4), ScriptValue::Int(70000), this()]
        ),
        Err(ValueError::TooFewSlots { expected: 7, got: 0 })
    );
    assert_eq!(
        host_call(
            HostFunction::SpriteAtlasFrame,
            &vec![this(), ints(&[1, 2, 3]), fixed_atlas_handle(4), ScriptValue::Int(70000)]
        ),
        Err(ValueError::FrameOutOfRange)
    );
    assert_eq!(
        host_call(HostFunction::Quad, &vec![this(), ints(&[1, 2, 3]), ints(&[8, 9])]),
        Err(ValueError::WrongNumberOfArguments { expected: 4, got: 3 })
    );
    assert_eq!(
        host_call(HostFunction::Text, &vec![this(), ints(&[1, 2, 3]), color()]),
        Err(ValueError::ExpectedString)
    );
}

#[test]
fn handles_give_back_their_payload() {
    assert_eq!(expect_handle(&material_handle(5), 91), Ok(5));
    assert_eq!(expect_handle(&font_and_material_handle(6), 92), Ok(6));
    assert_eq!(expect_handle(&fixed_atlas_handle(7), 93), Ok(7));
    assert_eq!(expect_handle(&material_handle(5), 92), Err(ValueError::NotAHandle));
    assert_eq!(expect_handle(&this(), 91), Err(ValueError::NotAHandle));
    assert_eq!(expect_handle(&ScriptValue::Handle(91, 5), 91), Err(ValueError::NotAHandle));
    assert_eq!(
        expect_handle(&ScriptValue::Struct(vec![ScriptValue::Int(5)]), 91),
        Err(ValueError::NotAHandle)
    );
}

#[test]
fn frames_lose_their_sign_and_must_fit() {
    assert_eq!(expect_frame(0), Ok(0));
    assert_eq!(expect_frame(65535), Ok(65535));
    assert_eq!(expect_frame(-65535), Ok(65535));
    assert_eq!(expect_frame(65536), Err(ValueError::FrameOutOfRange));
    assert_eq!(expect_frame(i32::MIN), Err(ValueError::FrameOutOfRange));
}

#[test]
fn strings_are_read_or_refused() {
    assert_eq!(expect_string(&text("a")), Ok("a".to_string()));
    assert_eq!(expect_string(&ScriptValue::Unit), Err(ValueError::ExpectedString));
}

#[test]
fn external_types_have_their_fixed_numbers() {
    let types = create_external_types();
    assert_eq!(types.material.name, "MaterialHandle");
    assert_eq!(types.material.number, 91);
    assert_eq!(types.font_and_material.name, "FontAndMaterial");
    assert_eq!(types.font_and_material.number, 92);
    assert_eq!(types.fixed_atlas.name, "FixedAtlas");
    assert_eq!(types.fixed_atlas.number, 93);
}

#[test]
fn window_size_is_virtual_size_times_scale() {
    let mut settings = DisplaySettings::new();
    assert_eq!(settings.scale, 0);
    assert_eq!(requested_surface_size(UVec2 { x: 320, y: 180 }, &settings), None);
    settings.set_scale(5);
    assert_eq!(
        requested_surface_size(UVec2 { x: 320, y: 180 }, &settings),
        Some(UVec2 { x: 1600, y: 900 })
    );
}

#[test]
fn render_leaves_the_scale_that_was_set_last() {
    assert_eq!(render_display_settings(&vec![]).scale, 0);
    let commands = vec![
        HostCommand::SetResolutionScale(2),
        HostCommand::Print(ScriptValue::Unit),
        HostCommand::SetResolutionScale(4),
        HostCommand::SetVirtualResolution(UVec2 { x: 1, y: 1 }),
    ];
    assert_eq!(render_display_settings(&commands).scale, 4);
    assert_eq!(render_display_settings(&vec![HostCommand::Print(ScriptValue::Unit)]).scale, 0);
}
