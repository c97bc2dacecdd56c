use mangrove::bindings::{ActionSets, Actions, AnalogAction, DigitalAction, InputConfig};
use mangrove::input::{
    absolute_to_virtual_position, actions_with_names, binding_kind, boot,
    checked_absolute_to_virtual_position, convert_bind_name, convert_bindings_in_set,
    convert_set_name, convert_to_input_bindings, field_index, listen_cursor_moved,
    listen_mouse_button, mouse_fields, scan_struct, Binding, BindingKind, BindingsInSet,
    BootError, InputError, MouseButton, MouseFields, ScanError, ScriptInput,
};
use mangrove::script::{MangroveError, URect, UVec2};
use mangrove::value::{ScriptType, ScriptValue, StructField, StructType};
use seq_map::SeqMap;

fn layout(fields: Vec<(&str, ScriptType)>) -> StructType {
    StructType {
        type_id: 1,
        name: "Input".to_string(),
        fields: fields
            .into_iter()
            .map(|(name, field_type)| StructField { name: name.to_string(), field_type })
            .collect(),
    }
}

fn pair(first: ScriptType, second: ScriptType) -> ScriptType {
    ScriptType::Tuple(vec![first, second])
}

fn binding(name: &str, struct_field_index: usize, kind: BindingKind) -> Binding {
    Binding { name: name.to_string(), struct_field_index, kind }
}

fn mouse_layout() -> StructType {
    layout(vec![
        ("jump", ScriptType::Bool),
        ("mouse_cursor_position", pair(ScriptType::Int, ScriptType::Int)),
        ("mouse_left_button", ScriptType::Bool),
        ("mouse_right_button", ScriptType::Bool),
    ])
}

fn mouse_value() -> ScriptValue {
    ScriptValue::Struct(vec![
        ScriptValue::Bool(false),
        ScriptValue::Tuple(vec![ScriptValue::Int(0), ScriptValue::Int(0)]),
        ScriptValue::Bool(false),
        ScriptValue::Bool(false),
    ])
}

fn mouse_input() -> ScriptInput {
    boot(&ScriptType::Struct(mouse_layout()), mouse_value()).unwrap()
}

fn viewport() -> URect {
    URect { position: UVec2 { x: 10, y: 20 }, size: UVec2 { x: 640, y: 360 } }
}

#[test]
fn bool_is_digital_and_a_pair_with_a_float_is_analog() {
    assert_eq!(binding_kind(&ScriptType::Bool), Ok(BindingKind::Digital));
    assert_eq!(binding_kind(&pair(ScriptType::Float, ScriptType::Float)), Ok(BindingKind::Analog));
    assert_eq!(binding_kind(&pair(ScriptType::Int, ScriptType::Float)), Ok(BindingKind::Analog));
    assert_eq!(binding_kind(&pair(ScriptType::Float, ScriptType::Int)), Ok(BindingKind::Analog));
}

#[test]
fn other_types_cannot_be_bound() {
    assert_eq!(binding_kind(&ScriptType::Int), Err(ScanError::StrangeFieldType));
    assert_eq!(
        binding_kind(&ScriptType::Tuple(vec![ScriptType::Float])),
        Err(ScanError::StrangeFieldType)
    );
    assert_eq!(
        binding_kind(&pair(ScriptType::Int, ScriptType::Int)),
        Err(ScanError::StrangeFieldTypeTuple)
    );
}

#[test]
fn scan_binds_every_field_in_order() {
    let input_type = layout(vec![
        ("Jump", ScriptType::Bool),
        ("Move", pair(ScriptType::Float, ScriptType::Float)),
        ("Fire", ScriptType::Bool),
    ]);
    let set = scan_struct(&input_type).unwrap();
    assert_eq!(
        set.bindings_in_source_order,
        vec![
            binding("Jump", 0, BindingKind::Digital),
            binding("Move", 1, BindingKind::Analog),
            binding("Fire", 2, BindingKind::Digital),
        ]
    );
    assert_eq!(scan_struct(&layout(vec![])).unwrap().bindings_in_source_order, vec![]);
}

#[test]
fn scan_reports_the_first_field_that_cannot_be_bound() {
    let input_type = layout(vec![
        ("jump", ScriptType::Bool),
        ("aim", pair(ScriptType::Int, ScriptType::Int)),
        ("name", ScriptType::String),
    ]);
    match scan_struct(&input_type) {
        Err(MangroveError::Other(message)) => assert_eq!(message, "strange field type tuple"),
        other => panic!("unexpected {other:?}"),
    }
    let input_type = layout(vec![("name", ScriptType::String), ("jump", ScriptType::Bool)]);
    match scan_struct(&input_type) {
        Err(MangroveError::Other(message)) => assert_eq!(message, "strange field type"),
        other => panic!("unexpected {other:?}"),
    }
}

#[test]
fn names_are_converted_to_lower_case() {
    assert_eq!(convert_set_name("InGame"), "ingame");
    assert_eq!(convert_bind_name("MoveLEFT"), "moveleft");
    assert_eq!(convert_bind_name("ÉTÉ"), "été");
    assert_eq!(convert_set_name(""), "");
}

#[test]
fn bindings_are_parted_by_kind() {
    let set = BindingsInSet {
        bindings_in_source_order: vec![
            binding("Jump", 0, BindingKind::Digital),
            binding("Move", 1, BindingKind::Analog),
            binding("Fire", 2, BindingKind::Digital),
        ],
    };
    let names = vec!["a".to_string(), "b".to_string(), "c".to_string()];
    let actions = actions_with_names(&set, &names);
    assert_eq!(
        actions,
        Actions {
            digital: vec![
                DigitalAction { name: "a".to_string() },
                DigitalAction { name: "c".to_string() },
            ],
            analog: vec![AnalogAction { name: "b".to_string() }],
        }
    );
    assert_eq!(
        convert_bindings_in_set(&set),
        Actions {
            digital: vec![
                DigitalAction { name: "jump".to_string() },
                DigitalAction { name: "fire".to_string() },
            ],
            analog: vec![AnalogAction { name: "move".to_string() }],
        }
    );
}

fn entries(config: &InputConfig) -> Vec<(String, Actions)> {
    config.action_sets.sets.iter().map(|(name, actions)| (name.clone(), actions.clone())).collect()
}

#[test]
fn binding_sets_become_the_input_configuration() {
    let mut sets = SeqMap::new();
    sets.insert(
        "Menu".to_string(),
        BindingsInSet { bindings_in_source_order: vec![binding("Select", 0, BindingKind::Digital)] },
    )
    .unwrap();
    sets.insert(
        "InGame".to_string(),
        BindingsInSet {
            bindings_in_source_order: vec![
                binding("Move", 0, BindingKind::Analog),
                binding("Jump", 1, BindingKind::Digital),
            ],
        },
    )
    .unwrap();
    let config = convert_to_input_bindings(&sets).unwrap();
    assert_eq!(
        entries(&config),
        vec![
            (
                "menu".to_string(),
                Actions { digital: vec![DigitalAction { name: "select".to_string() }], analog: vec![] }
            ),
            (
                "ingame".to_string(),
                Actions {
                    digital: vec![DigitalAction { name: "jump".to_string() }],
                    analog: vec![AnalogAction { name: "move".to_string() }],
                }
            ),
        ]
    );
    let none: SeqMap<String, BindingsInSet> = SeqMap::new();
    assert!(entries(&convert_to_input_bindings(&none).unwrap()).is_empty());
}

#[test]
fn sets_that_differ_only_in_case_cannot_both_be_held() {
    let mut sets = SeqMap::new();
    sets.insert("Menu".to_string(), BindingsInSet { bindings_in_source_order: vec![] }).unwrap();
    sets.insert("Game".to_string(), BindingsInSet { bindings_in_source_order: vec![] }).unwrap();
    sets.insert("MENU".to_string(), BindingsInSet { bindings_in_source_order: vec![] }).unwrap();
    assert_eq!(convert_to_input_bindings(&sets).err(), Some("menu".to_string()));
}

#[test]
fn input_configuration_holds_its_sets() {
    let mut sets = SeqMap::new();
    sets.insert("a".to_string(), Actions { digital: vec![], analog: vec![] }).unwrap();
    let config = InputConfig { action_sets: ActionSets { sets } };
    assert_eq!(config.action_sets.sets.len(), 1);
}

#[test]
fn position_in_the_window_maps_to_the_virtual_surface() {
    let virtual_size = UVec2 { x: 320, y: 180 };
    assert_eq!(
        absolute_to_virtual_position(UVec2 { x: 10, y: 20 }, viewport(), virtual_size),
        UVec2 { x: 0, y: 0 }
    );
    assert_eq!(
        absolute_to_virtual_position(UVec2 { x: 330, y: 200 }, viewport(), virtual_size),
        UVec2 { x: 160, y: 90 }
    );
    assert_eq!(
        absolute_to_virtual_position(UVec2 { x: 13, y: 23 }, viewport(), virtual_size),
        UVec2 { x: 1, y: 1 }
    );
}

#[test]
fn position_outside_the_viewport_maps_as_the_nearest_inside() {
    let virtual_size = UVec2 { x: 320, y: 180 };
    assert_eq!(
        absolute_to_virtual_position(UVec2 { x: 0, y: 0 }, viewport(), virtual_size),
        UVec2 { x: 0, y: 0 }
    );
    assert_eq!(
        absolute_to_virtual_position(UVec2 { x: 65535, y: 65535 }, viewport(), virtual_size),
        UVec2 { x: 319, y: 179 }
    );
    assert_eq!(
        absolute_to_virtual_position(
            UVec2 { x: 65535, y: 65535 },
            URect { position: UVec2 { x: 0, y: 0 }, size: UVec2 { x: 65535, y: 65535 } },
            UVec2 { x: 65535, y: 65535 },
        ),
        UVec2 { x: 65534, y: 65534 }
    );
    assert_eq!(
        absolute_to_virtual_position(UVec2 { x: 5, y: 5 }, viewport(), UVec2 { x: 0, y: 0 }),
        UVec2 { x: 0, y: 0 }
    );
}

#[test]
fn viewport_without_area_maps_nothing() {
    let flat = URect { position: UVec2 { x: 0, y: 0 }, size: UVec2 { x: 640, y: 0 } };
    let virtual_size = UVec2 { x: 320, y: 180 };
    assert_eq!(checked_absolute_to_virtual_position(UVec2 { x: 5, y: 5 }, flat, virtual_size), None);
    assert_eq!(
        checked_absolute_to_virtual_position(UVec2 { x: 330, y: 200 }, viewport(), virtual_size),
        Some(UVec2 { x: 160, y: 90 })
    );
}

#[test]
fn fields_are_found_by_name() {
    assert_eq!(field_index(&mouse_layout(), "mouse_left_button"), Some(2));
    assert_eq!(field_index(&mouse_layout(), "jump"), Some(0));
    assert_eq!(field_index(&mouse_layout(), "Jump"), None);
    assert_eq!(field_index(&layout(vec![]), "jump"), None);
}

#[test]
fn mouse_fields_are_found_in_the_input_struct() {
    assert_eq!(
        mouse_fields(&mouse_layout()),
        Ok(MouseFields { cursor_position: 1, left_button: 2, right_button: 3 })
    );
}

#[test]
fn missing_mouse_fields_are_reported_in_order() {
    assert_eq!(mouse_fields(&layout(vec![])), Err(BootError::NoCursorPosition));
    let cursor = || ("mouse_cursor_position", pair(ScriptType::Int, ScriptType::Int));
    assert_eq!(mouse_fields(&layout(vec![cursor()])), Err(BootError::NoLeftButton));
    assert_eq!(
        mouse_fields(&layout(vec![cursor(), ("mouse_left_button", ScriptType::Bool)])),
        Err(BootError::NoRightButton)
    );
    assert_eq!(
        mouse_fields(&layout(vec![
            ("mouse_cursor_position", pair(ScriptType::Int, ScriptType::Float)),
            ("mouse_left_button", ScriptType::Bool),
            ("mouse_right_button", ScriptType::Bool),
        ])),
        Err(BootError::CursorPositionNotInts)
    );
    assert_eq!(
        mouse_fields(&layout(vec![
            ("mouse_cursor_position", ScriptType::Int),
            ("mouse_left_button", ScriptType::Bool),
            ("mouse_right_button", ScriptType::Bool),
        ])),
        Err(BootError::CursorPositionNotInts)
    );
}

#[test]
fn boot_takes_the_input_value_and_the_indices() {
    let input = mouse_input();
    assert_eq!(input.input_value, mouse_value());
    assert_eq!(input.mouse_cursor_position_index, 1);
    assert_eq!(input.mouse_left_button_index, 2);
    assert_eq!(input.mouse_right_button_index, 3);
    assert!(input.sets.is_empty());
    assert_eq!(boot(&ScriptType::Int, mouse_value()).err(), Some(BootError::NotANamedStruct));
    assert_eq!(
        boot(&ScriptType::Struct(layout(vec![])), mouse_value()).err(),
        Some(BootError::NoCursorPosition)
    );
}

#[test]
fn cursor_move_is_written_into_the_input_value() {
    let mut input = mouse_input();
    let moved = listen_cursor_moved(
        &mut input,
        UVec2 { x: 330, y: 200 },
        viewport(),
        UVec2 { x: 320, y: 180 },
    );
    assert_eq!(moved, Ok(()));
    assert_eq!(
        input.input_value,
        ScriptValue::Struct(vec![
            ScriptValue::Bool(false),
            ScriptValue::Tuple(vec![ScriptValue::Int(160), ScriptValue::Int(90)]),
            ScriptValue::Bool(false),
            ScriptValue::Bool(false),
        ])
    );
}

#[test]
fn cursor_move_that_cannot_be_written_changes_nothing() {
    let mut input = mouse_input();
    let flat = URect { position: UVec2 { x: 0, y: 0 }, size: UVec2 { x: 0, y: 10 } };
    assert_eq!(
        listen_cursor_moved(&mut input, UVec2 { x: 1, y: 1 }, flat, UVec2 { x: 320, y: 180 }),
        Err(InputError::EmptyViewport)
    );
    assert_eq!(input.input_value, mouse_value());
    input.mouse_cursor_position_index = 0;
    assert_eq!(
        listen_cursor_moved(&mut input, UVec2 { x: 1, y: 1 }, viewport(), UVec2 { x: 320, y: 180 }),
        Err(InputError::WrongShape)
    );
    input.mouse_cursor_position_index = 9;
    assert_eq!(
        listen_cursor_moved(&mut input, UVec2 { x: 1, y: 1 }, viewport(), UVec2 { x: 320, y: 180 }),
        Err(InputError::WrongShape)
    );
    input.input_value = ScriptValue::Unit;
    assert_eq!(
        listen_cursor_moved(&mut input, UVec2 { x: 1, y: 1 }, viewport(), UVec2 { x: 320, y: 180 }),
        Err(InputError::WrongShape)
    );
}

#[test]
fn mouse_buttons_are_written_into_their_fields() {
    let mut input = mouse_input();
    assert_eq!(listen_mouse_button(&mut input, MouseButton::Left, true), Ok(true));
    assert_eq!(listen_mouse_button(&mut input, MouseButton::Right, true), Ok(true));
    assert_eq!(listen_mouse_button(&mut input, MouseButton::Left, false), Ok(true));
    assert_eq!(
        input.input_value,
        ScriptValue::Struct(vec![
            ScriptValue::Bool(false),
            ScriptValue::Tuple(vec![ScriptValue::Int(0), ScriptValue::Int(0)]),
            ScriptValue::Bool(false),
            ScriptValue::Bool(true),
        ])
    );
}

#[test]
fn other_mouse_buttons_are_ignored() {
    let mut input = mouse_input();
    assert_eq!(listen_mouse_button(&mut input, MouseButton::Middle, true), Ok(false));
    assert_eq!(listen_mouse_button(&mut input, MouseButton::Back, true), Ok(false));
    assert_eq!(listen_mouse_button(&mut input, MouseButton::Forward, true), Ok(false));
    assert_eq!(input.input_value, mouse_value());
    input.mouse_left_button_index = 4;
    assert_eq!(listen_mouse_button(&mut input, MouseButton::Left, true), Err(InputError::WrongShape));
    assert_eq!(input.input_value, mouse_value());
}
