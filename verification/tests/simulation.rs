use mangrove::script::MangroveError;
use mangrove::simulation::{
    axis_changed, axis_name, boot, button_changed, button_name, check_entry_points, get_variant,
    input_module, simulation_externals, simulation_tick, Axis, Button, GamepadError, GamepadMessage, InputModule,
    ScriptCall, ScriptSimulation, SimulationFunction, SimulationFunctions,
};
use mangrove::registry::InvokeError;
use mangrove::render::{HostCommand, HostFunction};
use mangrove::ErrorResource;
use mangrove::value::{EnumType, ScriptValue};

const BUTTONS: [(Button, &str); 17] = [
    (Button::South, "South"),
    (Button::East, "East"),
    (Button::North, "North"),
    (Button::West, "West"),
    (Button::LeftTrigger, "LeftTrigger"),
    (Button::LeftTrigger2, "LeftTrigger2"),
    (Button::RightTrigger, "RightTrigger"),
    (Button::RightTrigger2, "RightTrigger2"),
    (Button::Select, "Select"),
    (Button::Start, "Start"),
    (Button::Mode, "Mode"),
    (Button::LeftThumb, "LeftThumb"),
    (Button::RightThumb, "RightThumb"),
    (Button::DPadUp, "DPadUp"),
    (Button::DPadDown, "DPadDown"),
    (Button::DPadLeft, "DPadLeft"),
    (Button::DPadRight, "DPadRight"),
];

const AXES: [(Axis, &str); 4] = [
    (Axis::LeftStickX, "LeftStickX"),
    (Axis::LeftStickY, "LeftStickY"),
    (Axis::RightStickX, "RightStickX"),
    (Axis::RightStickY, "RightStickY"),
];

fn all() -> SimulationFunctions {
    SimulationFunctions { tick: true, gamepad_axis_changed: true, gamepad_button_changed: true }
}

fn sim() -> ScriptValue {
    ScriptValue::Struct(vec![ScriptValue::Int(0)])
}

#[test]
fn input_module_has_both_enums_with_their_variants_in_order() {
    let module = input_module();
    assert_eq!(module.axis.name, "Axis");
    assert_eq!(module.axis.variants, AXES.iter().map(|(_, name)| name.to_string()).collect::<Vec<_>>());
    assert_eq!(module.button.name, "Button");
    assert_eq!(
        module.button.variants,
        BUTTONS.iter().map(|(_, name)| name.to_string()).collect::<Vec<_>>()
    );
}

#[test]
fn every_button_and_axis_has_its_name() {
    for (button, name) in BUTTONS {
        assert_eq!(button_name(button), name);
    }
    for (axis, name) in AXES {
        assert_eq!(axis_name(axis), name);
    }
}

#[test]
fn variants_are_found_by_name_at_their_index() {
    let module = input_module();
    for (index, (_, name)) in BUTTONS.iter().enumerate() {
        assert_eq!(get_variant(&module.button, name), Some(index as u8));
    }
    for (index, (_, name)) in AXES.iter().enumerate() {
        assert_eq!(get_variant(&module.axis, name), Some(index as u8));
    }
    assert_eq!(get_variant(&module.axis, "South"), None);
    let twice = EnumType { name: "E".to_string(), variants: vec!["a".to_string(), "a".to_string()] };
    assert_eq!(get_variant(&twice, "a"), Some(0));
}

#[test]
fn variant_behind_the_last_index_is_not_found() {
    let mut variants: Vec<String> = (0..300).map(|i| format!("v{i}")).collect();
    variants[256] = "late".to_string();
    variants[255] = "last".to_string();
    let large = EnumType { name: "Large".to_string(), variants };
    assert_eq!(get_variant(&large, "last"), Some(255));
    assert_eq!(get_variant(&large, "late"), None);
}

#[test]
fn button_change_becomes_a_call() {
    let module = input_module();
    assert_eq!(
        button_changed(&module, true, 2, Button::Select, 65536),
        Ok(Some(ScriptCall {
            function: SimulationFunction::GamepadButtonChanged,
            arguments: vec![
                ScriptValue::Int(2),
                ScriptValue::EnumVariant(8),
                ScriptValue::Float(65536),
            ],
        }))
    );
    assert_eq!(button_changed(&module, false, 2, Button::Select, 65536), Ok(None));
}

#[test]
fn button_change_checks_the_gamepad_id() {
    let module = input_module();
    assert_eq!(
        button_changed(&module, true, i32::MAX as usize, Button::South, 0).map(|call| call.is_some()),
        Ok(true)
    );
    assert_eq!(
        button_changed(&module, true, i32::MAX as usize + 1, Button::South, 0),
        Err(GamepadError::GamepadIdOutOfRange)
    );
    assert_eq!(button_changed(&module, false, usize::MAX, Button::South, 0), Ok(None));
}

#[test]
fn axis_change_becomes_a_call() {
    let module = input_module();
    assert_eq!(
        axis_changed(&module, true, 1, Axis::RightStickY, -32768),
        Ok(Some(ScriptCall {
            function: SimulationFunction::GamepadAxisChanged,
            arguments: vec![
                ScriptValue::Int(1),
                ScriptValue::EnumVariant(3),
                ScriptValue::Float(-32768),
            ],
        }))
    );
    assert_eq!(axis_changed(&module, false, 1, Axis::RightStickY, 0), Ok(None));
    assert_eq!(
        axis_changed(&module, true, 0x1_0000_0005, Axis::LeftStickX, 0)
            .map(|call| call.map(|call| call.arguments[0].duplicate())),
        Ok(Some(ScriptValue::Int(5)))
    );
}

#[test]
fn module_without_the_variant_is_an_error() {
    let bare = InputModule {
        axis: EnumType { name: "Axis".to_string(), variants: vec![] },
        button: EnumType { name: "Button".to_string(), variants: vec!["South".to_string()] },
    };
    assert_eq!(
        button_changed(&bare, false, 0, Button::East, 0),
        Err(GamepadError::UnknownVariant)
    );
    assert_eq!(
        button_changed(&bare, true, 0, Button::South, 0).map(|call| call.is_some()),
        Ok(true)
    );
    assert_eq!(
        axis_changed(&bare, true, 0, Axis::LeftStickX, 0),
        Err(GamepadError::UnknownVariant)
    );
}

#[test]
fn only_changes_reach_the_script() {
    let simulation = boot(sim(), all(), 3).unwrap();
    assert_eq!(simulation.gamepad(&GamepadMessage::Connected(1, "pad".to_string())), Ok(None));
    assert_eq!(simulation.gamepad(&GamepadMessage::Disconnected(1)), Ok(None));
    assert_eq!(simulation.gamepad(&GamepadMessage::Activated(1)), Ok(None));
    assert_eq!(
        simulation.gamepad(&GamepadMessage::ButtonChanged(1, Button::DPadRight, 7)),
        Ok(Some(ScriptCall {
            function: SimulationFunction::GamepadButtonChanged,
            arguments: vec![ScriptValue::Int(1), ScriptValue::EnumVariant(16), ScriptValue::Float(7)],
        }))
    );
    assert_eq!(
        simulation.gamepad(&GamepadMessage::AxisChanged(1, Axis::LeftStickY, 7)),
        Ok(Some(ScriptCall {
            function: SimulationFunction::GamepadAxisChanged,
            arguments: vec![ScriptValue::Int(1), ScriptValue::EnumVariant(1), ScriptValue::Float(7)],
        }))
    );
}

#[test]
fn simulation_without_gamepad_functions_gets_no_calls() {
    let only_tick =
        SimulationFunctions { tick: true, gamepad_axis_changed: false, gamepad_button_changed: false };
    let simulation = boot(sim(), only_tick, 3).unwrap();
    assert_eq!(simulation.gamepad(&GamepadMessage::ButtonChanged(1, Button::South, 7)), Ok(None));
    assert_eq!(simulation.gamepad(&GamepadMessage::AxisChanged(1, Axis::LeftStickY, 7)), Ok(None));
}

#[test]
fn boot_needs_a_struct_with_a_tick() {
    match boot(ScriptValue::Int(1), all(), 3) {
        Err(MangroveError::Other(message)) => assert_eq!(message, "needs to be simulation struct"),
        other => panic!("unexpected {other:?}"),
    }
    let no_tick =
        SimulationFunctions { tick: false, gamepad_axis_changed: true, gamepad_button_changed: true };
    match boot(sim(), no_tick, 3) {
        Err(MangroveError::Other(message)) => assert_eq!(message, "must have function tick"),
        other => panic!("unexpected {other:?}"),
    }
    match boot(ScriptValue::Unit, no_tick, 3) {
        Err(MangroveError::Other(message)) => assert_eq!(message, "needs to be simulation struct"),
        other => panic!("unexpected {other:?}"),
    }
}

#[test]
fn simulation_value_can_be_read_and_replaced() {
    let mut simulation = ScriptSimulation::new(sim(), false, false, simulation_externals(3), input_module());
    assert_eq!(simulation.immutable_simulation_value(), sim());
    simulation.debug_set_simulation_value(ScriptValue::Struct(vec![ScriptValue::Int(9)]));
    assert_eq!(
        simulation.immutable_simulation_value(),
        ScriptValue::Struct(vec![ScriptValue::Int(9)])
    );
}

#[test]
fn main_module_needs_both_entry_points() {
    assert!(check_entry_points(true, true).is_ok());
    for (simulation, render) in [(false, true), (true, false), (false, false)] {
        match check_entry_points(simulation, render) {
            Err(MangroveError::Other(message)) => assert_eq!(message, "no main function"),
            other => panic!("unexpected {other:?}"),
        }
    }
}

#[test]
fn tick_is_called_unless_an_error_is_pending() {
    assert_eq!(
        simulation_tick(&ErrorResource { has_errors: false }),
        Some(ScriptCall { function: SimulationFunction::Tick, arguments: vec![] })
    );
    assert_eq!(simulation_tick(&ErrorResource { has_errors: true }), None);
}

#[test]
fn started_simulation_has_print_bound_and_nothing_else() {
    let simulation = boot(sim(), all(), 3).unwrap();
    let hello = ScriptValue::String("hello".to_string());
    assert_eq!(
        simulation.invoke(3, &vec![hello.duplicate()]),
        Ok(HostCommand::Print(hello.duplicate()))
    );
    assert_eq!(simulation.invoke(4, &vec![hello]), Err(InvokeError::NotRegistered(4)));
    let externals = simulation_externals(9);
    assert_eq!(externals.lookup(9), Some(HostFunction::Print));
    assert_eq!(externals.lookup(3), None);
}
