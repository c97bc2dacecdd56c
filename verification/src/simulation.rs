//! The simulation script: its live value, and how gamepad events reach it.

use vstd::prelude::*;
use crate::registry::{invoked, ExternalFunctionId, ExternalFunctions, InvokeError};
use crate::render::{register_print, CommandModel, HostCommand, HostFunction};
use crate::script::MangroveError;
use crate::ErrorResource;
use crate::value::{views, EnumModel, EnumType, ScriptValue, ValueModel};

verus! {

/// A gamepad button.
#[derive(Debug, Clone, Copy, PartialEq, Eq, Structural)]
pub enum Button {
    South,
    East,
    North,
    West,
    LeftTrigger,
    LeftTrigger2,
    RightTrigger,
    RightTrigger2,
    Select,
    Start,
    Mode,
    LeftThumb,
    RightThumb,
    DPadUp,
    DPadDown,
    DPadLeft,
    DPadRight,
}

/// A gamepad axis.
#[derive(Debug, Clone, Copy, PartialEq, Eq, Structural)]
pub enum Axis {
    LeftStickX,
    LeftStickY,
    RightStickX,
    RightStickY,
}

/// What a gamepad reports. Button and axis values are raw fixed-point numbers.
#[derive(Debug, Clone, PartialEq, Eq)]
pub enum GamepadMessage {
    Connected(usize, String),
    Disconnected(usize),
    Activated(usize),
    ButtonChanged(usize, Button, i32),
    AxisChanged(usize, Axis, i32),
}

/// A member function of the simulation struct that the host calls.
#[derive(Debug, Clone, Copy, PartialEq, Eq, Structural)]
pub enum SimulationFunction {
    Tick,
    GamepadAxisChanged,
    GamepadButtonChanged,
}

/// A call for the interpreter to make: the member function and its arguments
/// behind the simulation value itself, which always goes first and by
/// reference.
#[derive(Debug, PartialEq, Eq)]
pub struct ScriptCall {
    pub function: SimulationFunction,
    pub arguments: Vec<ScriptValue>,
}

/// Why a gamepad event could not be handed to the script.
#[derive(Debug, Clone, Copy, PartialEq, Eq, Structural)]
pub enum GamepadError {
    /// The input module's enum has no variant of the name.
    UnknownVariant,
    /// The gamepad's id does not fit the script's int.
    GamepadIdOutOfRange,
}

/// The name of a button, as the script's `Button` enum spells it.
pub open spec fn button_name_of(button: Button) -> Seq<char> {
    match button {
        Button::South => "South"@,
        Button::East => "East"@,
        Button::North => "North"@,
        Button::West => "West"@,
        Button::LeftTrigger => "LeftTrigger"@,
        Button::LeftTrigger2 => "LeftTrigger2"@,
        Button::RightTrigger => "RightTrigger"@,
        Button::RightTrigger2 => "RightTrigger2"@,
        Button::Select => "Select"@,
        Button::Start => "Start"@,
        Button::Mode => "Mode"@,
        Button::LeftThumb => "LeftThumb"@,
        Button::RightThumb => "RightThumb"@,
        Button::DPadUp => "DPadUp"@,
        Button::DPadDown => "DPadDown"@,
        Button::DPadLeft => "DPadLeft"@,
        Button::DPadRight => "DPadRight"@,
    }
}

/// The name of an axis, as the script's `Axis` enum spells it.
pub open spec fn axis_name_of(axis: Axis) -> Seq<char> {
    match axis {
        Axis::LeftStickX => "LeftStickX"@,
        Axis::LeftStickY => "LeftStickY"@,
        Axis::RightStickX => "RightStickX"@,
        Axis::RightStickY => "RightStickY"@,
    }
}

/// The place of a button among the variants of the script's `Button` enum.
pub open spec fn button_index_of(button: Button) -> u8 {
    match button {
        Button::South => 0,
        Button::East => 1,
        Button::North => 2,
        Button::West => 3,
        Button::LeftTrigger => 4,
        Button::LeftTrigger2 => 5,
        Button::RightTrigger => 6,
        Button::RightTrigger2 => 7,
        Button::Select => 8,
        Button::Start => 9,
        Button::Mode => 10,
        Button::LeftThumb => 11,
        Button::RightThumb => 12,
        Button::DPadUp => 13,
        Button::DPadDown => 14,
        Button::DPadLeft => 15,
        Button::DPadRight => 16,
    }
}

/// The place of an axis among the variants of the script's `Axis` enum.
pub open spec fn axis_index_of(axis: Axis) -> u8 {
    match axis {
        Axis::LeftStickX => 0,
        Axis::LeftStickY => 1,
        Axis::RightStickX => 2,
        Axis::RightStickY => 3,
    }
}

/// The variants of the script's `Axis` enum, in order.
pub open spec fn axis_variant_names() -> Seq<Seq<char>> {
    seq!["LeftStickX"@, "LeftStickY"@, "RightStickX"@, "RightStickY"@]
}

/// The variants of the script's `Button` enum, in order.
pub open spec fn button_variant_names() -> Seq<Seq<char>> {
    seq![
        "South"@,
        "East"@,
        "North"@,
        "West"@,
        "LeftTrigger"@,
        "LeftTrigger2"@,
        "RightTrigger"@,
        "RightTrigger2"@,
        "Select"@,
        "Start"@,
        "Mode"@,
        "LeftThumb"@,
        "RightThumb"@,
        "DPadUp"@,
        "DPadDown"@,
        "DPadLeft"@,
        "DPadRight"@,
    ]
}

/// The name of a button.
pub fn button_name(button: Button) -> (name: &'static str)
    ensures
        name@ == button_name_of(button),
{
    match button {
        Button::South => "South",
        Button::East => "East",
        Button::North => "North",
        Button::West => "West",
        Button::LeftTrigger => "LeftTrigger",
        Button::LeftTrigger2 => "LeftTrigger2",
        Button::RightTrigger => "RightTrigger",
        Button::RightTrigger2 => "RightTrigger2",
        Button::Select => "Select",
        Button::Start => "Start",
        Button::Mode => "Mode",
        Button::LeftThumb => "LeftThumb",
        Button::RightThumb => "RightThumb",
        Button::DPadUp => "DPadUp",
        Button::DPadDown => "DPadDown",
        Button::DPadLeft => "DPadLeft",
        Button::DPadRight => "DPadRight",
    }
}

/// The name of an axis.
pub fn axis_name(axis: Axis) -> (name: &'static str)
    ensures
        name@ == axis_name_of(axis),
{
    match axis {
        Axis::LeftStickX => "LeftStickX",
        Axis::LeftStickY => "LeftStickY",
        Axis::RightStickX => "RightStickX",
        Axis::RightStickY => "RightStickY",
    }
}

/// The enums through which the script sees the gamepad.
#[derive(Debug, Clone, PartialEq, Eq)]
pub struct InputModule {
    pub axis: EnumType,
    pub button: EnumType,
}

/// Builds the module `mangrove::input`: the enum `Axis` with its four
/// variants and the enum `Button` with its seventeen, each variant at the
/// place that its index says.
pub fn input_module() -> (module: InputModule)
    ensures
        module.axis@ == (EnumModel { name: "Axis"@, variants: axis_variant_names() }),
        module.button@ == (EnumModel { name: "Button"@, variants: button_variant_names() }),
{
    let mut axis_variants: Vec<String> = Vec::new();
    axis_variants.push("LeftStickX".to_string());
    axis_variants.push("LeftStickY".to_string());
    axis_variants.push("RightStickX".to_string());
    axis_variants.push("RightStickY".to_string());
    let axis = EnumType { name: "Axis".to_string(), variants: axis_variants };
    assert(axis@.variants =~= axis_variant_names());

    let mut button_names: Vec<String> = Vec::new();
    button_names.push("South".to_string());
    button_names.push("East".to_string());
    button_names.push("North".to_string());
    button_names.push("West".to_string());
    button_names.push("LeftTrigger".to_string());
    button_names.push("LeftTrigger2".to_string());
    button_names.push("RightTrigger".to_string());
    button_names.push("RightTrigger2".to_string());
    button_names.push("Select".to_string());
    button_names.push("Start".to_string());
    button_names.push("Mode".to_string());
    button_names.push("LeftThumb".to_string());
    button_names.push("RightThumb".to_string());
    button_names.push("DPadUp".to_string());
    button_names.push("DPadDown".to_string());
    button_names.push("DPadLeft".to_string());
    button_names.push("DPadRight".to_string());
    let button = EnumType { name: "Button".to_string(), variants: button_names };
    assert(button@.variants =~= button_variant_names());
    InputModule { axis, button }
}

/// Whether `index` is the first place at which `name` stands among the
/// variants.
pub open spec fn is_variant(variants: Seq<Seq<char>>, name: Seq<char>, index: int) -> bool {
    &&& 0 <= index < variants.len()
    &&& index <= u8::MAX
    &&& variants[index] == name
    &&& forall|j: int| 0 <= j < index ==> variants[j] != name
}

/// Whether the variants hold no variant of that name within the places that
/// an index can name.
pub open spec fn no_variant(variants: Seq<Seq<char>>, name: Seq<char>) -> bool {
    forall|j: int| 0 <= j < variants.len() && j <= u8::MAX ==> variants[j] != name
}

/// Finds the variant of the given name in an enum.
pub fn get_variant(enum_type: &EnumType, name: &str) -> (index: Option<u8>)
    ensures
        match index {
            Some(i) => is_variant(enum_type@.variants, name@, i as int),
            None => no_variant(enum_type@.variants, name@),
        },
{
    let wanted = name.to_string();
    let mut i: usize = 0;
    while i < enum_type.variants.len() && i <= 255
        invariant
            i <= enum_type.variants.len(),
            i <= 256,
            wanted@ == name@,
            forall|j: int| 0 <= j < i ==> enum_type@.variants[j] != name@,
        decreases enum_type.variants.len() - i,
    {
        if enum_type.variants[i] == wanted {
            return Some(i as u8);
        }
        i += 1;
    }
    None
}

/// The call that a change of a button stands for.
///
/// The button's variant is looked up by name in the `Button` enum of the input
/// module. Then, where the simulation has the member function
/// `gamepad_button_changed`, the call is that function on the gamepad's id,
/// the button's variant and the button's value.
pub fn button_changed(
    input_module: &InputModule,
    has_gamepad_button_changed_fn: bool,
    gamepad_id: usize,
    button: Button,
    value: i32,
) -> (result: Result<Option<ScriptCall>, GamepadError>)
    ensures
        match result {
            Ok(Some(call)) => has_gamepad_button_changed_fn && gamepad_id <= i32::MAX
                && call.function == SimulationFunction::GamepadButtonChanged
                && call.arguments@.len() == 3 && call.arguments@[0]@ == ValueModel::Int(
                gamepad_id as i32,
            ) && (call.arguments@[1]@ matches ValueModel::EnumVariant(index) && is_variant(
                input_module.button@.variants,
                button_name_of(button),
                index as int,
            )) && call.arguments@[2]@ == ValueModel::Float(value),
            Ok(None) => !has_gamepad_button_changed_fn && !no_variant(
                input_module.button@.variants,
                button_name_of(button),
            ),
            Err(GamepadError::UnknownVariant) => no_variant(
                input_module.button@.variants,
                button_name_of(button),
            ),
            Err(GamepadError::GamepadIdOutOfRange) => has_gamepad_button_changed_fn && gamepad_id
                > i32::MAX && !no_variant(input_module.button@.variants, button_name_of(button)),
        },
{
    let button_str = button_name(button);
    let variant = match get_variant(&input_module.button, button_str) {
        Some(index) => index,
        None => {
            return Err(GamepadError::UnknownVariant);
        },
    };
    assert(input_module.button@.variants[variant as int] == button_name_of(button));
    if !has_gamepad_button_changed_fn {
        return Ok(None);
    }
    if gamepad_id > i32::MAX as usize {
        return Err(GamepadError::GamepadIdOutOfRange);
    }
    let mut arguments: Vec<ScriptValue> = Vec::new();
    arguments.push(ScriptValue::Int(gamepad_id as i32));
    arguments.push(ScriptValue::EnumVariant(variant));
    arguments.push(ScriptValue::Float(value));
    Ok(Some(ScriptCall { function: SimulationFunction::GamepadButtonChanged, arguments }))
}

/// The call that a change of an axis stands for.
///
/// The axis' variant is looked up by name in the `Axis` enum of the input
/// module. Then, where the simulation has the member function
/// `gamepad_axis_changed`, the call is that function on the gamepad's id, cut
/// down to the script's int, the axis' variant and the axis' value.
pub fn axis_changed(
    input_module: &InputModule,
    has_gamepad_axis_changed_fn: bool,
    gamepad_id: usize,
    axis: Axis,
    value: i32,
) -> (result: Result<Option<ScriptCall>, GamepadError>)
    ensures
        match result {
            Ok(Some(call)) => has_gamepad_axis_changed_fn && call.function
                == SimulationFunction::GamepadAxisChanged && call.arguments@.len() == 3
                && call.arguments@[0]@ == ValueModel::Int(gamepad_id as i32) && (
            call.arguments@[1]@ matches ValueModel::EnumVariant(index) && is_variant(
                input_module.axis@.variants,
                axis_name_of(axis),
                index as int,
            )) && call.arguments@[2]@ == ValueModel::Float(value),
            Ok(None) => !has_gamepad_axis_changed_fn && !no_variant(
                input_module.axis@.variants,
                axis_name_of(axis),
            ),
            Err(GamepadError::UnknownVariant) => no_variant(
                input_module.axis@.variants,
                axis_name_of(axis),
            ),
            Err(GamepadError::GamepadIdOutOfRange) => false,
        },
{
    let axis_str = axis_name(axis);
    let variant = match get_variant(&input_module.axis, axis_str) {
        Some(index) => index,
        None => {
            return Err(GamepadError::UnknownVariant);
        },
    };
    assert(input_module.axis@.variants[variant as int] == axis_name_of(axis));
    if !has_gamepad_axis_changed_fn {
        return Ok(None);
    }
    let mut arguments: Vec<ScriptValue> = Vec::new();
    arguments.push(ScriptValue::Int(gamepad_id as i32));
    arguments.push(ScriptValue::EnumVariant(variant));
    arguments.push(ScriptValue::Float(value));
    Ok(Some(ScriptCall { function: SimulationFunction::GamepadAxisChanged, arguments }))
}

/// The simulation script's state as the host keeps it.
#[derive(Debug)]
pub struct ScriptSimulation {
    simulation_value: ScriptValue,
    has_gamepad_axis_changed_fn: bool,
    has_gamepad_button_changed_fn: bool,
    external_functions: ExternalFunctions,
    input_module: InputModule,
}

/// Which member functions the simulation struct has.
#[derive(Debug, Clone, Copy, PartialEq, Eq, Structural)]
pub struct SimulationFunctions {
    pub tick: bool,
    pub gamepad_axis_changed: bool,
    pub gamepad_button_changed: bool,
}

impl ScriptSimulation {
    /// The simulation value.
    pub closed spec fn value(&self) -> ValueModel {
        self.simulation_value@
    }

    /// The member functions that the simulation has.
    pub closed spec fn functions(&self) -> SimulationFunctions {
        SimulationFunctions {
            tick: true,
            gamepad_axis_changed: self.has_gamepad_axis_changed_fn,
            gamepad_button_changed: self.has_gamepad_button_changed_fn,
        }
    }

    /// The enums through which the simulation sees the gamepad.
    pub closed spec fn module(&self) -> InputModule {
        self.input_module
    }

    /// The native functions that the simulation's script can call, by id.
    pub closed spec fn externals(&self) -> Map<ExternalFunctionId, HostFunction> {
        self.external_functions@
    }

    /// A simulation on its value, with the gamepad functions that it has and
    /// the native functions that its script can call.
    pub fn new(
        simulation_value: ScriptValue,
        has_gamepad_axis_changed_fn: bool,
        has_gamepad_button_changed_fn: bool,
        external_functions: ExternalFunctions,
        input_module: InputModule,
    ) -> (simulation: Self)
        ensures
            simulation.value() == simulation_value@,
            simulation.functions() == (SimulationFunctions {
                tick: true,
                gamepad_axis_changed: has_gamepad_axis_changed_fn,
                gamepad_button_changed: has_gamepad_button_changed_fn,
            }),
            simulation.externals() == external_functions@,
            simulation.module() == input_module,
    {
        Self {
            simulation_value,
            has_gamepad_axis_changed_fn,
            has_gamepad_button_changed_fn,
            external_functions,
            input_module,
        }
    }

    /// Takes a call that the simulation's script makes through an external
    /// function id: the command of the native function bound to the id, or
    /// the error that nothing is bound to it or that the arguments are
    /// refused.
    pub fn invoke(&self, function_id: ExternalFunctionId, args: &Vec<ScriptValue>) -> (result:
        Result<HostCommand, InvokeError>)
        ensures
            match result {
                Ok(command) => invoked(self.externals(), function_id, views(args@)) == Ok::<
                    CommandModel,
                    InvokeError,
                >(command@),
                Err(e) => invoked(self.externals(), function_id, views(args@)) == Err::<
                    CommandModel,
                    InvokeError,
                >(e),
            },
    {
        self.external_functions.invoke(function_id, args)
    }

    /// A copy of the simulation value.
    pub fn immutable_simulation_value(&self) -> (value: ScriptValue)
        ensures
            value@ == self.value(),
    {
        self.simulation_value.duplicate()
    }

    /// Replaces the simulation value.
    pub fn debug_set_simulation_value(&mut self, value: ScriptValue)
        ensures
            final(self).value() == value@,
            final(self).functions() == old(self).functions(),
            final(self).externals() == old(self).externals(),
            final(self).module() == old(self).module(),
    {
        self.simulation_value = value;
    }

    /// The call that a gamepad message stands for. Only changes of buttons and
    /// axes reach the script.
    pub fn gamepad(&self, msg: &GamepadMessage) -> (result: Result<
        Option<ScriptCall>,
        GamepadError,
    >)
        ensures
            match msg {
                GamepadMessage::ButtonChanged(gamepad_id, button, value) => match result {
                    Ok(Some(call)) => self.functions().gamepad_button_changed && *gamepad_id
                        <= i32::MAX && call.function == SimulationFunction::GamepadButtonChanged
                        && call.arguments@.len() == 3 && call.arguments@[0]@ == ValueModel::Int(
                        *gamepad_id as i32,
                    ) && (call.arguments@[1]@ matches ValueModel::EnumVariant(index)
                        && is_variant(
                        self.module().button@.variants,
                        button_name_of(*button),
                        index as int,
                    )) && call.arguments@[2]@ == ValueModel::Float(*value),
                    Ok(None) => !self.functions().gamepad_button_changed && !no_variant(
                        self.module().button@.variants,
                        button_name_of(*button),
                    ),
                    Err(GamepadError::UnknownVariant) => no_variant(
                        self.module().button@.variants,
                        button_name_of(*button),
                    ),
                    Err(GamepadError::GamepadIdOutOfRange) => self.functions().gamepad_button_changed
                        && *gamepad_id > i32::MAX && !no_variant(
                        self.module().button@.variants,
                        button_name_of(*button),
                    ),
                },
                GamepadMessage::AxisChanged(gamepad_id, axis, value) => match result {
                    Ok(Some(call)) => self.functions().gamepad_axis_changed && call.function
                        == SimulationFunction::GamepadAxisChanged && call.arguments@.len() == 3
                        && call.arguments@[0]@ == ValueModel::Int(*gamepad_id as i32) && (
                    call.arguments@[1]@ matches ValueModel::EnumVariant(index) && is_variant(
                        self.module().axis@.variants,
                        axis_name_of(*axis),
                        index as int,
                    )) && call.arguments@[2]@ == ValueModel::Float(*value),
                    Ok(None) => !self.functions().gamepad_axis_changed && !no_variant(
                        self.module().axis@.variants,
                        axis_name_of(*axis),
                    ),
                    Err(GamepadError::UnknownVariant) => no_variant(
                        self.module().axis@.variants,
                        axis_name_of(*axis),
                    ),
                    Err(GamepadError::GamepadIdOutOfRange) => false,
                },
                _ => result matches Ok(None),
            },
    {
        match msg {
            GamepadMessage::Connected(_, _) => Ok(None),
            GamepadMessage::Disconnected(_) => Ok(None),
            GamepadMessage::Activated(_) => Ok(None),
            GamepadMessage::ButtonChanged(gamepad_id, button, value) => button_changed(
                &self.input_module,
                self.has_gamepad_button_changed_fn,
                *gamepad_id,
                *button,
                *value,
            ),
            GamepadMessage::AxisChanged(gamepad_id, axis, value) => axis_changed(
                &self.input_module,
                self.has_gamepad_axis_changed_fn,
                *gamepad_id,
                *axis,
                *value,
            ),
        }
    }
}

/// The words in which a failed start of the simulation is reported.
pub open spec fn boot_message(simulation_value: ValueModel, functions: SimulationFunctions) -> Option<
    Seq<char>,
> {
    if !(simulation_value is Struct) {
        Some("needs to be simulation struct"@)
    } else if !functions.tick {
        Some("must have function tick"@)
    } else {
        None
    }
}

/// The native functions that a simulation's script can call: `print`, under
/// the id that analysis gave it, and nothing else.
pub fn simulation_externals(print_id: ExternalFunctionId) -> (externals: ExternalFunctions)
    ensures
        externals@ == Map::<ExternalFunctionId, HostFunction>::empty().insert(
            print_id,
            HostFunction::Print,
        ),
{
    let mut externals = ExternalFunctions::new();
    register_print(print_id, &mut externals);
    externals
}

/// Starts the simulation from the value that the script's `simulation`
/// function gave. The value must be a struct, and the struct must have the
/// member function `tick`; the gamepad functions are taken where they exist.
/// In the started simulation `print` is bound to `print_id`, and no other
/// native function is bound.
pub fn boot(
    simulation_value: ScriptValue,
    functions: SimulationFunctions,
    print_id: ExternalFunctionId,
) -> (result: Result<ScriptSimulation, MangroveError>)
    ensures
        match result {
            Ok(simulation) => boot_message(simulation_value@, functions) is None
                && simulation.value() == simulation_value@ && simulation.functions() == functions
                && simulation.externals() == Map::<ExternalFunctionId, HostFunction>::empty().insert(
                print_id,
                HostFunction::Print,
            ) && simulation.module().axis@ == (EnumModel {
                name: "Axis"@,
                variants: axis_variant_names(),
            }) && simulation.module().button@ == (EnumModel {
                name: "Button"@,
                variants: button_variant_names(),
            }),
            Err(MangroveError::Other(message)) => boot_message(simulation_value@, functions)
                == Some(message@),
            Err(_) => false,
        },
{
    let is_struct = match &simulation_value {
        ScriptValue::Struct(_) => true,
        _ => false,
    };
    if !is_struct {
        return Err(MangroveError::Other("needs to be simulation struct".to_string()));
    }
    if !functions.tick {
        return Err(MangroveError::Other("must have function tick".to_string()));
    }
    Ok(
        ScriptSimulation::new(
            simulation_value,
            functions.gamepad_axis_changed,
            functions.gamepad_button_changed,
            simulation_externals(print_id),
            input_module(),
        ),
    )
}

/// The names of the script functions that start the simulation and the
/// renderer.
pub open spec fn entry_points_message(has_simulation: bool, has_render: bool) -> Option<Seq<char>> {
    if has_simulation && has_render {
        None
    } else {
        Some("no main function"@)
    }
}

/// Checks that the main module has both entry points, `simulation` and
/// `render`.
pub fn check_entry_points(has_simulation: bool, has_render: bool) -> (result: Result<
    (),
    MangroveError,
>)
    ensures
        match result {
            Ok(()) => entry_points_message(has_simulation, has_render) is None,
            Err(MangroveError::Other(message)) => entry_points_message(has_simulation, has_render)
                == Some(message@),
            Err(_) => false,
        },
{
    if has_simulation && has_render {
        Ok(())
    } else {
        Err(MangroveError::Other("no main function".to_string()))
    }
}


/// In the `Button` enum of the input module every button is found by its
/// name, at the place that its index says.
pub proof fn lemma_button_variants(button: Button)
    ensures
        is_variant(button_variant_names(), button_name_of(button), button_index_of(button) as int),
{
    reveal_strlit("South");
    reveal_strlit("East");
    reveal_strlit("North");
    reveal_strlit("West");
    reveal_strlit("LeftTrigger");
    reveal_strlit("LeftTrigger2");
    reveal_strlit("RightTrigger");
    reveal_strlit("RightTrigger2");
    reveal_strlit("Select");
    reveal_strlit("Start");
    reveal_strlit("Mode");
    reveal_strlit("LeftThumb");
    reveal_strlit("RightThumb");
    reveal_strlit("DPadUp");
    reveal_strlit("DPadDown");
    reveal_strlit("DPadLeft");
    reveal_strlit("DPadRight");
    let names = button_variant_names();
    let name = button_name_of(button);
    assert forall|j: int| 0 <= j < button_index_of(button) implies names[j] != name by {
        assert(names[j].len() != name.len() || names[j][0] != name[0] || names[j][1] != name[1]
            || names[j][4] != name[4]);
    }
}

/// In the `Axis` enum of the input module every axis is found by its name, at
/// the place that its index says.
pub proof fn lemma_axis_variants(axis: Axis)
    ensures
        is_variant(axis_variant_names(), axis_name_of(axis), axis_index_of(axis) as int),
{
    reveal_strlit("LeftStickX");
    reveal_strlit("LeftStickY");
    reveal_strlit("RightStickX");
    reveal_strlit("RightStickY");
    let names = axis_variant_names();
    let name = axis_name_of(axis);
    assert forall|j: int| 0 <= j < axis_index_of(axis) implies names[j] != name by {
        assert(names[j].len() != name.len() || names[j][9] != name[9] || names[j][10]
            != name[10]);
    }
}


/// The call of one simulation tick: the member function `tick`, on the
/// simulation value alone. No call is made while an error is pending.
pub fn simulation_tick(error: &ErrorResource) -> (call: Option<ScriptCall>)
    ensures
        match call {
            Some(c) => !error.has_errors && c.function == SimulationFunction::Tick
                && c.arguments@.len() == 0,
            None => error.has_errors,
        },
{
    if error.has_errors {
        return None;
    }
    Some(ScriptCall { function: SimulationFunction::Tick, arguments: Vec::new() })
}

} // verus!
