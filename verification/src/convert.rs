//! Keeping the simulation state from tick to tick, and bringing it back after
//! a reload.

use vstd::prelude::*;
use crate::codec::{encode, readable, serialize, strings_fit, SerializeError};
use crate::migrate::{
    migrate, migrated, theorem_reload_preserves_same_layout, theorem_reload_under_added_fields,
};
use crate::reload::SNAPSHOT_CAPACITY;
use crate::value::{conforms, ScriptValue, StructModel, StructType, TypeModel, ValueModel};
use crate::ScriptMessage;

verus! {

/// What is kept of the simulation between ticks: the type id of the struct
/// that the last reload made live, and the last serialized state.
#[derive(Debug, Clone, PartialEq, Eq)]
pub struct PreviousSimulation {
    type_ref: Option<u32>,
    payload: Vec<u8>,
}

impl PreviousSimulation {
    /// Nothing kept yet.
    pub fn new() -> (previous: Self)
        ensures
            previous.type_ref() is None,
            previous.payload_bytes() == Seq::<u8>::empty(),
    {
        Self { type_ref: None, payload: Vec::new() }
    }

    /// The type id that the last reload noted.
    pub closed spec fn type_ref(&self) -> Option<u32> {
        self.type_ref
    }

    /// The last serialized state.
    pub closed spec fn payload_bytes(&self) -> Seq<u8> {
        self.payload@
    }

    /// The type id that the last reload noted.
    pub fn noted_type(&self) -> (type_id: Option<u32>)
        ensures
            type_id == self.type_ref(),
    {
        self.type_ref
    }

    /// The last serialized state.
    pub fn payload(&self) -> (bytes: &Vec<u8>)
        ensures
            bytes@ == self.payload_bytes(),
    {
        &self.payload
    }
}

/// Keeps the serialized form of the simulation value. Where the value cannot
/// be serialized, what was kept before stays.
pub fn store_tick(simulation_value: &ScriptValue, previous_logic: &mut PreviousSimulation) -> (result:
    Result<(), SerializeError>)
    ensures
        final(previous_logic).type_ref() == old(previous_logic).type_ref(),
        match result {
            Ok(()) => strings_fit(simulation_value@) && encode(simulation_value@).len()
                <= SNAPSHOT_CAPACITY && final(previous_logic).payload_bytes() == encode(
                simulation_value@,
            ),
            Err(SerializeError::StringTooLong) => !strings_fit(simulation_value@) && final(previous_logic).payload_bytes() == old(previous_logic).payload_bytes(),
            Err(SerializeError::BufferFull) => strings_fit(simulation_value@) && encode(
                simulation_value@,
            ).len() > SNAPSHOT_CAPACITY && final(previous_logic).payload_bytes() == old(previous_logic).payload_bytes(),
        },
{
    match serialize(simulation_value, SNAPSHOT_CAPACITY) {
        Ok(bytes) => {
            previous_logic.payload = bytes;
            Ok(())
        },
        Err(e) => Err(e),
    }
}

/// The simulation value after a run of reload messages: every reload
/// migrates the kept bytes into the value.
pub open spec fn reloaded(
    messages: nat,
    layout: StructModel,
    value: ValueModel,
    payload: Seq<u8>,
) -> ValueModel
    decreases messages,
{
    if messages == 0 {
        value
    } else {
        reloaded((messages - 1) as nat, layout, migrated(layout, value, payload), payload)
    }
}

/// Serves the reload messages of one frame. `simulation_value` is the value
/// that the new generation started with and `layout` its struct; what comes
/// back is the value to install: the started value with the kept state
/// migrated into it. A reload also notes the type id of the struct that is
/// live from now on.
pub fn detect_reload_tick(
    script_messages: &Vec<ScriptMessage>,
    layout: &StructType,
    simulation_value: ScriptValue,
    previous_logic: &mut PreviousSimulation,
) -> (installed: ScriptValue)
    ensures
        installed@ == reloaded(
            script_messages@.len(),
            layout@,
            simulation_value@,
            old(previous_logic).payload_bytes(),
        ),
        final(previous_logic).payload_bytes() == old(previous_logic).payload_bytes(),
        final(previous_logic).type_ref() == if script_messages@.len() > 0 {
            Some(layout.type_id)
        } else {
            old(previous_logic).type_ref()
        },
{
    let mut value = simulation_value;
    let mut i: usize = 0;
    while i < script_messages.len()
        invariant
            i <= script_messages.len(),
            previous_logic.payload_bytes() == old(previous_logic).payload_bytes(),
            previous_logic.type_ref() == if i > 0 {
                Some(layout.type_id)
            } else {
                old(previous_logic).type_ref()
            },
            reloaded(
                script_messages@.len(),
                layout@,
                simulation_value@,
                old(previous_logic).payload_bytes(),
            ) == reloaded(
                (script_messages@.len() - i) as nat,
                layout@,
                value@,
                previous_logic.payload_bytes(),
            ),
        decreases script_messages.len() - i,
    {
        match script_messages[i] {
            ScriptMessage::Reload => {
                value = migrate(layout, value, previous_logic.payload.as_slice());
                previous_logic.type_ref = Some(layout.type_id);
            },
        }
        i += 1;
    }
    value
}

/// Reload preserves the kept state: where the kept bytes are those of a value
/// of the struct that the new generation has, any number of reloads, one or
/// more, installs that value, whatever the new generation started with.
pub proof fn theorem_kept_state_is_installed(
    messages: nat,
    layout: StructModel,
    kept: ValueModel,
    fresh: ValueModel,
)
    requires
        messages >= 1,
        conforms(kept, TypeModel::Struct(layout)),
        conforms(fresh, TypeModel::Struct(layout)),
        strings_fit(kept),
        readable(TypeModel::Struct(layout)),
    ensures
        reloaded(messages, layout, fresh, encode(kept)) == kept,
    decreases messages,
{
    theorem_reload_preserves_same_layout(layout, kept, fresh);
    if messages > 1 {
        theorem_kept_state_is_installed((messages - 1) as nat, layout, kept, kept);
    }
}

/// Reload under added fields: where the new generation's struct is the old
/// one with fields added behind it, one reload installs the kept state in the
/// old fields and leaves each added field at the value that the new
/// generation started with.
pub proof fn theorem_kept_state_is_installed_under_added_fields(
    old_layout: StructModel,
    new_layout: StructModel,
    kept: ValueModel,
    fresh: ValueModel,
)
    requires
        conforms(kept, TypeModel::Struct(old_layout)),
        conforms(fresh, TypeModel::Struct(new_layout)),
        strings_fit(kept),
        readable(TypeModel::Struct(old_layout)),
        old_layout.field_types.len() <= new_layout.field_types.len(),
        new_layout.field_types.take(old_layout.field_types.len() as int)
            == old_layout.field_types,
    ensures
        reloaded(1, new_layout, fresh, encode(kept)) == ValueModel::Struct(
            kept->Struct_0 + fresh->Struct_0.skip(kept->Struct_0.len() as int),
        ),
{
    theorem_reload_under_added_fields(old_layout, new_layout, kept, fresh);
    assert(reloaded(0, new_layout, migrated(new_layout, fresh, encode(kept)), encode(kept))
        == migrated(new_layout, fresh, encode(kept)));
}

} // verus!
