//! Binding the input configuration to the handles of the platform's input
//! service.
//!
//! The platform hands out a number for every action set and action that it
//! knows by name, and zero for a name that it does not know. Asking is the
//! host's part; pairing the answers with the configuration is done here.

use seq_map::SeqMap;
use vstd::prelude::*;
use crate::bindings::{
    action_set_entries, action_sets_iter, has_name, names_differ, Actions, ActionsModel,
    InputConfig,
};

verus! {

/// A game controller as the platform knows it.
#[derive(Debug, Clone, PartialEq, Eq)]
pub struct SteamworksGamepad {}

/// A digital action and its handle.
#[derive(Debug, Clone, PartialEq, Eq)]
pub struct DigitalActionBinding {
    pub debug_name: String,
    pub handle: u64,
}

/// An analog action and its handle.
#[derive(Debug, Clone, PartialEq, Eq)]
pub struct AnalogActionBinding {
    pub debug_name: String,
    pub handle: u64,
}

/// An action set's handle and the bindings of its actions.
#[derive(Debug, Clone, PartialEq, Eq)]
pub struct ActionBindings {
    pub handle: u64,
    pub digital: Vec<DigitalActionBinding>,
    pub analog: Vec<AnalogActionBinding>,
}

/// The bound action sets by name, in the order of the configuration.
#[derive(Debug)]
pub struct ActionBindingSets {
    pub sets: SeqMap<String, ActionBindings>,
}

/// The input configuration bound to the platform.
#[derive(Debug)]
pub struct SteamworksInputBindings {
    pub action_sets: ActionBindingSets,
}

/// The handles that the platform gave for one action set: that of the set,
/// and those of its analog and of its digital actions, each in the order of
/// the configuration.
#[derive(Debug, Clone, PartialEq, Eq)]
pub struct ActionSetHandles {
    pub set: u64,
    pub analog: Vec<u64>,
    pub digital: Vec<u64>,
}

/// Mathematical model of a bound action set.
pub struct ActionBindingsModel {
    pub handle: u64,
    pub digital: Seq<(Seq<char>, u64)>,
    pub analog: Seq<(Seq<char>, u64)>,
}

/// The names and handles of a run of digital bindings.
pub open spec fn digital_bindings(bindings: Seq<DigitalActionBinding>) -> Seq<(Seq<char>, u64)> {
    Seq::new(bindings.len(), |i: int| (bindings[i].debug_name@, bindings[i].handle))
}

/// The names and handles of a run of analog bindings.
pub open spec fn analog_bindings(bindings: Seq<AnalogActionBinding>) -> Seq<(Seq<char>, u64)> {
    Seq::new(bindings.len(), |i: int| (bindings[i].debug_name@, bindings[i].handle))
}

impl View for ActionBindings {
    type V = ActionBindingsModel;

    open spec fn view(&self) -> ActionBindingsModel {
        ActionBindingsModel {
            handle: self.handle,
            digital: digital_bindings(self.digital@),
            analog: analog_bindings(self.analog@),
        }
    }
}

/// What a map of bound action sets holds: each set's name and bindings, in
/// the order in which the sets were added.
pub uninterp spec fn action_binding_entries(sets: SeqMap<String, ActionBindings>) -> Seq<
    (Seq<char>, ActionBindingsModel),
>;

/// `SeqMap::default` of seq_map: the map that it gives holds nothing.
#[verifier::external_body]
fn binding_sets_new() -> (sets: SeqMap<String, ActionBindings>)
    ensures
        action_binding_entries(sets) == Seq::<(Seq<char>, ActionBindingsModel)>::empty(),
{
    SeqMap::default()
}

/// `SeqMap::insert` of seq_map. A name that the map holds already is refused
/// and the map stays as it was; a new name is added, with its bindings, behind
/// the entries that the map holds.
#[verifier::external_body]
fn binding_sets_insert(sets: &mut SeqMap<String, ActionBindings>, name: String, bindings: ActionBindings) -> (added:
    bool)
    ensures
        added == !has_name(action_binding_entries(*old(sets)), name@),
        added ==> action_binding_entries(*final(sets)) == action_binding_entries(*old(sets)).push(
            (name@, bindings@),
        ),
        !added ==> action_binding_entries(*final(sets)) == action_binding_entries(*old(sets)),
{
    sets.insert(name, bindings).is_ok()
}

/// `SeqMap::iter` of seq_map, gathered: the entries that the map holds, in the
/// order in which they were added.
#[verifier::external_body]
fn binding_sets_iter(sets: &SeqMap<String, ActionBindings>) -> (entries: Vec<
    (&String, &ActionBindings),
>)
    ensures
        entries@.len() == action_binding_entries(*sets).len(),
        forall|i: int|
            0 <= i < entries@.len() ==> (#[trigger] entries@[i]).0@ == action_binding_entries(
                *sets,
            )[i].0 && entries@[i].1@ == action_binding_entries(*sets)[i].1,
{
    sets.iter().collect()
}

/// The names of a run, each paired with the handle at its place.
pub open spec fn paired(names: Seq<Seq<char>>, handles: Seq<u64>) -> Seq<(Seq<char>, u64)> {
    Seq::new(names.len(), |i: int| (names[i], handles[i]))
}

/// Whether the platform gave one handle for every action of the set.
pub open spec fn handles_fit(actions: ActionsModel, handles: ActionSetHandles) -> bool {
    handles.analog@.len() == actions.analog.len() && handles.digital@.len()
        == actions.digital.len()
}

/// Whether the platform gave handles for every set and for every action.
pub open spec fn all_handles_fit(
    entries: Seq<(Seq<char>, ActionsModel)>,
    handles: Seq<ActionSetHandles>,
) -> bool {
    handles.len() == entries.len() && forall|k: int|
        0 <= k < entries.len() ==> handles_fit((#[trigger] entries[k]).1, handles[k])
}

/// An action set bound to its handles.
pub open spec fn bound_set(actions: ActionsModel, handles: ActionSetHandles) -> ActionBindingsModel {
    ActionBindingsModel {
        handle: handles.set,
        digital: paired(actions.digital, handles.digital@),
        analog: paired(actions.analog, handles.analog@),
    }
}

/// The action sets of a configuration bound to their handles, in order.
pub open spec fn bound_sets(
    entries: Seq<(Seq<char>, ActionsModel)>,
    handles: Seq<ActionSetHandles>,
) -> Seq<(Seq<char>, ActionBindingsModel)> {
    Seq::new(entries.len(), |k: int| (entries[k].0, bound_set(entries[k].1, handles[k])))
}

/// Binds one action set to the handles that the platform gave for it.
pub fn bind_action_set(actions_in_set: &Actions, handles: &ActionSetHandles) -> (binding_set:
    ActionBindings)
    requires
        handles_fit(actions_in_set@, *handles),
    ensures
        binding_set@ == bound_set(actions_in_set@, *handles),
{
    let mut analog: Vec<AnalogActionBinding> = Vec::new();
    let mut i: usize = 0;
    while i < actions_in_set.analog.len()
        invariant
            i <= actions_in_set.analog.len(),
            handles.analog@.len() == actions_in_set.analog@.len(),
            analog@.len() == i,
            forall|j: int|
                0 <= j < i ==> (#[trigger] analog@[j]).debug_name@
                    == actions_in_set.analog@[j].name@ && analog@[j].handle == handles.analog@[j],
        decreases actions_in_set.analog.len() - i,
    {
        let converted_name = actions_in_set.analog[i].name.clone();
        analog.push(AnalogActionBinding { debug_name: converted_name, handle: handles.analog[i] });
        i += 1;
    }
    let mut digital: Vec<DigitalActionBinding> = Vec::new();
    let mut i: usize = 0;
    while i < actions_in_set.digital.len()
        invariant
            i <= actions_in_set.digital.len(),
            handles.digital@.len() == actions_in_set.digital@.len(),
            digital@.len() == i,
            forall|j: int|
                0 <= j < i ==> (#[trigger] digital@[j]).debug_name@
                    == actions_in_set.digital@[j].name@ && digital@[j].handle
                    == handles.digital@[j],
        decreases actions_in_set.digital.len() - i,
    {
        let converted_name = actions_in_set.digital[i].name.clone();
        digital.push(
            DigitalActionBinding { debug_name: converted_name, handle: handles.digital[i] },
        );
        i += 1;
    }
    let binding_set = ActionBindings { handle: handles.set, digital, analog };
    assert(binding_set@.analog =~= paired(actions_in_set@.analog, handles.analog@));
    assert(binding_set@.digital =~= paired(actions_in_set@.digital, handles.digital@));
    binding_set
}

/// Binds the input configuration to the handles that the platform gave:
/// `handles` holds, for each action set in the order of the configuration, the
/// handle of the set and those of its actions.
///
/// Gives the bindings exactly where there are handles for every set and every
/// action, no more and no fewer.
pub fn convert_bindings(config: &InputConfig, handles: &Vec<ActionSetHandles>) -> (result: Option<
    SteamworksInputBindings,
>)
    ensures
        match result {
            Some(bindings) => all_handles_fit(action_set_entries(config.action_sets.sets), handles@)
                && action_binding_entries(bindings.action_sets.sets) == bound_sets(
                action_set_entries(config.action_sets.sets),
                handles@,
            ),
            None => !all_handles_fit(action_set_entries(config.action_sets.sets), handles@),
        },
{
    let entries = action_sets_iter(&config.action_sets.sets);
    let ghost source = action_set_entries(config.action_sets.sets);
    let ghost target = bound_sets(source, handles@);
    if entries.len() != handles.len() {
        return None;
    }
    proof {
        assert forall|j: int, k: int| 0 <= j < k < source.len() implies (#[trigger] source[j]).0
            != (#[trigger] source[k]).0 by {
            assert(entries@[j].0@ == source[j].0);
            assert(entries@[k].0@ == source[k].0);
        }
    }
    let mut sets = binding_sets_new();
    let mut k: usize = 0;
    proof {
        assert(target.take(0) =~= Seq::empty());
    }
    while k < entries.len()
        invariant
            k <= entries.len(),
            entries@.len() == handles@.len(),
            source == action_set_entries(config.action_sets.sets),
            target == bound_sets(source, handles@),
            names_differ(source),
            entries@.len() == source.len(),
            forall|j: int|
                0 <= j < entries@.len() ==> (#[trigger] entries@[j]).0@ == source[j].0
                    && entries@[j].1@ == source[j].1,
            forall|j: int| 0 <= j < k ==> handles_fit((#[trigger] source[j]).1, handles@[j]),
            action_binding_entries(sets) == target.take(k as int),
        decreases entries.len() - k,
    {
        let (set_name, actions_in_set) = entries[k];
        let set_handles = &handles[k];
        if set_handles.analog.len() != actions_in_set.analog.len() || set_handles.digital.len()
            != actions_in_set.digital.len() {
            assert(!handles_fit(source[k as int].1, handles@[k as int]));
            return None;
        }
        let binding_set = bind_action_set(actions_in_set, set_handles);
        let converted_set_name = set_name.clone();
        let ghost before = action_binding_entries(sets);
        let added = binding_sets_insert(&mut sets, converted_set_name, binding_set);
        proof {
            if has_name(before, set_name@) {
                let j = choose|j: int| 0 <= j < before.len() && (#[trigger] before[j]).0 == set_name@;
                assert(before[j] == target[j]);
                assert(source[j].0 == source[k as int].0);
            }
            assert(added);
            assert(target.take(k + 1) =~= target.take(k as int).push(target[k as int]));
        }
        k += 1;
    }
    proof {
        assert(target.take(k as int) =~= target);
    }
    Some(SteamworksInputBindings { action_sets: ActionBindingSets { sets } })
}

/// The bindings of the action set to use for a controller: the first set of
/// the configuration, whichever controller asks. None where no set is bound.
pub fn get_action_set_for_controller(_device_id: u64, bindings: &SteamworksInputBindings) -> (result:
    Option<&ActionBindings>)
    ensures
        match result {
            Some(set) => action_binding_entries(bindings.action_sets.sets).len() > 0 && set@
                == action_binding_entries(bindings.action_sets.sets)[0].1,
            None => action_binding_entries(bindings.action_sets.sets).len() == 0,
        },
{
    let entries = binding_sets_iter(&bindings.action_sets.sets);
    if entries.len() > 0 {
        Some(entries[0].1)
    } else {
        None
    }
}

/// The name of the first action set of the configuration, by which the host
/// asks the platform whether it has loaded a configuration yet.
pub fn first_action_set_name(input_config: &InputConfig) -> (name: Option<String>)
    ensures
        match name {
            Some(n) => action_set_entries(input_config.action_sets.sets).len() > 0 && n@
                == action_set_entries(input_config.action_sets.sets)[0].0,
            None => action_set_entries(input_config.action_sets.sets).len() == 0,
        },
{
    let entries = action_sets_iter(&input_config.action_sets.sets);
    if entries.len() > 0 {
        Some(entries[0].0.clone())
    } else {
        None
    }
}

/// Decides whether the bindings are to be made now: not twice, and not before
/// the platform knows the first action set, which it shows by a handle that is
/// not zero.
pub fn waiting_for_flaky_steam_input_to_load(is_initialized: bool, first_set_handle: Option<u64>) -> (bind_now:
    bool)
    ensures
        bind_now == (!is_initialized && first_set_handle is Some && first_set_handle->0 != 0),
{
    if is_initialized {
        return false;
    }
    match first_set_handle {
        Some(handle) => handle != 0,
        None => false,
    }
}

} // verus!
