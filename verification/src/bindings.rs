//! Input configuration: named sets of digital and analog actions.

use seq_map::SeqMap;
use vstd::prelude::*;

verus! {

/// `SeqMap` of seq_map, a map that keeps its entries in the order in which
/// they were added. Nothing is claimed of what is inside it but through the
/// functions below.
#[verifier::external_type_specification]
#[verifier::external_body]
#[verifier::reject_recursive_types(K)]
#[verifier::reject_recursive_types(V)]
pub struct ExSeqMap<K, V>(SeqMap<K, V>);

/// An action that is on or off.
#[derive(Debug, Clone, PartialEq, Eq)]
pub struct DigitalAction {
    pub name: String,
}

/// An action with a position on two axes.
#[derive(Debug, Clone, PartialEq, Eq)]
pub struct AnalogAction {
    pub name: String,
}

/// The actions of one set.
#[derive(Debug, Clone, PartialEq, Eq)]
pub struct Actions {
    pub digital: Vec<DigitalAction>,
    pub analog: Vec<AnalogAction>,
}

/// The action sets by name, in the order in which they were added.
#[derive(Debug)]
pub struct ActionSets {
    pub sets: SeqMap<String, Actions>,
}

/// The input configuration.
#[derive(Debug)]
pub struct InputConfig {
    pub action_sets: ActionSets,
}

/// Mathematical model of the actions of one set: the names of the digital
/// actions and those of the analog actions, each in order.
pub struct ActionsModel {
    pub digital: Seq<Seq<char>>,
    pub analog: Seq<Seq<char>>,
}

/// The names of a run of digital actions.
pub open spec fn digital_names(actions: Seq<DigitalAction>) -> Seq<Seq<char>> {
    Seq::new(actions.len(), |i: int| actions[i].name@)
}

/// The names of a run of analog actions.
pub open spec fn analog_names(actions: Seq<AnalogAction>) -> Seq<Seq<char>> {
    Seq::new(actions.len(), |i: int| actions[i].name@)
}

impl View for Actions {
    type V = ActionsModel;

    open spec fn view(&self) -> ActionsModel {
        ActionsModel { digital: digital_names(self.digital@), analog: analog_names(self.analog@) }
    }
}

/// What a map of action sets holds: each set's name and actions, in the order
/// in which the sets were added.
pub uninterp spec fn action_set_entries(sets: SeqMap<String, Actions>) -> Seq<
    (Seq<char>, ActionsModel),
>;

/// Whether a name is among the first names of the entries.
pub open spec fn has_name<T>(entries: Seq<(Seq<char>, T)>, name: Seq<char>) -> bool {
    exists|i: int| 0 <= i < entries.len() && (#[trigger] entries[i]).0 == name
}

/// `SeqMap::new` of seq_map: the map that it gives holds nothing.
#[verifier::external_body]
pub(crate) fn action_sets_new() -> (sets: SeqMap<String, Actions>)
    ensures
        action_set_entries(sets) == Seq::<(Seq<char>, ActionsModel)>::empty(),
{
    SeqMap::new()
}

/// `SeqMap::insert` of seq_map. A name that the map holds already is refused
/// and the map stays as it was; a new name is added, with its actions, behind
/// the entries that the map holds.
#[verifier::external_body]
pub(crate) fn action_sets_insert(sets: &mut SeqMap<String, Actions>, name: String, actions: Actions) -> (added:
    bool)
    ensures
        added == !has_name(action_set_entries(*old(sets)), name@),
        added ==> action_set_entries(*final(sets)) == action_set_entries(*old(sets)).push(
            (name@, actions@),
        ),
        !added ==> action_set_entries(*final(sets)) == action_set_entries(*old(sets)),
{
    sets.insert(name, actions).is_ok()
}

/// Whether no name occurs twice among the entries.
pub open spec fn names_differ<T>(entries: Seq<(Seq<char>, T)>) -> bool {
    forall|j: int, k: int|
        0 <= j < k < entries.len() ==> (#[trigger] entries[j]).0 != (#[trigger] entries[k]).0
}

/// `SeqMap::iter` of seq_map, gathered: the entries that the map holds, in the
/// order in which they were added. No name occurs twice among them, since the
/// map takes a name only once.
#[verifier::external_body]
pub(crate) fn action_sets_iter(sets: &SeqMap<String, Actions>) -> (entries: Vec<(&String, &Actions)>)
    ensures
        entries@.len() == action_set_entries(*sets).len(),
        forall|i: int|
            0 <= i < entries@.len() ==> (#[trigger] entries@[i]).0@ == action_set_entries(
                *sets,
            )[i].0 && entries@[i].1@ == action_set_entries(*sets)[i].1,
        forall|j: int, k: int|
            0 <= j < k < entries@.len() ==> (#[trigger] entries@[j]).0@ != (
            #[trigger] entries@[k]).0@,
{
    sets.iter().collect()
}

} // verus!
