//! The script's view of the player's input: bindings to actions, and the mouse.

use seq_map::SeqMap;
use vstd::prelude::*;
use crate::bindings::{
    action_set_entries, action_sets_insert, action_sets_new, analog_names, digital_names,
    has_name, names_differ, ActionSets, Actions, ActionsModel, AnalogAction, DigitalAction, InputConfig,
};
use crate::script::{MangroveError, URect, UVec2};
use crate::value::{
    duplicate_all, lemma_field_type_views, lemma_type_views, lemma_view_type_slots, lemma_views,
    views, ScriptType, ScriptValue, StructModel, StructType, TypeModel, ValueModel,
};

verus! {

/// Whether a binding is on or off, or has a position on two axes.
#[derive(Debug, Clone, Copy, PartialEq, Eq, Structural)]
pub enum BindingKind {
    Digital,
    Analog,
}

/// One field of an input struct, bound to an action of the same name.
#[derive(Debug, Clone, PartialEq, Eq)]
pub struct Binding {
    pub name: String,
    pub struct_field_index: usize,
    pub kind: BindingKind,
}

/// The bindings of one input struct, in the order of its fields.
#[derive(Debug, Clone, PartialEq, Eq)]
pub struct BindingsInSet {
    pub bindings_in_source_order: Vec<Binding>,
}

/// Mathematical model of a binding.
pub struct BindingModel {
    pub name: Seq<char>,
    pub struct_field_index: usize,
    pub kind: BindingKind,
}

impl View for Binding {
    type V = BindingModel;

    open spec fn view(&self) -> BindingModel {
        BindingModel {
            name: self.name@,
            struct_field_index: self.struct_field_index,
            kind: self.kind,
        }
    }
}

impl View for BindingsInSet {
    type V = Seq<BindingModel>;

    open spec fn view(&self) -> Seq<BindingModel> {
        Seq::new(
            self.bindings_in_source_order@.len(),
            |i: int| self.bindings_in_source_order@[i]@,
        )
    }
}

/// Why a field of an input struct cannot be bound.
#[derive(Debug, Clone, Copy, PartialEq, Eq, Structural)]
pub enum ScanError {
    /// The field is neither a bool nor a pair.
    StrangeFieldType,
    /// The field is a pair without a float in it.
    StrangeFieldTypeTuple,
}

/// The kind of binding that a field of the given type is: a bool is digital, a
/// pair with a float in it is analog, and nothing else can be bound.
pub open spec fn binding_kind_of(ty: TypeModel) -> Result<BindingKind, ScanError> {
    match ty {
        TypeModel::Bool => Ok(BindingKind::Digital),
        TypeModel::Tuple(items) => if items.len() != 2 {
            Err(ScanError::StrangeFieldType)
        } else if !(items[0] is Float) && !(items[1] is Float) {
            Err(ScanError::StrangeFieldTypeTuple)
        } else {
            Ok(BindingKind::Analog)
        },
        _ => Err(ScanError::StrangeFieldType),
    }
}

/// The bindings of the first `count` fields of a struct, or the error of the
/// first of them that cannot be bound.
pub open spec fn scanned(definition: StructModel, count: nat) -> Result<Seq<BindingModel>, ScanError>
    decreases count,
{
    if count == 0 {
        Ok(Seq::empty())
    } else {
        match scanned(definition, (count - 1) as nat) {
            Err(e) => Err(e),
            Ok(bindings) => match binding_kind_of(definition.field_types[count - 1]) {
                Err(e) => Err(e),
                Ok(kind) => Ok(
                    bindings.push(
                        BindingModel {
                            name: definition.field_names[count - 1],
                            struct_field_index: (count - 1) as usize,
                            kind,
                        },
                    ),
                ),
            },
        }
    }
}

/// The words in which a scan error is reported.
pub open spec fn scan_message(error: ScanError) -> Seq<char> {
    match error {
        ScanError::StrangeFieldType => "strange field type"@,
        ScanError::StrangeFieldTypeTuple => "strange field type tuple"@,
    }
}

/// Tells which kind of binding a field of the given type is.
pub fn binding_kind(ty: &ScriptType) -> (result: Result<BindingKind, ScanError>)
    ensures
        result == binding_kind_of(ty@),
{
    match ty {
        ScriptType::Bool => Ok(BindingKind::Digital),
        ScriptType::Tuple(items) => {
            proof {
                lemma_type_views(items@);
            }
            if items.len() != 2 {
                return Err(ScanError::StrangeFieldType);
            }
            let first_is_float = match &items[0] {
                ScriptType::Float => true,
                _ => false,
            };
            let second_is_float = match &items[1] {
                ScriptType::Float => true,
                _ => false,
            };
            if !first_is_float && !second_is_float {
                return Err(ScanError::StrangeFieldTypeTuple);
            }
            Ok(BindingKind::Analog)
        },
        _ => Err(ScanError::StrangeFieldType),
    }
}

/// Binds every field of an input struct, in order, or reports the first field
/// that cannot be bound.
pub fn scan_struct(struct_type: &StructType) -> (result: Result<BindingsInSet, MangroveError>)
    ensures
        match result {
            Ok(set) => scanned(struct_type@, struct_type.fields@.len()) == Ok::<
                Seq<BindingModel>,
                ScanError,
            >(set@),
            Err(MangroveError::Other(message)) => match scanned(
                struct_type@,
                struct_type.fields@.len(),
            ) {
                Err(e) => message@ == scan_message(e),
                Ok(_) => false,
            },
            Err(_) => false,
        },
{
    let mut bindings_in_source_order: Vec<Binding> = Vec::new();
    let ghost definition = struct_type@;
    let ghost mut done: Seq<BindingModel> = Seq::empty();
    proof {
        lemma_field_type_views(struct_type.fields@);
    }
    let mut index: usize = 0;
    while index < struct_type.fields.len()
        invariant
            index <= struct_type.fields.len(),
            definition == struct_type@,
            definition.field_types.len() == struct_type.fields@.len(),
            forall|j: int|
                0 <= j < struct_type.fields@.len() ==> #[trigger] definition.field_types[j]
                    == struct_type.fields@[j].field_type@,
            scanned(definition, index as nat) == Ok::<Seq<BindingModel>, ScanError>(done),
            done.len() == index,
            bindings_in_source_order@.len() == index,
            forall|j: int| 0 <= j < index ==> (#[trigger] bindings_in_source_order@[j])@ == done[j],
        decreases struct_type.fields.len() - index,
    {
        let field = &struct_type.fields[index];
        match binding_kind(&field.field_type) {
            Ok(kind) => {
                let binding = Binding { name: field.name.clone(), struct_field_index: index, kind };
                proof {
                    done = done.push(binding@);
                }
                bindings_in_source_order.push(binding);
            },
            Err(e) => {
                proof {
                    lemma_scanned_error(definition, index as nat + 1, struct_type.fields@.len());
                }
                let message = match e {
                    ScanError::StrangeFieldType => "strange field type".to_string(),
                    ScanError::StrangeFieldTypeTuple => "strange field type tuple".to_string(),
                };
                return Err(MangroveError::Other(message));
            },
        }
        index += 1;
    }
    let set = BindingsInSet { bindings_in_source_order };
    assert(set@ =~= done);
    Ok(set)
}

/// An error among the first fields is the error of the whole scan.
pub proof fn lemma_scanned_error(definition: StructModel, count: nat, total: nat)
    requires
        count <= total,
        scanned(definition, count) is Err,
    ensures
        scanned(definition, total) == scanned(definition, count),
    decreases total - count,
{
    if count < total {
        lemma_scanned_error(definition, count, (total - 1) as nat);
    }
}

/// The lower-case form of a text, as std's `str::to_lowercase` gives it.
pub uninterp spec fn lowercase(text: Seq<char>) -> Seq<char>;

/// `str::to_lowercase` of std: the lower-case form of the text.
#[verifier::external_body]
fn to_lowercase(s: &str) -> (lower: String)
    ensures
        lower@ == lowercase(s@),
{
    s.to_lowercase()
}

/// The name of an action set as the input configuration spells it.
pub fn convert_set_name(s: &str) -> (name: String)
    ensures
        name@ == lowercase(s@),
{
    to_lowercase(s)
}

/// The name of an action as the input configuration spells it.
pub fn convert_bind_name(s: &str) -> (name: String)
    ensures
        name@ == lowercase(s@),
{
    to_lowercase(s)
}

/// Of the first `count` bindings, the names of those of the given kind, in
/// order; `names` holds the name to use for each binding.
pub open spec fn picked(
    bindings: Seq<BindingModel>,
    names: Seq<Seq<char>>,
    kind: BindingKind,
    count: nat,
) -> Seq<Seq<char>>
    decreases count,
{
    if count == 0 {
        Seq::empty()
    } else {
        let before = picked(bindings, names, kind, (count - 1) as nat);
        if bindings[count - 1].kind == kind {
            before.push(names[count - 1])
        } else {
            before
        }
    }
}

/// The views of a run of strings.
pub open spec fn texts(strings: Seq<String>) -> Seq<Seq<char>> {
    Seq::new(strings.len(), |i: int| strings[i]@)
}

/// The actions of a set of bindings, under the given names: each binding
/// becomes a digital or an analog action, as its kind says, and keeps its
/// place among the actions of its kind.
pub fn actions_with_names(script_bindings: &BindingsInSet, names: &Vec<String>) -> (actions: Actions)
    requires
        names@.len() == script_bindings.bindings_in_source_order@.len(),
    ensures
        actions@.digital == picked(
            script_bindings@,
            texts(names@),
            BindingKind::Digital,
            names@.len(),
        ),
        actions@.analog == picked(
            script_bindings@,
            texts(names@),
            BindingKind::Analog,
            names@.len(),
        ),
{
    let mut digital_actions: Vec<DigitalAction> = Vec::new();
    let mut analog_actions: Vec<AnalogAction> = Vec::new();
    let ghost bindings = script_bindings@;
    let ghost all = texts(names@);
    let mut i: usize = 0;
    while i < names.len()
        invariant
            i <= names.len(),
            names@.len() == script_bindings.bindings_in_source_order@.len(),
            bindings == script_bindings@,
            all == texts(names@),
            digital_names(digital_actions@) == picked(
                bindings,
                all,
                BindingKind::Digital,
                i as nat,
            ),
            analog_names(analog_actions@) == picked(bindings, all, BindingKind::Analog, i as nat),
        decreases names.len() - i,
    {
        let ghost digital_before = digital_names(digital_actions@);
        let ghost analog_before = analog_names(analog_actions@);
        let name = names[i].clone();
        match script_bindings.bindings_in_source_order[i].kind {
            BindingKind::Digital => {
                digital_actions.push(DigitalAction { name });
                assert(digital_names(digital_actions@) =~= digital_before.push(all[i as int]));
            },
            BindingKind::Analog => {
                analog_actions.push(AnalogAction { name });
                assert(analog_names(analog_actions@) =~= analog_before.push(all[i as int]));
            },
        }
        i += 1;
    }
    Actions { digital: digital_actions, analog: analog_actions }
}

/// The lower-case names of a run of bindings.
pub open spec fn lowercase_names(bindings: Seq<BindingModel>) -> Seq<Seq<char>> {
    Seq::new(bindings.len(), |i: int| lowercase(bindings[i].name))
}

/// The actions that a set of bindings becomes: every name in lower case.
pub open spec fn converted_actions(bindings: Seq<BindingModel>) -> ActionsModel {
    ActionsModel {
        digital: picked(bindings, lowercase_names(bindings), BindingKind::Digital, bindings.len()),
        analog: picked(bindings, lowercase_names(bindings), BindingKind::Analog, bindings.len()),
    }
}

/// The action sets that the binding sets become, in their order.
pub open spec fn converted_sets(entries: Seq<(Seq<char>, Seq<BindingModel>)>) -> Seq<
    (Seq<char>, ActionsModel),
> {
    Seq::new(entries.len(), |i: int| (lowercase(entries[i].0), converted_actions(entries[i].1)))
}

/// What a map of binding sets holds: each set's name and bindings, in the
/// order in which the sets were added.
pub uninterp spec fn binding_set_entries(sets: SeqMap<String, BindingsInSet>) -> Seq<
    (Seq<char>, Seq<BindingModel>),
>;

/// `SeqMap::iter` of seq_map, gathered: the entries that the map holds, in the
/// order in which they were added.
#[verifier::external_body]
fn binding_sets_iter(sets: &SeqMap<String, BindingsInSet>) -> (entries: Vec<
    (&String, &BindingsInSet),
>)
    ensures
        entries@.len() == binding_set_entries(*sets).len(),
        forall|i: int|
            0 <= i < entries@.len() ==> (#[trigger] entries@[i]).0@ == binding_set_entries(
                *sets,
            )[i].0 && entries@[i].1@ == binding_set_entries(*sets)[i].1,
{
    sets.iter().collect()
}

/// The actions of one set of bindings, every name in lower case.
pub fn convert_bindings_in_set(script_bindings: &BindingsInSet) -> (actions: Actions)
    ensures
        actions@ == converted_actions(script_bindings@),
{
    let mut names: Vec<String> = Vec::new();
    let mut i: usize = 0;
    while i < script_bindings.bindings_in_source_order.len()
        invariant
            i <= script_bindings.bindings_in_source_order.len(),
            names@.len() == i,
            forall|j: int|
                0 <= j < i ==> (#[trigger] names@[j])@ == lowercase(
                    script_bindings.bindings_in_source_order@[j].name@,
                ),
        decreases script_bindings.bindings_in_source_order.len() - i,
    {
        let converted_name = convert_bind_name(
            script_bindings.bindings_in_source_order[i].name.as_str(),
        );
        names.push(converted_name);
        i += 1;
    }
    assert(texts(names@) =~= lowercase_names(script_bindings@));
    actions_with_names(script_bindings, &names)
}

/// Whether the entry at `index` is the first whose name an earlier entry has
/// already.
pub open spec fn is_first_repeated<T>(entries: Seq<(Seq<char>, T)>, index: int) -> bool {
    &&& 0 <= index < entries.len()
    &&& names_differ(entries.take(index))
    &&& has_name(entries.take(index), entries[index].0)
}

/// Turns the script's binding sets into the input configuration: every set
/// and every action under its lower-case name, the sets in their order.
///
/// Two sets whose names are the same in lower case cannot both be held: the
/// error is the lower-case name of the first set whose name an earlier set
/// has already.
pub fn convert_to_input_bindings(sets: &SeqMap<String, BindingsInSet>) -> (result: Result<
    InputConfig,
    String,
>)
    ensures
        match result {
            Ok(config) => names_differ(converted_sets(binding_set_entries(*sets)))
                && action_set_entries(config.action_sets.sets) == converted_sets(
                binding_set_entries(*sets),
            ),
            Err(name) => !names_differ(converted_sets(binding_set_entries(*sets))) && exists|
                index: int,
            |
                is_first_repeated(converted_sets(binding_set_entries(*sets)), index)
                    && #[trigger] converted_sets(binding_set_entries(*sets))[index].0 == name@,
        },
{
    let mut all_sets = action_sets_new();
    let entries = binding_sets_iter(sets);
    let ghost source = binding_set_entries(*sets);
    let ghost target = converted_sets(source);
    let mut i: usize = 0;
    proof {
        assert(target.take(0) =~= Seq::empty());
    }
    while i < entries.len()
        invariant
            i <= entries.len(),
            source == binding_set_entries(*sets),
            target == converted_sets(source),
            entries@.len() == source.len(),
            forall|j: int|
                0 <= j < entries@.len() ==> (#[trigger] entries@[j]).0@ == source[j].0
                    && entries@[j].1@ == source[j].1,
            action_set_entries(all_sets) == target.take(i as int),
            names_differ(target.take(i as int)),
        decreases entries.len() - i,
    {
        let (script_set_name, script_bindings) = entries[i];
        let converted_set_name = convert_set_name(script_set_name.as_str());
        let duplicate = converted_set_name.clone();
        let actions = convert_bindings_in_set(script_bindings);
        let ghost before = action_set_entries(all_sets);
        if !action_sets_insert(&mut all_sets, converted_set_name, actions) {
            proof {
                let j = choose|j: int|
                    0 <= j < before.len() && (#[trigger] before[j]).0 == duplicate@;
                assert(target[j] == before[j]);
                assert(target[j].0 == target[i as int].0);
                assert(is_first_repeated(target, i as int));
                assert(target[i as int].0 == duplicate@);
            }
            return Err(duplicate);
        }
        proof {
            assert(target.take(i + 1) =~= target.take(i as int).push(target[i as int]));
            assert forall|j: int, k: int| 0 <= j < k < i + 1 implies (#[trigger] target.take(
                i + 1,
            )[j]).0 != (#[trigger] target.take(i + 1)[k]).0 by {
                if k == i {
                    assert(before[j] == target[j]);
                } else {
                    assert(target.take(i as int)[j] == target[j]);
                    assert(target.take(i as int)[k] == target[k]);
                }
            }
        }
        i += 1;
    }
    proof {
        assert(target.take(i as int) =~= target);
    }
    Ok(InputConfig { action_sets: ActionSets { sets: all_sets } })
}


/// A number held between two bounds.
pub open spec fn clamped(value: int, low: int, high: int) -> int {
    if value < low {
        low
    } else if value > high {
        high
    } else {
        value
    }
}

/// Where a point on one axis of the window lies on the virtual surface: its
/// offset into the viewport, held inside the viewport, scaled by virtual size
/// over viewport size and rounded down.
pub open spec fn virtual_coordinate(physical: u16, origin: u16, extent: u16, virtual_extent: u16) -> int {
    clamped(physical - origin, 0, extent - 1) * virtual_extent / (extent as int)
}

fn to_virtual_coordinate(physical: u16, origin: u16, extent: u16, virtual_extent: u16) -> (coordinate:
    u16)
    requires
        extent > 0,
    ensures
        coordinate == virtual_coordinate(physical, origin, extent, virtual_extent),
        virtual_extent > 0 ==> coordinate < virtual_extent,
{
    let last = extent - 1;
    let relative: u16 = if physical <= origin {
        0
    } else if physical - origin > last {
        last
    } else {
        physical - origin
    };
    assert(relative as int == clamped(physical - origin, 0, extent - 1));
    assert(relative as int * virtual_extent as int <= 65535 * 65535) by (nonlinear_arith)
        requires
            relative <= 65535,
            virtual_extent <= 65535,
    ;
    let scaled: u64 = relative as u64 * virtual_extent as u64;
    let coordinate = scaled / extent as u64;
    assert(relative as int * virtual_extent as int / (extent as int) <= virtual_extent) by (nonlinear_arith)
        requires
            0 <= relative < extent,
            0 <= virtual_extent,
    ;
    assert(virtual_extent > 0 ==> relative as int * virtual_extent as int / (extent as int)
        < virtual_extent) by (nonlinear_arith)
        requires
            0 <= relative < extent,
            0 <= virtual_extent,
    ;
    coordinate as u16
}

/// Maps a position in the window to the position on the virtual surface that
/// is shown there. A position outside the viewport maps as the nearest
/// position inside it.
pub fn absolute_to_virtual_position(
    physical_position: UVec2,
    viewport: URect,
    virtual_surface_size: UVec2,
) -> (position: UVec2)
    requires
        viewport.size.x > 0,
        viewport.size.y > 0,
    ensures
        position.x == virtual_coordinate(
            physical_position.x,
            viewport.position.x,
            viewport.size.x,
            virtual_surface_size.x,
        ),
        position.y == virtual_coordinate(
            physical_position.y,
            viewport.position.y,
            viewport.size.y,
            virtual_surface_size.y,
        ),
        virtual_surface_size.x > 0 ==> position.x < virtual_surface_size.x,
        virtual_surface_size.y > 0 ==> position.y < virtual_surface_size.y,
{
    UVec2 {
        x: to_virtual_coordinate(
            physical_position.x,
            viewport.position.x,
            viewport.size.x,
            virtual_surface_size.x,
        ),
        y: to_virtual_coordinate(
            physical_position.y,
            viewport.position.y,
            viewport.size.y,
            virtual_surface_size.y,
        ),
    }
}

/// Maps a position in the window to the virtual surface, where the viewport
/// has an area to map it through.
pub fn checked_absolute_to_virtual_position(
    physical_position: UVec2,
    viewport: URect,
    virtual_surface_size: UVec2,
) -> (position: Option<UVec2>)
    ensures
        match position {
            Some(p) => viewport.size.x > 0 && viewport.size.y > 0 && p.x == virtual_coordinate(
                physical_position.x,
                viewport.position.x,
                viewport.size.x,
                virtual_surface_size.x,
            ) && p.y == virtual_coordinate(
                physical_position.y,
                viewport.position.y,
                viewport.size.y,
                virtual_surface_size.y,
            ),
            None => viewport.size.x == 0 || viewport.size.y == 0,
        },
{
    if viewport.size.x > 0 && viewport.size.y > 0 {
        Some(absolute_to_virtual_position(physical_position, viewport, virtual_surface_size))
    } else {
        None
    }
}


/// The state of the script's input struct and where the mouse lives in it.
#[derive(Debug)]
pub struct ScriptInput {
    pub sets: SeqMap<String, BindingsInSet>,
    pub input_value: ScriptValue,
    pub mouse_cursor_position_index: usize,
    pub mouse_left_button_index: usize,
    pub mouse_right_button_index: usize,
}

/// The mouse buttons.
#[derive(Debug, Clone, Copy, PartialEq, Eq, Structural)]
pub enum MouseButton {
    Left,
    Right,
    Middle,
    Back,
    Forward,
}

/// Why the input struct cannot take the mouse.
#[derive(Debug, Clone, Copy, PartialEq, Eq, Structural)]
pub enum BootError {
    /// The input type is no named struct.
    NotANamedStruct,
    /// The struct has no field `mouse_cursor_position`.
    NoCursorPosition,
    /// The struct has no field `mouse_left_button`.
    NoLeftButton,
    /// The struct has no field `mouse_right_button`.
    NoRightButton,
    /// The cursor position is no pair of ints.
    CursorPositionNotInts,
}

/// Why an event could not be written into the input struct.
#[derive(Debug, Clone, Copy, PartialEq, Eq, Structural)]
pub enum InputError {
    /// The input value does not have the shape that the indices were made for.
    WrongShape,
    /// The viewport has no area.
    EmptyViewport,
}

/// Where the mouse lives in the input struct: the indices of its three fields.
#[derive(Debug, Clone, Copy, PartialEq, Eq, Structural)]
pub struct MouseFields {
    pub cursor_position: usize,
    pub left_button: usize,
    pub right_button: usize,
}

/// Whether `index` is the first place at which `name` stands among `names`.
pub open spec fn is_first_named(names: Seq<Seq<char>>, name: Seq<char>, index: int) -> bool {
    &&& 0 <= index < names.len()
    &&& names[index] == name
    &&& forall|j: int| 0 <= j < index ==> names[j] != name
}

/// Whether `name` stands nowhere among `names`.
pub open spec fn is_unnamed(names: Seq<Seq<char>>, name: Seq<char>) -> bool {
    forall|j: int| 0 <= j < names.len() ==> names[j] != name
}

/// Finds the field of the given name.
pub fn field_index(struct_type: &StructType, name: &str) -> (index: Option<usize>)
    ensures
        match index {
            Some(i) => is_first_named(struct_type@.field_names, name@, i as int),
            None => is_unnamed(struct_type@.field_names, name@),
        },
{
    let wanted = name.to_string();
    let mut i: usize = 0;
    while i < struct_type.fields.len()
        invariant
            i <= struct_type.fields.len(),
            wanted@ == name@,
            forall|j: int| 0 <= j < i ==> struct_type@.field_names[j] != name@,
        decreases struct_type.fields.len() - i,
    {
        if struct_type.fields[i].name == wanted {
            return Some(i);
        }
        i += 1;
    }
    None
}

/// Whether a type is a pair of ints.
pub open spec fn is_int_pair(ty: TypeModel) -> bool {
    ty matches TypeModel::Tuple(items) && items.len() == 2 && items[0] is Int && items[1] is Int
}

/// Whether the struct has the three mouse fields, the cursor position a pair
/// of ints, and `fields` names the first field of each name.
pub open spec fn are_mouse_fields(definition: StructModel, fields: MouseFields) -> bool {
    &&& is_first_named(
        definition.field_names,
        "mouse_cursor_position"@,
        fields.cursor_position as int,
    )
    &&& is_first_named(definition.field_names, "mouse_left_button"@, fields.left_button as int)
    &&& is_first_named(definition.field_names, "mouse_right_button"@, fields.right_button as int)
    &&& is_int_pair(definition.field_types[fields.cursor_position as int])
}

/// Whether a struct cannot take the mouse for the reason that the error
/// names. Where several things are missing, the error names the first of: the
/// cursor position, the left button, the right button, the cursor position's
/// type.
pub open spec fn lacks_mouse_fields(definition: StructModel, error: BootError) -> bool {
    let names = definition.field_names;
    match error {
        BootError::NotANamedStruct => false,
        BootError::NoCursorPosition => is_unnamed(names, "mouse_cursor_position"@),
        BootError::NoLeftButton => !is_unnamed(names, "mouse_cursor_position"@) && is_unnamed(
            names,
            "mouse_left_button"@,
        ),
        BootError::NoRightButton => !is_unnamed(names, "mouse_cursor_position"@) && !is_unnamed(
            names,
            "mouse_left_button"@,
        ) && is_unnamed(names, "mouse_right_button"@),
        BootError::CursorPositionNotInts => !is_unnamed(names, "mouse_left_button"@)
            && !is_unnamed(names, "mouse_right_button"@) && exists|i: int|
            is_first_named(names, "mouse_cursor_position"@, i) && !is_int_pair(
                #[trigger] definition.field_types[i],
            ),
    }
}

/// Finds the three mouse fields of the input struct: the first field of each
/// name, where the struct has all three and the cursor position is a pair of
/// ints; else the error that names what is missing.
pub fn mouse_fields(input_type: &StructType) -> (result: Result<MouseFields, BootError>)
    ensures
        match result {
            Ok(fields) => are_mouse_fields(input_type@, fields),
            Err(error) => lacks_mouse_fields(input_type@, error),
        },
{
    proof {
        lemma_field_type_views(input_type.fields@);
    }
    let cursor_position = match field_index(input_type, "mouse_cursor_position") {
        Some(index) => index,
        None => {
            return Err(BootError::NoCursorPosition);
        },
    };
    let left_button = match field_index(input_type, "mouse_left_button") {
        Some(index) => index,
        None => {
            return Err(BootError::NoLeftButton);
        },
    };
    let right_button = match field_index(input_type, "mouse_right_button") {
        Some(index) => index,
        None => {
            return Err(BootError::NoRightButton);
        },
    };
    let is_pair = match &input_type.fields[cursor_position].field_type {
        ScriptType::Tuple(items) => {
            proof {
                lemma_type_views(items@);
            }
            items.len() == 2 && (match &items[0] {
                ScriptType::Int => true,
                _ => false,
            }) && (match &items[1] {
                ScriptType::Int => true,
                _ => false,
            })
        },
        _ => false,
    };
    if !is_pair {
        proof {
            let names = input_type@.field_names;
            assert(is_first_named(names, "mouse_cursor_position"@, cursor_position as int));
            assert(!is_int_pair(input_type@.field_types[cursor_position as int]));
            assert(names[left_button as int] == "mouse_left_button"@);
            assert(names[right_button as int] == "mouse_right_button"@);
        }
        return Err(BootError::CursorPositionNotInts);
    }
    Ok(MouseFields { cursor_position, left_button, right_button })
}

/// The input value with the cursor position written into the pair at `index`.
pub open spec fn with_cursor(value: ValueModel, index: int, position: UVec2) -> Option<ValueModel> {
    match value {
        ValueModel::Struct(fields) => if 0 <= index < fields.len() {
            match fields[index] {
                ValueModel::Tuple(items) => if items.len() >= 2 {
                    Some(
                        ValueModel::Struct(
                            fields.update(
                                index,
                                ValueModel::Tuple(
                                    items.update(0, ValueModel::Int(position.x as i32)).update(
                                        1,
                                        ValueModel::Int(position.y as i32),
                                    ),
                                ),
                            ),
                        ),
                    )
                } else {
                    None
                },
                _ => None,
            }
        } else {
            None
        },
        _ => None,
    }
}

/// The input value with a button state written into the bool at `index`.
pub open spec fn with_button(value: ValueModel, index: int, pressed: bool) -> Option<ValueModel> {
    match value {
        ValueModel::Struct(fields) => if 0 <= index < fields.len() {
            Some(ValueModel::Struct(fields.update(index, ValueModel::Bool(pressed))))
        } else {
            None
        },
        _ => None,
    }
}

/// Sets up the script's input: finds the mouse fields in the input type and
/// takes the input value that the script started with. It succeeds exactly
/// where the input type is a struct that has the three mouse fields, the
/// cursor position a pair of ints.
pub fn boot(input_type: &ScriptType, input_value: ScriptValue) -> (result: Result<
    ScriptInput,
    BootError,
>)
    ensures
        match result {
            Ok(input) => input_type@ is Struct && input.input_value@ == input_value@
                && binding_set_entries(input.sets) == Seq::<
                (Seq<char>, Seq<BindingModel>),
            >::empty() && are_mouse_fields(
                input_type@->Struct_0,
                MouseFields {
                    cursor_position: input.mouse_cursor_position_index,
                    left_button: input.mouse_left_button_index,
                    right_button: input.mouse_right_button_index,
                },
            ),
            Err(BootError::NotANamedStruct) => !(input_type@ is Struct),
            Err(error) => input_type@ is Struct && lacks_mouse_fields(
                input_type@->Struct_0,
                error,
            ),
        },
{
    match input_type {
        ScriptType::Struct(definition) => {
            proof {
                lemma_view_type_slots(input_type);
            }
            let fields = mouse_fields(definition)?;
            Ok(
                ScriptInput {
                    sets: binding_sets_new(),
                    input_value,
                    mouse_cursor_position_index: fields.cursor_position,
                    mouse_left_button_index: fields.left_button,
                    mouse_right_button_index: fields.right_button,
                },
            )
        },
        _ => Err(BootError::NotANamedStruct),
    }
}

/// `SeqMap::default` of seq_map: the map that it gives holds nothing.
#[verifier::external_body]
fn binding_sets_new() -> (sets: SeqMap<String, BindingsInSet>)
    ensures
        binding_set_entries(sets) == Seq::<(Seq<char>, Seq<BindingModel>)>::empty(),
{
    SeqMap::default()
}

fn write_slot(value: &mut ScriptValue, index: usize, slot: ScriptValue) -> (written: bool)
    ensures
        match old(value)@ {
            ValueModel::Struct(fields) => if index < fields.len() {
                written && final(value)@ == ValueModel::Struct(fields.update(index as int, slot@))
            } else {
                !written && final(value)@ == old(value)@
            },
            _ => !written && final(value)@ == old(value)@,
        },
{
    match value {
        ScriptValue::Struct(fields) => {
            proof {
                lemma_views(fields@);
            }
            if index < fields.len() {
                let ghost slots = fields@;
                let ghost before = views(fields@);
                fields.set(index, slot);
                proof {
                    lemma_views(fields@);
                    assert(views(fields@) =~= before.update(index as int, slot@));
                }
                true
            } else {
                false
            }
        },
        _ => false,
    }
}

/// Takes a move of the cursor to `absolute_position` in the window.
///
/// The position is mapped to the virtual surface and written into the cursor
/// position of the input value. Where that cannot be done the input value
/// stays as it was.
pub fn listen_cursor_moved(
    script_input: &mut ScriptInput,
    absolute_position: UVec2,
    viewport: URect,
    virtual_surface_size: UVec2,
) -> (result: Result<(), InputError>)
    ensures
        final(script_input).sets == old(script_input).sets,
        final(script_input).mouse_cursor_position_index == old(script_input).mouse_cursor_position_index,
        final(script_input).mouse_left_button_index == old(script_input).mouse_left_button_index,
        final(script_input).mouse_right_button_index == old(script_input).mouse_right_button_index,
        match result {
            Ok(()) => viewport.size.x > 0 && viewport.size.y > 0 && Some(
                final(script_input).input_value@,
            ) == with_cursor(
                old(script_input).input_value@,
                old(script_input).mouse_cursor_position_index as int,
                UVec2 {
                    x: virtual_coordinate(
                        absolute_position.x,
                        viewport.position.x,
                        viewport.size.x,
                        virtual_surface_size.x,
                    ) as u16,
                    y: virtual_coordinate(
                        absolute_position.y,
                        viewport.position.y,
                        viewport.size.y,
                        virtual_surface_size.y,
                    ) as u16,
                },
            ),
            Err(InputError::EmptyViewport) => (viewport.size.x == 0 || viewport.size.y == 0)
                && final(script_input).input_value@ == old(script_input).input_value@,
            Err(InputError::WrongShape) => viewport.size.x > 0 && viewport.size.y > 0
                && final(script_input).input_value@ == old(script_input).input_value@ && forall|
                position: UVec2,
            |
                with_cursor(
                    old(script_input).input_value@,
                    old(script_input).mouse_cursor_position_index as int,
                    position,
                ) is None,
        },
{
    let virtual_position = match checked_absolute_to_virtual_position(
        absolute_position,
        viewport,
        virtual_surface_size,
    ) {
        Some(position) => position,
        None => {
            return Err(InputError::EmptyViewport);
        },
    };
    let index = script_input.mouse_cursor_position_index;
    let pair = match &script_input.input_value {
        ScriptValue::Struct(fields) => {
            proof {
                lemma_views(fields@);
            }
            if index >= fields.len() {
                return Err(InputError::WrongShape);
            }
            match &fields[index] {
                ScriptValue::Tuple(tuple_fields) => {
                    if tuple_fields.len() < 2 {
                        proof {
                            lemma_views(tuple_fields@);
                        }
                        return Err(InputError::WrongShape);
                    }
                    let mut items = duplicate_all(tuple_fields);
                    proof {
                        lemma_views(items@);
                        lemma_views(tuple_fields@);
                    }
                    let ghost before = views(items@);
                    items.set(0, ScriptValue::Int(virtual_position.x as i32));
                    items.set(1, ScriptValue::Int(virtual_position.y as i32));
                    proof {
                        lemma_views(items@);
                        assert(views(items@) =~= before.update(
                            0,
                            ValueModel::Int(virtual_position.x as i32),
                        ).update(1, ValueModel::Int(virtual_position.y as i32)));
                    }
                    ScriptValue::Tuple(items)
                },
                _ => {
                    return Err(InputError::WrongShape);
                },
            }
        },
        _ => {
            return Err(InputError::WrongShape);
        },
    };
    write_slot(&mut script_input.input_value, index, pair);
    Ok(())
}

/// Takes a press or release of a mouse button. The left and the right button
/// are written into their fields of the input value; other buttons are not
/// the script's business. Tells whether the button was written.
pub fn listen_mouse_button(script_input: &mut ScriptInput, mouse_button: MouseButton, pressed: bool) -> (result:
    Result<bool, InputError>)
    ensures
        final(script_input).sets == old(script_input).sets,
        final(script_input).mouse_cursor_position_index == old(script_input).mouse_cursor_position_index,
        final(script_input).mouse_left_button_index == old(script_input).mouse_left_button_index,
        final(script_input).mouse_right_button_index == old(script_input).mouse_right_button_index,
        match mouse_button {
            MouseButton::Left => match with_button(
                old(script_input).input_value@,
                old(script_input).mouse_left_button_index as int,
                pressed,
            ) {
                Some(value) => result == Ok::<bool, InputError>(true) && final(script_input).input_value@ == value,
                None => result == Err::<bool, InputError>(InputError::WrongShape) && final(script_input).input_value@ == old(script_input).input_value@,
            },
            MouseButton::Right => match with_button(
                old(script_input).input_value@,
                old(script_input).mouse_right_button_index as int,
                pressed,
            ) {
                Some(value) => result == Ok::<bool, InputError>(true) && final(script_input).input_value@ == value,
                None => result == Err::<bool, InputError>(InputError::WrongShape) && final(script_input).input_value@ == old(script_input).input_value@,
            },
            _ => result == Ok::<bool, InputError>(false) && final(script_input).input_value@
                == old(script_input).input_value@,
        },
{
    let button_index_in_struct = match mouse_button {
        MouseButton::Left => script_input.mouse_left_button_index,
        MouseButton::Right => script_input.mouse_right_button_index,
        _ => {
            return Ok(false);
        },
    };
    if write_slot(
        &mut script_input.input_value,
        button_index_in_struct,
        ScriptValue::Bool(pressed),
    ) {
        Ok(true)
    } else {
        Err(InputError::WrongShape)
    }
}

} // verus!
