//! Game controllers: which are connected, and the state of their axes and
//! buttons.

use std::collections::HashMap;
use vstd::array::array_fill_for_copy_types;
use vstd::prelude::*;
use vstd::std_specs::iter::IteratorSpec;

verus! {

broadcast use vstd::std_specs::hash::group_hash_axioms;

/// The id under which a controller is held.
pub type ControllerId = usize;

/// The number of axes of a controller.
pub const AXIS_COUNT: usize = 4;

/// The number of buttons of a controller.
pub const BUTTON_COUNT: usize = 32;

/// The position of a stick: the bit patterns of its two single-precision
/// coordinates.
#[derive(Debug, Default, Clone, Copy, PartialEq, Eq, Structural)]
pub struct AxisValueType {
    pub x: u32,
    pub y: u32,
}

/// The state of a button: whether it is down.
pub type ButtonValueType = bool;

/// The state of one controller.
#[derive(Debug, Clone, PartialEq, Eq)]
pub struct Controller {
    pub axis: [AxisValueType; 4],
    pub buttons: [ButtonValueType; 32],
    pub name: String,
    pub id: ControllerId,
    pub is_active: bool,
}

/// What the controllers report.
#[derive(Debug, Clone, PartialEq, Eq)]
pub enum ControllerMessage {
    Connected(ControllerId, String),
    Disconnected(ControllerId),
    /// Sent when the first button of a controller is pressed.
    Activated(ControllerId),
    ButtonChanged(ControllerId, usize, ButtonValueType),
    AxisChanged(ControllerId, usize, AxisValueType),
}

/// Mathematical model of a controller message.
pub enum MessageModel {
    Connected(ControllerId, Seq<char>),
    Disconnected(ControllerId),
    Activated(ControllerId),
    ButtonChanged(ControllerId, usize, ButtonValueType),
    AxisChanged(ControllerId, usize, AxisValueType),
}

impl View for ControllerMessage {
    type V = MessageModel;

    open spec fn view(&self) -> MessageModel {
        match self {
            ControllerMessage::Connected(id, name) => MessageModel::Connected(*id, name@),
            ControllerMessage::Disconnected(id) => MessageModel::Disconnected(*id),
            ControllerMessage::Activated(id) => MessageModel::Activated(*id),
            ControllerMessage::ButtonChanged(id, button, value) => MessageModel::ButtonChanged(
                *id,
                *button,
                *value,
            ),
            ControllerMessage::AxisChanged(id, axis, value) => MessageModel::AxisChanged(
                *id,
                *axis,
                *value,
            ),
        }
    }
}

/// The models of a run of messages.
pub open spec fn messages(queue: Seq<ControllerMessage>) -> Seq<MessageModel> {
    Seq::new(queue.len(), |i: int| queue[i]@)
}

/// Mathematical model of a controller.
pub struct ControllerModel {
    pub axis: Seq<AxisValueType>,
    pub buttons: Seq<ButtonValueType>,
    pub name: Seq<char>,
    pub id: ControllerId,
    pub is_active: bool,
}

impl View for Controller {
    type V = ControllerModel;

    open spec fn view(&self) -> ControllerModel {
        ControllerModel {
            axis: self.axis@,
            buttons: self.buttons@,
            name: self.name@,
            id: self.id,
            is_active: self.is_active,
        }
    }
}

/// A controller as it is when it connects: sticks at rest, no button down,
/// not active.
pub open spec fn fresh_controller(id: ControllerId, name: Seq<char>) -> ControllerModel {
    ControllerModel {
        axis: Seq::new(AXIS_COUNT as nat, |i: int| AxisValueType { x: 0, y: 0 }),
        buttons: Seq::new(BUTTON_COUNT as nat, |i: int| false),
        name,
        id,
        is_active: false,
    }
}

impl Controller {
    /// A controller as it is when it connects.
    pub fn new(id: ControllerId, name: &str) -> (controller: Self)
        ensures
            controller@ == fresh_controller(id, name@),
    {
        let controller = Self {
            axis: array_fill_for_copy_types(AxisValueType { x: 0, y: 0 }),
            buttons: array_fill_for_copy_types(false),
            name: name.to_string(),
            id,
            is_active: false,
        };
        assert(controller@.axis =~= fresh_controller(id, name@).axis);
        assert(controller@.buttons =~= fresh_controller(id, name@).buttons);
        controller
    }

    /// The position of the stick at `index`.
    pub fn axis(&self, index: usize) -> (value: AxisValueType)
        requires
            index < AXIS_COUNT,
        ensures
            value == self@.axis[index as int],
    {
        self.axis[index]
    }

    /// The state of the button at `index`.
    pub fn button(&self, index: usize) -> (value: ButtonValueType)
        requires
            index < BUTTON_COUNT,
        ensures
            value == self@.buttons[index as int],
    {
        self.buttons[index]
    }
}

/// The connected controllers by id.
#[derive(Debug)]
pub struct Controllers {
    gamepads: HashMap<ControllerId, Controller>,
}

/// The models of the controllers of a map.
pub open spec fn controller_models(gamepads: Map<ControllerId, Controller>) -> Map<
    ControllerId,
    ControllerModel,
> {
    Map::new(|id: ControllerId| gamepads.contains_key(id), |id: ControllerId| gamepads[id]@)
}

impl View for Controllers {
    type V = Map<ControllerId, ControllerModel>;

    closed spec fn view(&self) -> Map<ControllerId, ControllerModel> {
        controller_models(self.gamepads@)
    }
}

impl Controllers {
    /// No controller connected.
    pub fn new() -> (controllers: Self)
        ensures
            controllers@ == Map::<ControllerId, ControllerModel>::empty(),
            well_formed(controllers@),
    {
        let controllers = Self { gamepads: HashMap::new() };
        assert(controllers@ =~= Map::<ControllerId, ControllerModel>::empty());
        controllers
    }

    /// Takes a controller that connected: it is held in its fresh state,
    /// whatever was held under the id before, and the connection is reported.
    pub fn connected(&mut self, id: ControllerId, name: &str, queue: &mut Vec<ControllerMessage>)
        requires
            well_formed(old(self)@),
        ensures
            final(self)@ == old(self)@.insert(id, fresh_controller(id, name@)),
            well_formed(final(self)@),
            messages(final(queue)@) == messages(old(queue)@).push(
                MessageModel::Connected(id, name@),
            ),
    {
        self.gamepads.insert(id, Controller::new(id, name));
        queue.push(ControllerMessage::Connected(id, name.to_string()));
        assert(self@ =~= old(self)@.insert(id, fresh_controller(id, name@)));
        assert(messages(queue@) =~= messages(old(queue)@).push(MessageModel::Connected(id, name@)));
    }

    /// Takes the news that a controller disconnected. A controller that is
    /// held is dropped and the disconnection is reported; for an id that is
    /// not held nothing happens. Tells whether the controller was held.
    pub fn disconnected(&mut self, id: ControllerId, queue: &mut Vec<ControllerMessage>) -> (found:
        bool)
        requires
            well_formed(old(self)@),
        ensures
            found == old(self)@.contains_key(id),
            final(self)@ == old(self)@.remove(id),
            well_formed(final(self)@),
            messages(final(queue)@) == if found {
                messages(old(queue)@).push(MessageModel::Disconnected(id))
            } else {
                messages(old(queue)@)
            },
    {
        let found = match self.gamepads.remove(&id) {
            Some(_) => {
                queue.push(ControllerMessage::Disconnected(id));
                true
            },
            None => false,
        };
        assert(self@ =~= old(self)@.remove(id));
        assert(messages(queue@) =~= if found {
            messages(old(queue)@).push(MessageModel::Disconnected(id))
        } else {
            messages(old(queue)@)
        });
        found
    }

    /// The ids of the controllers that are held, each once, in no order that
    /// anything could rely on.
    pub fn ids(&self) -> (ids: Vec<ControllerId>)
        ensures
            ids@.to_set() == self@.dom(),
            ids@.no_duplicates(),
    {
        let mut ids: Vec<ControllerId> = Vec::new();
        let ghost keys = self.gamepads.keys().remaining().unref();
        for id in it: self.gamepads.keys()
            invariant
                keys == it.seq().unref(),
                ids@.len() == it.index(),
                forall|j: int| 0 <= j < ids@.len() ==> ids@[j] == keys[j],
        {
            ids.push(*id);
        }
        assert(ids@ =~= keys);
        assert(self@.dom() =~= self.gamepads@.dom());
        ids
    }

    /// The ids of the controllers that are held and active, each once, in no
    /// order that anything could rely on.
    pub fn active_ids(&self) -> (active: Vec<ControllerId>)
        ensures
            forall|id: ControllerId|
                active@.contains(id) <==> self@.contains_key(id) && self@[id].is_active,
            active@.no_duplicates(),
    {
        let all = self.ids();
        let mut active: Vec<ControllerId> = Vec::new();
        let mut i: usize = 0;
        while i < all.len()
            invariant
                i <= all.len(),
                all@.to_set() == self@.dom(),
                all@.no_duplicates(),
                forall|id: ControllerId|
                    active@.contains(id) <==> all@.take(i as int).contains(id)
                        && self@[id].is_active,
                active@.no_duplicates(),
            decreases all.len() - i,
        {
            let id = all[i];
            let ghost before = active@;
            let ghost head = all@.take(i as int);
            let ghost next = all@.take(i + 1);
            assert(next =~= head.push(id));
            assert(!head.contains(id)) by {
                if head.contains(id) {
                    let j = choose|j: int| 0 <= j < head.len() && head[j] == id;
                    assert(all@[j] == all@[i as int]);
                }
            }
            let is_active = match self.controller(id) {
                Some(pad) => pad.is_active,
                None => false,
            };
            assert(all@.to_set().contains(id));
            if is_active {
                assert(!before.contains(id));
                active.push(id);
                assert(active@ =~= before.push(id));
                assert forall|j: int, k: int|
                    0 <= j < active@.len() && 0 <= k < active@.len() && j != k implies active@[j]
                    != active@[k] by {
                    if j == before.len() {
                        assert(before.contains(before[k]));
                    } else if k == before.len() {
                        assert(before.contains(before[j]));
                    }
                }
            }
            assert forall|other: ControllerId|
                active@.contains(other) <==> next.contains(other)
                    && self@[other].is_active by {
                if other == id {
                    assert(next[i as int] == id);
                    if is_active {
                        assert(active@[before.len() as int] == id);
                    } else if active@.contains(other) {
                        assert(before.contains(other));
                    }
                } else {
                    if before.contains(other) {
                        let j = choose|j: int| 0 <= j < before.len() && before[j] == other;
                        assert(active@[j] == other);
                        let k = choose|k: int| 0 <= k < head.len() && head[k] == other;
                        assert(next[k] == other);
                    }
                    if active@.contains(other) {
                        let j = choose|j: int| 0 <= j < active@.len() && active@[j] == other;
                        assert(before[j] == other);
                    }
                    if next.contains(other) {
                        let k = choose|k: int| 0 <= k < next.len() && next[k] == other;
                        assert(head[k] == other);
                    }
                }
            }
            i += 1;
        }
        assert(all@.take(i as int) =~= all@);
        assert forall|id: ControllerId|
            active@.contains(id) <==> self@.contains_key(id) && self@[id].is_active by {
            assert(all@.contains(id) <==> all@.to_set().contains(id));
        }
        active
    }

    /// The controller of the given id.
    pub fn controller(&self, id: ControllerId) -> (controller: Option<&Controller>)
        ensures
            match controller {
                Some(c) => self@.contains_key(id) && c@ == self@[id],
                None => !self@.contains_key(id),
            },
    {
        self.gamepads.get(&id)
    }

    /// The position of a stick of a controller.
    pub fn axis(&self, id: ControllerId, index: usize) -> (value: Option<AxisValueType>)
        requires
            self@.contains_key(id) ==> index < AXIS_COUNT,
        ensures
            match value {
                Some(v) => self@.contains_key(id) && v == self@[id].axis[index as int],
                None => !self@.contains_key(id),
            },
    {
        match self.controller(id) {
            Some(pad) => Some(pad.axis[index]),
            None => None,
        }
    }

    /// The state of a button of a controller.
    pub fn button(&self, id: ControllerId, index: usize) -> (value: Option<ButtonValueType>)
        requires
            self@.contains_key(id) ==> index < BUTTON_COUNT,
        ensures
            match value {
                Some(v) => self@.contains_key(id) && v == self@[id].buttons[index as int],
                None => !self@.contains_key(id),
            },
    {
        match self.controller(id) {
            Some(pad) => Some(pad.buttons[index]),
            None => None,
        }
    }

    /// The name of a controller.
    pub fn name(&self, id: ControllerId) -> (name: Option<&str>)
        ensures
            match name {
                Some(n) => self@.contains_key(id) && n@ == self@[id].name,
                None => !self@.contains_key(id),
            },
    {
        match self.controller(id) {
            Some(pad) => Some(pad.name.as_str()),
            None => None,
        }
    }

    /// Moves a stick of a controller. For a controller that is held the move
    /// is reported and the stick takes the position; for an id that is not
    /// held nothing happens.
    pub fn set_axis(
        &mut self,
        id: ControllerId,
        axis: usize,
        value: AxisValueType,
        queue: &mut Vec<ControllerMessage>,
    ) -> (result: Option<()>)
        requires
            well_formed(old(self)@),
            old(self)@.contains_key(id) ==> axis < AXIS_COUNT,
        ensures
            well_formed(final(self)@),
            result is Some <==> old(self)@.contains_key(id),
            result is Some ==> final(self)@ == old(self)@.insert(
                id,
                ControllerModel {
                    axis: old(self)@[id].axis.update(axis as int, value),
                    ..old(self)@[id]
                },
            ) && messages(final(queue)@) == messages(old(queue)@).push(
                MessageModel::AxisChanged(id, axis, value),
            ),
            result is None ==> final(self)@ == old(self)@ && messages(final(queue)@) == messages(
                old(queue)@,
            ),
    {
        let mut gamepad = match self.gamepads.remove(&id) {
            Some(gamepad) => gamepad,
            None => {
                assert(self@ =~= old(self)@);
                return None;
            },
        };
        queue.push(ControllerMessage::AxisChanged(id, axis, value));
        gamepad.axis[axis] = value;
        self.gamepads.insert(id, gamepad);
        assert(self@ =~= old(self)@.insert(
            id,
            ControllerModel {
                axis: old(self)@[id].axis.update(axis as int, value),
                ..old(self)@[id]
            },
        ));
        assert(messages(queue@) =~= messages(old(queue)@).push(
            MessageModel::AxisChanged(id, axis, value),
        ));
        Some(())
    }

    /// Presses or releases a button of a controller. For a controller that is
    /// held the change is reported and the button takes the state; the first
    /// press on a controller makes it active, which is reported before the
    /// change. For an id that is not held nothing happens.
    pub fn set_button(
        &mut self,
        id: ControllerId,
        button: usize,
        value: ButtonValueType,
        queue: &mut Vec<ControllerMessage>,
    ) -> (result: Option<()>)
        requires
            well_formed(old(self)@),
            old(self)@.contains_key(id) ==> button < BUTTON_COUNT,
        ensures
            well_formed(final(self)@),
            result is Some <==> old(self)@.contains_key(id),
            result is Some ==> final(self)@ == old(self)@.insert(
                id,
                ControllerModel {
                    buttons: old(self)@[id].buttons.update(button as int, value),
                    is_active: old(self)@[id].is_active || value,
                    ..old(self)@[id]
                },
            ) && messages(final(queue)@) == (if !old(self)@[id].is_active && value {
                messages(old(queue)@).push(MessageModel::Activated(id))
            } else {
                messages(old(queue)@)
            }).push(MessageModel::ButtonChanged(id, button, value)),
            result is None ==> final(self)@ == old(self)@ && messages(final(queue)@) == messages(
                old(queue)@,
            ),
    {
        let mut gamepad = match self.gamepads.remove(&id) {
            Some(gamepad) => gamepad,
            None => {
                assert(self@ =~= old(self)@);
                return None;
            },
        };
        let ghost before = messages(queue@);
        if !gamepad.is_active && value {
            queue.push(ControllerMessage::Activated(id));
            gamepad.is_active = true;
            assert(messages(queue@) =~= before.push(MessageModel::Activated(id)));
        }
        let ghost between = messages(queue@);
        queue.push(ControllerMessage::ButtonChanged(id, button, value));
        assert(messages(queue@) =~= between.push(MessageModel::ButtonChanged(id, button, value)));
        gamepad.buttons[button] = value;
        self.gamepads.insert(id, gamepad);
        assert(self@ =~= old(self)@.insert(
            id,
            ControllerModel {
                buttons: old(self)@[id].buttons.update(button as int, value),
                is_active: old(self)@[id].is_active || value,
                ..old(self)@[id]
            },
        ));
        Some(())
    }
}

impl Default for Controllers {
    fn default() -> (controllers: Self)
        ensures
            controllers@ == Map::<ControllerId, ControllerModel>::empty(),
            well_formed(controllers@),
    {
        Self::new()
    }
}


/// The invariant of the held controllers: every controller is held under its
/// own id, with all its axes and buttons.
pub open spec fn well_formed(controllers: Map<ControllerId, ControllerModel>) -> bool {
    forall|id: ControllerId| #[trigger]
        controllers.contains_key(id) ==> controllers[id].id == id && controllers[id].axis.len()
            == AXIS_COUNT && controllers[id].buttons.len() == BUTTON_COUNT
}

/// Connecting, disconnecting, moving a stick and pressing a button each keep
/// every controller under its own id.
pub proof fn theorem_controllers_stay_well_formed(
    controllers: Map<ControllerId, ControllerModel>,
    id: ControllerId,
    name: Seq<char>,
    axis: int,
    button: int,
    position: AxisValueType,
    pressed: bool,
)
    requires
        well_formed(controllers),
        0 <= axis < AXIS_COUNT,
        0 <= button < BUTTON_COUNT,
    ensures
        well_formed(Map::<ControllerId, ControllerModel>::empty()),
        well_formed(controllers.insert(id, fresh_controller(id, name))),
        well_formed(controllers.remove(id)),
        controllers.contains_key(id) ==> well_formed(
            controllers.insert(
                id,
                ControllerModel { axis: controllers[id].axis.update(axis, position), ..controllers[id] },
            ),
        ),
        controllers.contains_key(id) ==> well_formed(
            controllers.insert(
                id,
                ControllerModel {
                    buttons: controllers[id].buttons.update(button, pressed),
                    is_active: controllers[id].is_active || pressed,
                    ..controllers[id]
                },
            ),
        ),
{
}

} // verus!
