//! Rewinding: a snapshot of the simulation is taken on every tick, and the
//! player can pause, step through the snapshots and continue from any of them.

use vstd::prelude::*;
use crate::codec::{decode, deserialize, encode, strings_fit, SerializeError};
use crate::reload::SNAPSHOT_CAPACITY;
use crate::value::{ScriptType, ScriptValue, TypeModel, ValueModel};

verus! {

/// The serialized simulation state of one tick.
#[derive(Debug, Clone, PartialEq, Eq)]
pub struct Snapshot {
    pub payload: Vec<u8>,
}

/// The snapshots taken so far and the one to show. While `tick_to_show` is
/// empty the simulation runs and every tick adds a snapshot; while it names a
/// tick the simulation is paused on that snapshot.
#[derive(Debug, Clone, PartialEq, Eq)]
pub struct Rewind {
    pub snapshots: Vec<Snapshot>,
    pub tick_to_show: Option<usize>,
    pub select_button_previous_state: bool,
}

/// The buttons that steer the rewind.
#[derive(Debug, Clone, Copy, PartialEq, Eq, Structural)]
pub enum RewindButton {
    LeftTrigger2,
    RightTrigger2,
    Select { pushed_down: bool },
    Other,
}

/// What a button asks of the part that keeps the speed of the rewind.
#[derive(Debug, Clone, Copy, PartialEq, Eq, Structural)]
pub enum RewindAction {
    Nothing,
    /// Take the button's value as the new speed, backwards or forwards.
    SetVelocity { backwards: bool },
    /// Pause on the newest snapshot: set the speed to zero.
    Pause,
    /// Continue from the tick that is shown: forget the speed.
    Continue,
}

/// The payloads of a run of snapshots.
pub open spec fn payloads(snapshots: Seq<Snapshot>) -> Seq<Seq<u8>> {
    Seq::new(snapshots.len(), |i: int| snapshots[i].payload@)
}

/// The snapshot to show: the newest while the simulation runs, else the named
/// tick, or the newest where that tick is beyond it. None where there is no
/// snapshot.
pub open spec fn shown_index(count: nat, tick_to_show: Option<usize>) -> Option<nat> {
    if count == 0 {
        None
    } else {
        match tick_to_show {
            None => Some((count - 1) as nat),
            Some(index) => Some(
                if index < count {
                    index as nat
                } else {
                    (count - 1) as nat
                },
            ),
        }
    }
}

/// The value that a tick shows: what the snapshot to show holds, read as a
/// value of the simulation's type; none where there is no snapshot or it
/// cannot be read as such a value.
pub open spec fn shown_value(
    ty: TypeModel,
    snapshots: Seq<Seq<u8>>,
    tick_to_show: Option<usize>,
) -> Option<ValueModel> {
    match shown_index(snapshots.len(), tick_to_show) {
        Some(index) => match decode(ty, snapshots[index as int]) {
            Some((value, _)) => Some(value),
            None => None,
        },
        None => None,
    }
}

/// The model of an optional value.
pub open spec fn value_view(value: Option<ScriptValue>) -> Option<ValueModel> {
    match value {
        Some(v) => Some(v@),
        None => None,
    }
}

impl Rewind {
    /// No snapshots, running.
    pub fn new() -> (rewind: Self)
        ensures
            rewind.snapshots@.len() == 0,
            rewind.tick_to_show is None,
            !rewind.select_button_previous_state,
    {
        Self { snapshots: Vec::new(), tick_to_show: None, select_button_previous_state: false }
    }

    /// The index of the snapshot to show.
    pub fn index_to_show(&self) -> (index: Option<usize>)
        ensures
            match index {
                Some(i) => shown_index(self.snapshots@.len(), self.tick_to_show) == Some(i as nat),
                None => shown_index(self.snapshots@.len(), self.tick_to_show) is None,
            },
    {
        if self.snapshots.len() == 0 {
            return None;
        }
        let last = self.snapshots.len() - 1;
        match self.tick_to_show {
            None => Some(last),
            Some(index) => Some(
                if index < last {
                    index
                } else {
                    last
                },
            ),
        }
    }
}

/// Records the tick and picks the value to show.
///
/// While the simulation runs, the value's serialized form is added as the
/// newest snapshot. Then the snapshot to show is read back as a value of type
/// `ty`, the simulation's struct type. The simulation value is a struct.
pub fn serialize(logic_value: &ScriptValue, ty: &ScriptType, rewind: &mut Rewind) -> (result: Result<
    Option<ScriptValue>,
    SerializeError,
>)
    requires
        logic_value@ is Struct,
    ensures
        final(rewind).tick_to_show == old(rewind).tick_to_show,
        final(rewind).select_button_previous_state == old(rewind).select_button_previous_state,
        match result {
            Ok(shown) => payloads(final(rewind).snapshots@) == (if old(rewind).tick_to_show is None {
                payloads(old(rewind).snapshots@).push(encode(logic_value@))
            } else {
                payloads(old(rewind).snapshots@)
            }) && value_view(shown) == shown_value(
                ty@,
                payloads(final(rewind).snapshots@),
                old(rewind).tick_to_show,
            ) && (old(rewind).tick_to_show is None ==> strings_fit(logic_value@) && encode(
                logic_value@,
            ).len() <= SNAPSHOT_CAPACITY),
            Err(SerializeError::StringTooLong) => old(rewind).tick_to_show is None && !strings_fit(logic_value@) && final(rewind).snapshots@ == old(rewind).snapshots@,
            Err(SerializeError::BufferFull) => old(rewind).tick_to_show is None && strings_fit(logic_value@) && encode(
                logic_value@,
            ).len() > SNAPSHOT_CAPACITY && final(rewind).snapshots@ == old(rewind).snapshots@,
        },
{
    if rewind.tick_to_show.is_none() {
        match crate::codec::serialize(logic_value, SNAPSHOT_CAPACITY) {
            Ok(payload) => {
                rewind.snapshots.push(Snapshot { payload });
                assert(payloads(rewind.snapshots@) =~= payloads(old(rewind).snapshots@).push(
                    encode(logic_value@),
                ));
            },
            Err(e) => {
                return Err(e);
            },
        }
    }
    match rewind.index_to_show() {
        Some(index) => match deserialize(ty, rewind.snapshots[index].payload.as_slice()) {
            Some((value, _)) => Ok(Some(value)),
            None => Ok(None),
        },
        None => Ok(None),
    }
}

/// Takes a press or release of one of the buttons that steer the rewind.
///
/// A trigger asks for a new speed. Select, when it goes down, pauses a running
/// simulation; on a paused one it drops the snapshots from the shown tick on
/// and lets the simulation continue from there.
pub fn rewind(button: RewindButton, state: &mut Rewind) -> (action: RewindAction)
    ensures
        match button {
            RewindButton::LeftTrigger2 => action == (RewindAction::SetVelocity { backwards: true })
                && *final(state) == *old(state),
            RewindButton::RightTrigger2 => action == (RewindAction::SetVelocity {
                backwards: false,
            }) && *final(state) == *old(state),
            RewindButton::Other => action == RewindAction::Nothing && *final(state) == *old(state),
            RewindButton::Select { pushed_down } => {
                &&& final(state).select_button_previous_state == pushed_down
                &&& if pushed_down && !old(state).select_button_previous_state {
                    match old(state).tick_to_show {
                        None => action == RewindAction::Pause && final(state).snapshots == old(state).snapshots && final(state).tick_to_show is None,
                        Some(tick_index) => action == RewindAction::Continue && final(state).tick_to_show is None && final(state).snapshots@ == old(state).snapshots@.take(
                            if tick_index <= old(state).snapshots@.len() {
                                tick_index as int
                            } else {
                                old(state).snapshots@.len() as int
                            },
                        ),
                    }
                } else {
                    action == RewindAction::Nothing && final(state).snapshots == old(state).snapshots && final(state).tick_to_show == old(state).tick_to_show
                }
            },
        },
{
    match button {
        RewindButton::LeftTrigger2 => RewindAction::SetVelocity { backwards: true },
        RewindButton::RightTrigger2 => RewindAction::SetVelocity { backwards: false },
        RewindButton::Select { pushed_down } => {
            let was_pushed_now = !state.select_button_previous_state && pushed_down;
            state.select_button_previous_state = pushed_down;
            if was_pushed_now {
                match state.tick_to_show {
                    None => RewindAction::Pause,
                    Some(tick_index) => {
                        state.snapshots.truncate(tick_index);
                        state.tick_to_show = None;
                        RewindAction::Continue
                    },
                }
            } else {
                RewindAction::Nothing
            }
        },
        RewindButton::Other => RewindAction::Nothing,
    }
}

} // verus!
