use mangrove::codec::SerializeError;
use mangrove::serialize::{rewind, serialize, Rewind, RewindAction, RewindButton, Snapshot};
use mangrove::value::{ScriptType, ScriptValue, StructField, StructType};

fn sim_type() -> ScriptType {
    ScriptType::Struct(StructType {
        type_id: 1,
        name: "Sim".to_string(),
        fields: vec![StructField { name: "x".to_string(), field_type: ScriptType::Int }],
    })
}

fn sim(x: i32) -> ScriptValue {
    ScriptValue::Struct(vec![ScriptValue::Int(x)])
}

fn three_ticks() -> Rewind {
    let mut state = Rewind::new();
    for x in 1..=3 {
        serialize(&sim(x), &sim_type(), &mut state).unwrap();
    }
    state
}

#[test]
fn running_simulation_records_every_tick_and_shows_the_newest() {
    let mut state = Rewind::new();
    assert_eq!(serialize(&sim(1), &sim_type(), &mut state), Ok(Some(sim(1))));
    assert_eq!(serialize(&sim(2), &sim_type(), &mut state), Ok(Some(sim(2))));
    assert_eq!(
        state.snapshots,
        vec![Snapshot { payload: vec![1, 0, 0, 0] }, Snapshot { payload: vec![2, 0, 0, 0] }]
    );
    assert_eq!(state.index_to_show(), Some(1));
}

#[test]
fn paused_simulation_shows_the_named_tick_and_records_nothing() {
    let mut state = three_ticks();
    state.tick_to_show = Some(0);
    assert_eq!(serialize(&sim(9), &sim_type(), &mut state), Ok(Some(sim(1))));
    assert_eq!(state.snapshots.len(), 3);
    state.tick_to_show = Some(2);
    assert_eq!(serialize(&sim(9), &sim_type(), &mut state), Ok(Some(sim(3))));
}

#[test]
fn tick_beyond_the_newest_shows_the_newest() {
    let mut state = three_ticks();
    state.tick_to_show = Some(100);
    assert_eq!(state.index_to_show(), Some(2));
    assert_eq!(serialize(&sim(9), &sim_type(), &mut state), Ok(Some(sim(3))));
}

#[test]
fn no_snapshot_shows_nothing() {
    let mut state = Rewind::new();
    state.tick_to_show = Some(0);
    assert_eq!(state.index_to_show(), None);
    assert_eq!(serialize(&sim(9), &sim_type(), &mut state), Ok(None));
    assert!(state.snapshots.is_empty());
}

#[test]
fn snapshot_that_cannot_be_read_shows_nothing() {
    let mut state = Rewind::new();
    state.snapshots.push(Snapshot { payload: vec![1, 2] });
    state.tick_to_show = Some(0);
    assert_eq!(serialize(&sim(9), &sim_type(), &mut state), Ok(None));
}

#[test]
fn value_that_does_not_fit_is_refused() {
    let mut state = Rewind::new();
    let big = ScriptValue::Struct(vec![ScriptValue::String("x".repeat(3000))]);
    assert_eq!(
        serialize(&big, &sim_type(), &mut state),
        Err(SerializeError::BufferFull)
    );
    let long = ScriptValue::Struct(vec![ScriptValue::String("x".repeat(70000))]);
    assert_eq!(
        serialize(&long, &sim_type(), &mut state),
        Err(SerializeError::StringTooLong)
    );
    assert!(state.snapshots.is_empty());
}

#[test]
fn triggers_ask_for_a_speed() {
    let mut state = three_ticks();
    assert_eq!(
        rewind(RewindButton::LeftTrigger2, &mut state),
        RewindAction::SetVelocity { backwards: true }
    );
    assert_eq!(
        rewind(RewindButton::RightTrigger2, &mut state),
        RewindAction::SetVelocity { backwards: false }
    );
    assert_eq!(rewind(RewindButton::Other, &mut state), RewindAction::Nothing);
    assert_eq!(state, three_ticks());
}

#[test]
fn select_pauses_a_running_simulation() {
    let mut state = three_ticks();
    assert_eq!(rewind(RewindButton::Select { pushed_down: true }, &mut state), RewindAction::Pause);
    assert!(state.select_button_previous_state);
    assert_eq!(state.snapshots.len(), 3);
    assert_eq!(state.tick_to_show, None);
}

#[test]
fn select_acts_only_when_it_goes_down() {
    let mut state = three_ticks();
    rewind(RewindButton::Select { pushed_down: true }, &mut state);
    assert_eq!(rewind(RewindButton::Select { pushed_down: true }, &mut state), RewindAction::Nothing);
    assert_eq!(rewind(RewindButton::Select { pushed_down: false }, &mut state), RewindAction::Nothing);
    assert!(!state.select_button_previous_state);
    assert_eq!(rewind(RewindButton::Select { pushed_down: false }, &mut state), RewindAction::Nothing);
}

#[test]
fn select_continues_from_the_shown_tick() {
    let mut state = three_ticks();
    state.tick_to_show = Some(1);
    assert_eq!(rewind(RewindButton::Select { pushed_down: true }, &mut state), RewindAction::Continue);
    assert_eq!(state.tick_to_show, None);
    assert_eq!(state.snapshots, vec![Snapshot { payload: vec![1, 0, 0, 0] }]);
}

#[test]
fn continuing_beyond_the_newest_drops_nothing() {
    let mut state = three_ticks();
    state.tick_to_show = Some(7);
    assert_eq!(rewind(RewindButton::Select { pushed_down: true }, &mut state), RewindAction::Continue);
    assert_eq!(state.snapshots.len(), 3);
}
