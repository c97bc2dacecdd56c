use mangrove::controllers::{AxisValueType, Controller, ControllerMessage, Controllers};

fn value(x: f32, y: f32) -> AxisValueType {
    AxisValueType { x: x.to_bits(), y: y.to_bits() }
}

#[test]
fn new_controller_is_at_rest() {
    let controller = Controller::new(3, "pad");
    assert_eq!(controller.id, 3);
    assert_eq!(controller.name, "pad");
    assert!(!controller.is_active);
    assert_eq!(controller.axis, [AxisValueType { x: 0, y: 0 }; 4]);
    assert_eq!(controller.buttons, [false; 32]);
    assert_eq!(controller.axis(3), AxisValueType::default());
    assert!(!controller.button(31));
    assert_eq!(f32::from_bits(controller.axis(0).x), 0.0);
}

#[test]
fn connecting_holds_the_controller_and_reports_it() {
    let mut controllers = Controllers::new();
    let mut queue = Vec::new();
    controllers.connected(1, "pad", &mut queue);
    assert_eq!(queue, vec![ControllerMessage::Connected(1, "pad".to_string())]);
    assert_eq!(controllers.controller(1), Some(&Controller::new(1, "pad")));
    assert_eq!(controllers.name(1), Some("pad"));
    assert_eq!(controllers.controller(2), None);
    assert_eq!(controllers.name(2), None);
}

#[test]
fn connecting_again_starts_the_controller_afresh() {
    let mut controllers = Controllers::new();
    let mut queue = Vec::new();
    controllers.connected(1, "pad", &mut queue);
    controllers.set_button(1, 0, true, &mut queue);
    controllers.connected(1, "other", &mut queue);
    assert_eq!(controllers.controller(1), Some(&Controller::new(1, "other")));
}

#[test]
fn disconnecting_drops_the_controller_and_reports_it() {
    let mut controllers = Controllers::default();
    let mut queue = Vec::new();
    controllers.connected(1, "pad", &mut queue);
    queue.clear();
    assert!(controllers.disconnected(1, &mut queue));
    assert_eq!(queue, vec![ControllerMessage::Disconnected(1)]);
    assert_eq!(controllers.controller(1), None);
    assert!(!controllers.disconnected(1, &mut queue));
    assert_eq!(queue.len(), 1);
}

#[test]
fn moving_a_stick_is_kept_and_reported() {
    let mut controllers = Controllers::new();
    let mut queue = Vec::new();
    controllers.connected(1, "pad", &mut queue);
    queue.clear();
    assert_eq!(controllers.set_axis(1, 2, value(0.5, -1.0), &mut queue), Some(()));
    assert_eq!(queue, vec![ControllerMessage::AxisChanged(1, 2, value(0.5, -1.0))]);
    assert_eq!(controllers.axis(1, 2), Some(value(0.5, -1.0)));
    assert_eq!(controllers.axis(1, 1), Some(AxisValueType { x: 0, y: 0 }));
    assert!(!controllers.controller(1).unwrap().is_active);
}

#[test]
fn first_press_makes_the_controller_active() {
    let mut controllers = Controllers::new();
    let mut queue = Vec::new();
    controllers.connected(1, "pad", &mut queue);
    queue.clear();
    assert_eq!(controllers.set_button(1, 4, false, &mut queue), Some(()));
    assert_eq!(queue, vec![ControllerMessage::ButtonChanged(1, 4, false)]);
    assert!(!controllers.controller(1).unwrap().is_active);
    queue.clear();
    assert_eq!(controllers.set_button(1, 4, true, &mut queue), Some(()));
    assert_eq!(
        queue,
        vec![ControllerMessage::Activated(1), ControllerMessage::ButtonChanged(1, 4, true)]
    );
    assert!(controllers.controller(1).unwrap().is_active);
    assert_eq!(controllers.button(1, 4), Some(true));
    assert_eq!(controllers.button(1, 5), Some(false));
    queue.clear();
    assert_eq!(controllers.set_button(1, 5, true, &mut queue), Some(()));
    assert_eq!(queue, vec![ControllerMessage::ButtonChanged(1, 5, true)]);
    queue.clear();
    assert_eq!(controllers.set_button(1, 4, false, &mut queue), Some(()));
    assert!(controllers.controller(1).unwrap().is_active);
    assert_eq!(controllers.button(1, 4), Some(false));
}

#[test]
fn controller_that_is_not_held_takes_nothing() {
    let mut controllers = Controllers::new();
    let mut queue = Vec::new();
    assert_eq!(controllers.set_axis(1, 0, value(1.0, 1.0), &mut queue), None);
    assert_eq!(controllers.set_button(1, 0, true, &mut queue), None);
    assert_eq!(controllers.axis(1, 0), None);
    assert_eq!(controllers.button(1, 0), None);
    assert_eq!(controllers.set_axis(1, 4, value(1.0, 1.0), &mut queue), None);
    assert_eq!(controllers.set_button(1, 32, true, &mut queue), None);
    assert_eq!(controllers.axis(1, 400), None);
    assert_eq!(controllers.button(1, 3200), None);
    assert!(queue.is_empty());
    assert!(controllers.ids().is_empty());
}

#[test]
fn ids_are_those_of_the_held_controllers() {
    let mut controllers = Controllers::new();
    let mut queue = Vec::new();
    assert!(controllers.ids().is_empty());
    controllers.connected(4, "a", &mut queue);
    controllers.connected(2, "b", &mut queue);
    controllers.connected(9, "c", &mut queue);
    controllers.disconnected(2, &mut queue);
    let mut ids = controllers.ids();
    ids.sort();
    assert_eq!(ids, vec![4, 9]);
}

#[test]
fn active_ids_are_those_with_a_button_pressed_once() {
    let mut controllers = Controllers::new();
    let mut queue = Vec::new();
    controllers.connected(4, "a", &mut queue);
    controllers.connected(2, "b", &mut queue);
    controllers.connected(9, "c", &mut queue);
    assert!(controllers.active_ids().is_empty());
    controllers.set_button(9, 0, true, &mut queue);
    controllers.set_button(4, 3, true, &mut queue);
    controllers.set_button(4, 3, false, &mut queue);
    let mut active = controllers.active_ids();
    active.sort();
    assert_eq!(active, vec![4, 9]);
}
