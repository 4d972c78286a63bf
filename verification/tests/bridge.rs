use apple_gamepad::GamepadIndex;
use apple_gamepad::GamepadPlatformHandler;
use apple_gamepad::error::GamepadError;
use apple_gamepad::input_model::{GamepadAxis, GamepadButton, GamepadConnection, RawGamepadEvent};
use apple_gamepad::platform::GamepadPlatformEvent;
use apple_gamepad::profile::{ButtonChange, Changed, DPadChange};

fn connected(id: usize, name: &str) -> GamepadPlatformEvent {
    GamepadPlatformEvent::Connected {
        id,
        connection: GamepadConnection::Connected {
            name: String::from(name),
            vendor_id: None,
            product_id: None,
        },
    }
}

#[test]
fn index_map_insert_get_remove() {
    let mut index = GamepadIndex::new();
    assert_eq!(index.get(0), None);
    index.insert(0, 100);
    index.insert(1, 101);
    assert_eq!(index.get(0), Some(100));
    assert_eq!(index.get(1), Some(101));
    index.insert(0, 102);
    assert_eq!(index.get(0), Some(102));
    index.remove(0);
    assert_eq!(index.get(0), None);
    assert_eq!(index.get(1), Some(101));
}

#[test]
fn connect_event_spawns_a_fresh_handle() {
    let mut handler = GamepadPlatformHandler::new();
    let out = handler.handle_event(connected(0, "Pad1 0"));
    assert_eq!(out.len(), 1);
    match &out[0] {
        RawGamepadEvent::Connection(ev) => {
            assert_eq!(ev.gamepad, 0);
            match &ev.connection {
                GamepadConnection::Connected { name, .. } => assert_eq!(name, "Pad1 0"),
                other => panic!("expected a connected connection, got {other:?}"),
            }
        }
        other => panic!("expected a connection event, got {other:?}"),
    }
    // A second device gets a different consumer handle.
    let out = handler.handle_event(connected(1, "Pad2 1"));
    match &out[0] {
        RawGamepadEvent::Connection(ev) => assert_eq!(ev.gamepad, 1),
        other => panic!("expected a connection event, got {other:?}"),
    }
}

#[test]
fn dpad_change_fans_out_to_four_button_events_in_order() {
    let mut handler = GamepadPlatformHandler::new();
    handler.handle_event(connected(0, "Pad1 0"));
    let up = 1.0f32.to_bits();
    let down = 0.5f32.to_bits();
    let left = 0.25f32.to_bits();
    let right = 0.0f32.to_bits();
    let out = handler.handle_event(GamepadPlatformEvent::InputChanged {
        id: 0,
        change: Changed::DPad(DPadChange::new(up, down, left, right)),
    });
    assert_eq!(out.len(), 4);
    let expected = [
        (GamepadButton::DPadUp, up),
        (GamepadButton::DPadDown, down),
        (GamepadButton::DPadLeft, left),
        (GamepadButton::DPadRight, right),
    ];
    for (event, (button, value)) in out.iter().zip(expected) {
        match event {
            RawGamepadEvent::Button(ev) => {
                assert_eq!(ev.button, button);
                assert_eq!(ev.value, value);
            }
            other => panic!("expected a button event, got {other:?}"),
        }
    }
}

#[test]
fn dual_axis_change_fans_out_to_two_axis_events() {
    let mut handler = GamepadPlatformHandler::new();
    handler.handle_event(connected(0, "Pad1 0"));
    let x = 0.75f32.to_bits();
    let y = (-0.5f32).to_bits();
    let out = handler.handle_event(GamepadPlatformEvent::InputChanged {
        id: 0,
        change: Changed::DualAxis {
            x_axis: GamepadAxis::LeftStickX,
            x_value: x,
            y_axis: GamepadAxis::LeftStickY,
            y_value: y,
        },
    });
    assert_eq!(out.len(), 2);
    match (&out[0], &out[1]) {
        (RawGamepadEvent::Axis(first), RawGamepadEvent::Axis(second)) => {
            assert_eq!(first.axis, GamepadAxis::LeftStickX);
            assert_eq!(first.value, x);
            assert_eq!(second.axis, GamepadAxis::LeftStickY);
            assert_eq!(second.value, y);
        }
        other => panic!("expected two axis events, got {other:?}"),
    }
}

#[test]
fn button_and_single_axis_map_one_to_one() {
    let mut handler = GamepadPlatformHandler::new();
    handler.handle_event(connected(0, "Pad1 0"));
    let v = 1.0f32.to_bits();
    let out = handler.handle_event(GamepadPlatformEvent::InputChanged {
        id: 0,
        change: Changed::Button(ButtonChange::new(GamepadButton::South, v)),
    });
    assert_eq!(out.len(), 1);
    let out = handler.handle_event(GamepadPlatformEvent::InputChanged {
        id: 0,
        change: Changed::SingleAxis { axis: GamepadAxis::RightZ, value: v },
    });
    assert_eq!(out.len(), 1);
}

#[test]
fn stale_events_are_dropped_without_disturbing_later_ones() {
    let mut handler = GamepadPlatformHandler::new();
    let batch = vec![
        // Both reference an id the index map has never held.
        GamepadPlatformEvent::InputChanged {
            id: 9,
            change: Changed::Button(ButtonChange::new(GamepadButton::South, 1)),
        },
        GamepadPlatformEvent::Disconnected { id: 9 },
        // Processing continues: the connect still goes through.
        connected(0, "Pad1 0"),
    ];
    let out = handler.process_batch(batch);
    assert_eq!(out.len(), 1);
    assert!(matches!(&out[0], RawGamepadEvent::Connection(_)));
}

#[test]
fn error_events_produce_no_consumer_notifications() {
    let mut handler = GamepadPlatformHandler::new();
    let out = handler.handle_event(GamepadPlatformEvent::Error(GamepadError::Platform(
        String::from("notification payload was malformed"),
    )));
    assert!(out.is_empty());
}

#[test]
fn disconnect_removes_the_mapping_and_reports_once() {
    let mut handler = GamepadPlatformHandler::new();
    handler.handle_event(connected(0, "Pad1 0"));
    let out = handler.handle_event(GamepadPlatformEvent::Disconnected { id: 0 });
    assert_eq!(out.len(), 1);
    match &out[0] {
        RawGamepadEvent::Connection(ev) => {
            assert_eq!(ev.gamepad, 0);
            assert!(matches!(ev.connection, GamepadConnection::Disconnected));
        }
        other => panic!("expected a connection event, got {other:?}"),
    }
    // A second disconnect for the same id finds no mapping and is dropped.
    let out = handler.handle_event(GamepadPlatformEvent::Disconnected { id: 0 });
    assert!(out.is_empty());
}

#[test]
fn consumer_handles_are_not_reused_after_index_reuse() {
    let mut handler = GamepadPlatformHandler::new();
    let out = handler.handle_event(connected(0, "Pad1 0"));
    let first_handle = match &out[0] {
        RawGamepadEvent::Connection(ev) => ev.gamepad,
        other => panic!("expected a connection event, got {other:?}"),
    };
    handler.handle_event(GamepadPlatformEvent::Disconnected { id: 0 });
    // The platform reuses gamepad id 0; the consumer handle is still fresh.
    let out = handler.handle_event(connected(0, "Pad2 0"));
    let second_handle = match &out[0] {
        RawGamepadEvent::Connection(ev) => ev.gamepad,
        other => panic!("expected a connection event, got {other:?}"),
    };
    assert_ne!(first_handle, second_handle);
}
