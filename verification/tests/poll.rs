use apple_gamepad::GamepadPlatformHandler;
use apple_gamepad::game_controller::{
    AppleGameController, AppleGameControllerEvent, PadState, PolledController,
};
use apple_gamepad::input_model::{
    GamepadAxis, GamepadButton, GamepadConnection, GamepadInput, RawGamepadEvent,
};

fn quiet_pad() -> PadState {
    PadState {
        button_a: 0,
        button_b: 0,
        button_x: 0,
        button_y: 0,
        button_menu: 0,
        button_options: Some(0),
        button_home: Some(0),
        left_thumbstick_button: Some(0),
        right_thumbstick_button: Some(0),
        left_shoulder: 0,
        right_shoulder: 0,
        left_trigger: 0,
        right_trigger: 0,
        dpad_up: 0,
        dpad_down: 0,
        dpad_left: 0,
        dpad_right: 0,
        left_stick_x: 0,
        left_stick_y: 0,
        right_stick_x: 0,
        right_stick_y: 0,
    }
}

#[test]
fn button_value_reads_the_swapped_face_buttons() {
    let mut pad = quiet_pad();
    pad.button_a = 10;
    pad.button_b = 20;
    pad.button_x = 30;
    pad.button_y = 40;
    // This backend reads South from button B and East from button A.
    assert_eq!(AppleGameController::button_value(&pad, &GamepadButton::South), 20);
    assert_eq!(AppleGameController::button_value(&pad, &GamepadButton::East), 10);
    assert_eq!(AppleGameController::button_value(&pad, &GamepadButton::North), 30);
    assert_eq!(AppleGameController::button_value(&pad, &GamepadButton::West), 40);
}

#[test]
fn button_value_reads_triggers_and_shoulders_crosswise() {
    let mut pad = quiet_pad();
    pad.left_shoulder = 1;
    pad.right_shoulder = 2;
    pad.left_trigger = 3;
    pad.right_trigger = 4;
    assert_eq!(AppleGameController::button_value(&pad, &GamepadButton::LeftTrigger), 3);
    assert_eq!(AppleGameController::button_value(&pad, &GamepadButton::LeftTrigger2), 1);
    assert_eq!(AppleGameController::button_value(&pad, &GamepadButton::RightTrigger), 4);
    assert_eq!(AppleGameController::button_value(&pad, &GamepadButton::RightTrigger2), 2);
}

#[test]
fn button_value_falls_back_to_zero_for_unwired_buttons() {
    let mut pad = quiet_pad();
    pad.button_options = None;
    pad.button_home = None;
    assert_eq!(AppleGameController::button_value(&pad, &GamepadButton::C), 0);
    assert_eq!(AppleGameController::button_value(&pad, &GamepadButton::Z), 0);
    assert_eq!(AppleGameController::button_value(&pad, &GamepadButton::Select), 0);
    assert_eq!(AppleGameController::button_value(&pad, &GamepadButton::Mode), 0);
}

#[test]
fn axis_value_reads_sticks_and_shoulder_axes() {
    let mut pad = quiet_pad();
    pad.left_stick_x = 5;
    pad.left_stick_y = 6;
    pad.right_stick_x = 7;
    pad.right_stick_y = 8;
    pad.left_shoulder = 9;
    pad.right_shoulder = 11;
    assert_eq!(AppleGameController::axis_value(&pad, &GamepadAxis::LeftStickX), 5);
    assert_eq!(AppleGameController::axis_value(&pad, &GamepadAxis::LeftStickY), 6);
    assert_eq!(AppleGameController::axis_value(&pad, &GamepadAxis::RightStickX), 7);
    assert_eq!(AppleGameController::axis_value(&pad, &GamepadAxis::RightStickY), 8);
    assert_eq!(AppleGameController::axis_value(&pad, &GamepadAxis::LeftZ), 9);
    assert_eq!(AppleGameController::axis_value(&pad, &GamepadAxis::RightZ), 11);
}

fn polled(index: usize, pad: PadState, known: Vec<(GamepadInput, u32)>) -> PolledController {
    PolledController {
        index,
        has_new_input: true,
        has_extended_gamepad: true,
        has_component: true,
        pad,
        known,
    }
}

#[test]
fn poll_system_emits_only_changed_inputs() {
    let mut handler = GamepadPlatformHandler::new();
    AppleGameController::gamepad_connection_system(
        &mut handler,
        vec![AppleGameControllerEvent::Connected {
            id: 0,
            connection: GamepadConnection::Connected {
                name: String::from("Pad1 0"),
                vendor_id: None,
                product_id: None,
            },
        }],
    );
    let mut pad = quiet_pad();
    pad.button_b = 1.0f32.to_bits();
    let known = vec![
        (GamepadInput::Button(GamepadButton::South), 0u32),
        (GamepadInput::Button(GamepadButton::East), 0u32),
        (GamepadInput::Axis(GamepadAxis::LeftStickX), 0u32),
    ];
    let controllers = vec![polled(0, pad, known)];
    let out = AppleGameController::poll_system(&handler.index, &controllers);
    // Only South changed: button B feeds South on this backend.
    assert_eq!(out.len(), 1);
    match &out[0] {
        RawGamepadEvent::Button(ev) => {
            assert_eq!(ev.button, GamepadButton::South);
            assert_eq!(ev.value, 1.0f32.to_bits());
        }
        other => panic!("expected a button event, got {other:?}"),
    }
}

#[test]
fn poll_system_skips_unknown_ids_and_devices_without_fresh_input() {
    let handler = GamepadPlatformHandler::new();
    let pad = quiet_pad();
    let known = vec![(GamepadInput::Button(GamepadButton::South), 5u32)];
    let mut idle = polled(0, pad, known.clone());
    idle.has_new_input = false;
    // Neither device produces anything: one is idle, the other's id is
    // unknown to the (empty) index map.
    let controllers = vec![idle, polled(3, pad, known)];
    let out = AppleGameController::poll_system(&handler.index, &controllers);
    assert!(out.is_empty());
}

#[test]
fn connection_event_combines_class_vendor_and_counter() {
    let ev = AppleGameController::connection_event("GCController", Some(String::from("Pad9")), 3);
    match ev {
        AppleGameControllerEvent::Connected { id, connection } => {
            assert_eq!(id, 3);
            match connection {
                GamepadConnection::Connected { name, vendor_id, product_id } => {
                    assert_eq!(name, "GCController Pad9 3");
                    assert!(vendor_id.is_none());
                    assert!(product_id.is_none());
                }
                other => panic!("expected a connected connection, got {other:?}"),
            }
        }
        other => panic!("expected a connect event, got {other:?}"),
    }
    let ev = AppleGameController::connection_event("GCController", None, 0);
    match ev {
        AppleGameControllerEvent::Connected { connection, .. } => match connection {
            GamepadConnection::Connected { name, .. } => {
                assert_eq!(name, "GCController Unknown Gamepad 0");
            }
            other => panic!("expected a connected connection, got {other:?}"),
        },
        other => panic!("expected a connect event, got {other:?}"),
    }
}

#[test]
fn gamepad_connection_system_connects_and_disconnects() {
    let mut handler = GamepadPlatformHandler::new();
    let out = AppleGameController::gamepad_connection_system(
        &mut handler,
        vec![
            AppleGameControllerEvent::Connected {
                id: 0,
                connection: GamepadConnection::Connected {
                    name: String::from("Pad1 0"),
                    vendor_id: None,
                    product_id: None,
                },
            },
            AppleGameControllerEvent::Disconnected { id: 0 },
            // A disconnect for an id never seen is dropped silently.
            AppleGameControllerEvent::Disconnected { id: 7 },
        ],
    );
    assert_eq!(out.len(), 2);
    assert!(matches!(
        out[0].connection,
        GamepadConnection::Connected { .. }
    ));
    assert!(matches!(out[1].connection, GamepadConnection::Disconnected));
    assert_eq!(out[0].gamepad, out[1].gamepad);
    assert_eq!(handler.index.get(0), None);
}
