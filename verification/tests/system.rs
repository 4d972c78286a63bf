use apple_gamepad::GamepadPlatformHandler;
use apple_gamepad::input_model::{GamepadButton, GamepadConnection, RawGamepadEvent};
use apple_gamepad::platform::apple::profiles::{
    ButtonElement, ButtonSlot, NativeElement, OptionalElements,
};
use apple_gamepad::platform::apple::{
    AppleGameControllerPlatform, ConnectPayload, ControllerDesc, DeviceFamily, DisconnectPayload,
};

fn dual_shock(vendor: &str) -> ConnectPayload {
    ConnectPayload::Controller(ControllerDesc {
        family: DeviceFamily::DualShock,
        has_extended_gamepad: true,
        vendor_name: Some(String::from(vendor)),
        elements: OptionalElements {
            options: true,
            left_thumbstick_button: true,
            right_thumbstick_button: true,
            touchpad_button: true,
        },
    })
}

/// The whole pipeline over the real channel: native notifications go in on
/// the driver side, the consumer drains once per tick on the other.
#[test]
fn end_to_end_connect_press_disconnect_reconnect() {
    let (tx, rx) = crossbeam::channel::unbounded();
    let mut driver = AppleGameControllerPlatform::new();
    let mut handler = GamepadPlatformHandler::new();

    // Connect device A (family DualShock, vendor name "Pad1").
    driver.connect_notification(&dual_shock("Pad1"), &tx);
    let out = handler.platform_system(&rx);
    assert_eq!(out.len(), 1);
    let handle_a = match &out[0] {
        RawGamepadEvent::Connection(ev) => {
            match &ev.connection {
                GamepadConnection::Connected { name, .. } => assert_eq!(name, "Pad1 0"),
                other => panic!("expected a connected connection, got {other:?}"),
            }
            ev.gamepad
        }
        other => panic!("expected a connection event, got {other:?}"),
    };

    // Press the South button to 1.0: one button change, value unmodified.
    let press = NativeElement::Button(ButtonElement {
        slot: ButtonSlot::A,
        adaptive: false,
        value: 1.0f32.to_bits(),
        localized_name: None,
    });
    driver.element_change_notification(0, &press, &tx);
    let out = handler.platform_system(&rx);
    assert_eq!(out.len(), 1);
    match &out[0] {
        RawGamepadEvent::Button(ev) => {
            assert_eq!(ev.gamepad, handle_a);
            assert_eq!(ev.button, GamepadButton::South);
            assert_eq!(f32::from_bits(ev.value), 1.0);
        }
        other => panic!("expected a button event, got {other:?}"),
    }

    // Disconnect device A.
    driver.disconnect_notification(&DisconnectPayload::Controller { index: 0 }, &tx);
    let out = handler.platform_system(&rx);
    assert_eq!(out.len(), 1);
    match &out[0] {
        RawGamepadEvent::Connection(ev) => {
            assert_eq!(ev.gamepad, handle_a);
            assert!(matches!(ev.connection, GamepadConnection::Disconnected));
        }
        other => panic!("expected a connection event, got {other:?}"),
    }

    // Connect device B: the freed id 0 is reused on the platform side.
    driver.connect_notification(&dual_shock("Pad2"), &tx);
    let out = handler.platform_system(&rx);
    assert_eq!(out.len(), 1);
    match &out[0] {
        RawGamepadEvent::Connection(ev) => {
            match &ev.connection {
                GamepadConnection::Connected { name, .. } => assert_eq!(name, "Pad2 0"),
                other => panic!("expected a connected connection, got {other:?}"),
            }
            // The consumer-side handle is fresh, never reused.
            assert_ne!(ev.gamepad, handle_a);
        }
        other => panic!("expected a connection event, got {other:?}"),
    }
}

#[test]
fn malformed_connect_sends_one_error_over_the_channel() {
    let (tx, rx) = crossbeam::channel::unbounded();
    let mut driver = AppleGameControllerPlatform::new();
    let mut handler = GamepadPlatformHandler::new();

    let mut desc = match dual_shock("Broken") {
        ConnectPayload::Controller(d) => d,
        _ => unreachable!(),
    };
    desc.has_extended_gamepad = false;
    driver.connect_notification(&ConnectPayload::Controller(desc), &tx);

    // The error event reaches the bridge and produces no consumer event.
    let out = handler.platform_system(&rx);
    assert!(out.is_empty());
    // And nothing else is queued.
    assert!(rx.try_recv().is_err());
}

#[test]
fn change_for_a_disconnected_id_is_a_no_op() {
    let (tx, rx) = crossbeam::channel::unbounded();
    let mut driver = AppleGameControllerPlatform::new();
    let mut handler = GamepadPlatformHandler::new();

    driver.connect_notification(&dual_shock("Pad1"), &tx);
    driver.disconnect_notification(&DisconnectPayload::Controller { index: 0 }, &tx);
    // The device is gone: a late change notification maps to nothing and
    // nothing is enqueued.
    let press = NativeElement::Button(ButtonElement {
        slot: ButtonSlot::A,
        adaptive: false,
        value: 1.0f32.to_bits(),
        localized_name: None,
    });
    driver.element_change_notification(0, &press, &tx);

    let out = handler.platform_system(&rx);
    // Only the connect and disconnect made it through.
    assert_eq!(out.len(), 2);
}

#[test]
fn send_after_receiver_is_gone_does_not_panic() {
    let (tx, rx) = crossbeam::channel::unbounded();
    drop(rx);
    let mut driver = AppleGameControllerPlatform::new();
    // The channel send fails; the notification is abandoned, nothing panics,
    // and the driver state still advances.
    driver.connect_notification(&dual_shock("Pad1"), &tx);
    let again = driver.process_connect(&dual_shock("Pad2"));
    match &again[0] {
        apple_gamepad::platform::GamepadPlatformEvent::Connected { id, .. } => assert_eq!(*id, 1),
        other => panic!("expected a connect event, got {other:?}"),
    }
}
