use apple_gamepad::input_model::{GamepadAxis, GamepadButton};
use apple_gamepad::platform::apple::profiles::{
    ApplePlatformProfile, ButtonElement, ButtonSlot, DualSenseProfile, DualShockProfile,
    GenericProfile, NativeElement, OptionalElements, PadElement, PadSlot, XboxProfile,
};
use apple_gamepad::profile::{ButtonChange, Changed};

fn all_elements() -> OptionalElements {
    OptionalElements {
        options: true,
        left_thumbstick_button: true,
        right_thumbstick_button: true,
        touchpad_button: true,
    }
}

fn no_optional_elements() -> OptionalElements {
    OptionalElements {
        options: false,
        left_thumbstick_button: false,
        right_thumbstick_button: false,
        touchpad_button: false,
    }
}

fn button(slot: ButtonSlot, value: u32) -> ButtonElement {
    ButtonElement { slot, adaptive: false, value, localized_name: None }
}

fn adaptive_button(slot: ButtonSlot, value: u32) -> ButtonElement {
    ButtonElement { slot, adaptive: true, value, localized_name: None }
}

fn pad(slot: PadSlot) -> PadElement {
    PadElement {
        slot,
        adaptive: false,
        x: 1,
        y: 2,
        up: 3,
        down: 4,
        left: 5,
        right: 6,
    }
}

fn expect_button(
    result: Option<ButtonChange>,
    expected_button: GamepadButton,
    expected_value: u32,
) {
    let change = result.expect("the element should map to a canonical button");
    assert_eq!(change.button(), expected_button);
    assert_eq!(change.value(), expected_value);
}

#[test]
fn dual_sense_button_table() {
    let profile = DualSenseProfile { elements: all_elements() };
    let v = 7;
    expect_button(profile.button_changed(&button(ButtonSlot::A, v)), GamepadButton::South, v);
    expect_button(profile.button_changed(&button(ButtonSlot::B, v)), GamepadButton::East, v);
    expect_button(profile.button_changed(&button(ButtonSlot::X, v)), GamepadButton::West, v);
    expect_button(profile.button_changed(&button(ButtonSlot::Y, v)), GamepadButton::North, v);
    expect_button(profile.button_changed(&button(ButtonSlot::Menu, v)), GamepadButton::Start, v);
    expect_button(
        profile.button_changed(&button(ButtonSlot::Options, v)),
        GamepadButton::Select,
        v,
    );
    expect_button(
        profile.button_changed(&button(ButtonSlot::LeftThumbstickButton, v)),
        GamepadButton::LeftThumb,
        v,
    );
    expect_button(
        profile.button_changed(&button(ButtonSlot::RightThumbstickButton, v)),
        GamepadButton::RightThumb,
        v,
    );
    expect_button(
        profile.button_changed(&button(ButtonSlot::RightShoulder, v)),
        GamepadButton::RightTrigger,
        v,
    );
    expect_button(
        profile.button_changed(&button(ButtonSlot::LeftShoulder, v)),
        GamepadButton::LeftTrigger,
        v,
    );
    expect_button(profile.button_changed(&button(ButtonSlot::Touchpad, v)), GamepadButton::C, v);
    expect_button(
        profile.button_changed(&adaptive_button(ButtonSlot::RightTrigger, v)),
        GamepadButton::RightTrigger2,
        v,
    );
    expect_button(
        profile.button_changed(&adaptive_button(ButtonSlot::LeftTrigger, v)),
        GamepadButton::LeftTrigger2,
        v,
    );
    assert!(profile.button_changed(&button(ButtonSlot::Unnamed, v)).is_none());
}

#[test]
fn dual_sense_trigger_requires_adaptive_subtype() {
    let profile = DualSenseProfile { elements: all_elements() };
    // A trigger element that does not answer as the adaptive subtype is not
    // matched by the DualSense table.
    assert!(profile.button_changed(&button(ButtonSlot::RightTrigger, 9)).is_none());
    assert!(profile.button_changed(&button(ButtonSlot::LeftTrigger, 9)).is_none());
}

#[test]
fn dual_sense_absent_optional_elements_are_skipped() {
    let profile = DualSenseProfile { elements: no_optional_elements() };
    assert!(profile.button_changed(&button(ButtonSlot::Options, 3)).is_none());
    assert!(profile.button_changed(&button(ButtonSlot::LeftThumbstickButton, 3)).is_none());
    assert!(profile.button_changed(&button(ButtonSlot::RightThumbstickButton, 3)).is_none());
}

#[test]
fn dual_sense_axis_table() {
    let profile = DualSenseProfile { elements: all_elements() };
    match profile.axis_changed(&pad(PadSlot::LeftThumbstick)) {
        Some(Changed::DualAxis { x_axis, x_value, y_axis, y_value }) => {
            assert_eq!(x_axis, GamepadAxis::LeftStickX);
            assert_eq!(x_value, 1);
            assert_eq!(y_axis, GamepadAxis::LeftStickY);
            assert_eq!(y_value, 2);
        }
        other => panic!("left thumbstick should map to a dual-axis change, got {other:?}"),
    }
    match profile.axis_changed(&pad(PadSlot::RightThumbstick)) {
        Some(Changed::DualAxis { x_axis, y_axis, .. }) => {
            assert_eq!(x_axis, GamepadAxis::RightStickX);
            assert_eq!(y_axis, GamepadAxis::RightStickY);
        }
        other => panic!("right thumbstick should map to a dual-axis change, got {other:?}"),
    }
    match profile.axis_changed(&pad(PadSlot::Dpad)) {
        Some(Changed::DPad(d)) => {
            assert_eq!(d.up(), 3);
            assert_eq!(d.down(), 4);
            assert_eq!(d.left(), 5);
            assert_eq!(d.right(), 6);
        }
        other => panic!("the dpad should map to a dpad change, got {other:?}"),
    }
    let mut trigger = pad(PadSlot::RightTrigger);
    trigger.adaptive = true;
    match profile.axis_changed(&trigger) {
        Some(Changed::SingleAxis { axis, value }) => {
            assert_eq!(axis, GamepadAxis::RightZ);
            assert_eq!(value, 1);
        }
        other => panic!("the adaptive trigger should map to a single axis, got {other:?}"),
    }
    assert!(profile.axis_changed(&pad(PadSlot::RightTrigger)).is_none());
    assert!(profile.axis_changed(&pad(PadSlot::Unnamed)).is_none());
}

#[test]
fn dual_shock_button_table() {
    let profile = DualShockProfile { elements: all_elements() };
    let v = 11;
    expect_button(profile.button_changed(&button(ButtonSlot::A, v)), GamepadButton::South, v);
    expect_button(profile.button_changed(&button(ButtonSlot::B, v)), GamepadButton::East, v);
    expect_button(profile.button_changed(&button(ButtonSlot::X, v)), GamepadButton::West, v);
    expect_button(profile.button_changed(&button(ButtonSlot::Y, v)), GamepadButton::North, v);
    expect_button(profile.button_changed(&button(ButtonSlot::Touchpad, v)), GamepadButton::C, v);
    // DualShock triggers are ordinary buttons: no adaptive subtype needed.
    expect_button(
        profile.button_changed(&button(ButtonSlot::RightTrigger, v)),
        GamepadButton::RightTrigger2,
        v,
    );
    expect_button(
        profile.button_changed(&button(ButtonSlot::LeftTrigger, v)),
        GamepadButton::LeftTrigger2,
        v,
    );
    assert!(profile.button_changed(&button(ButtonSlot::Unnamed, v)).is_none());
}

#[test]
fn dual_shock_optional_touchpad_is_skipped_when_absent() {
    let profile = DualShockProfile { elements: no_optional_elements() };
    assert!(profile.button_changed(&button(ButtonSlot::Touchpad, 2)).is_none());
}

#[test]
fn xbox_button_table() {
    let profile = XboxProfile { elements: all_elements() };
    let v = 13;
    expect_button(profile.button_changed(&button(ButtonSlot::A, v)), GamepadButton::South, v);
    expect_button(profile.button_changed(&button(ButtonSlot::B, v)), GamepadButton::East, v);
    expect_button(profile.button_changed(&button(ButtonSlot::X, v)), GamepadButton::West, v);
    expect_button(profile.button_changed(&button(ButtonSlot::Y, v)), GamepadButton::North, v);
    expect_button(
        profile.button_changed(&button(ButtonSlot::RightTrigger, v)),
        GamepadButton::RightTrigger2,
        v,
    );
    // The Xbox table has no touchpad entry.
    assert!(profile.button_changed(&button(ButtonSlot::Touchpad, v)).is_none());
    assert!(profile.button_changed(&button(ButtonSlot::Unnamed, v)).is_none());
}

#[test]
fn generic_button_table_swaps_south_east_and_north_west() {
    let profile = GenericProfile { elements: all_elements() };
    let v = 17;
    expect_button(profile.button_changed(&button(ButtonSlot::A, v)), GamepadButton::East, v);
    expect_button(profile.button_changed(&button(ButtonSlot::B, v)), GamepadButton::South, v);
    expect_button(profile.button_changed(&button(ButtonSlot::X, v)), GamepadButton::North, v);
    expect_button(profile.button_changed(&button(ButtonSlot::Y, v)), GamepadButton::West, v);
}

#[test]
fn generic_share_button_maps_to_c_by_localized_name() {
    let profile = GenericProfile { elements: all_elements() };
    let share = ButtonElement {
        slot: ButtonSlot::Unnamed,
        adaptive: false,
        value: 19,
        localized_name: Some(String::from("Share Button")),
    };
    expect_button(profile.button_changed(&share), GamepadButton::C, 19);
    let other = ButtonElement {
        slot: ButtonSlot::Unnamed,
        adaptive: false,
        value: 19,
        localized_name: Some(String::from("Mystery Button")),
    };
    assert!(profile.button_changed(&other).is_none());
}

fn expect_dual_axis(
    result: Option<Changed>,
    x_axis: GamepadAxis,
    y_axis: GamepadAxis,
) {
    match result {
        Some(Changed::DualAxis { x_axis: got_x, x_value, y_axis: got_y, y_value }) => {
            assert_eq!(got_x, x_axis);
            assert_eq!(x_value, 1);
            assert_eq!(got_y, y_axis);
            assert_eq!(y_value, 2);
        }
        other => panic!("expected a dual-axis change, got {other:?}"),
    }
}

fn expect_dpad(result: Option<Changed>) {
    match result {
        Some(Changed::DPad(d)) => {
            assert_eq!(d.up(), 3);
            assert_eq!(d.down(), 4);
            assert_eq!(d.left(), 5);
            assert_eq!(d.right(), 6);
        }
        other => panic!("expected a dpad change, got {other:?}"),
    }
}

#[test]
fn dual_shock_axis_table() {
    let profile = DualShockProfile { elements: all_elements() };
    expect_dual_axis(
        profile.axis_changed(&pad(PadSlot::LeftThumbstick)),
        GamepadAxis::LeftStickX,
        GamepadAxis::LeftStickY,
    );
    expect_dual_axis(
        profile.axis_changed(&pad(PadSlot::RightThumbstick)),
        GamepadAxis::RightStickX,
        GamepadAxis::RightStickY,
    );
    expect_dpad(profile.axis_changed(&pad(PadSlot::Dpad)));
    // No trigger entries in this table, adaptive or not.
    let mut trigger = pad(PadSlot::RightTrigger);
    trigger.adaptive = true;
    assert!(profile.axis_changed(&trigger).is_none());
    assert!(profile.axis_changed(&pad(PadSlot::Unnamed)).is_none());
}

#[test]
fn xbox_axis_table() {
    let profile = XboxProfile { elements: all_elements() };
    expect_dual_axis(
        profile.axis_changed(&pad(PadSlot::LeftThumbstick)),
        GamepadAxis::LeftStickX,
        GamepadAxis::LeftStickY,
    );
    expect_dual_axis(
        profile.axis_changed(&pad(PadSlot::RightThumbstick)),
        GamepadAxis::RightStickX,
        GamepadAxis::RightStickY,
    );
    expect_dpad(profile.axis_changed(&pad(PadSlot::Dpad)));
    assert!(profile.axis_changed(&pad(PadSlot::Unnamed)).is_none());
}

#[test]
fn generic_axis_table() {
    let profile = GenericProfile { elements: all_elements() };
    expect_dual_axis(
        profile.axis_changed(&pad(PadSlot::LeftThumbstick)),
        GamepadAxis::LeftStickX,
        GamepadAxis::LeftStickY,
    );
    expect_dual_axis(
        profile.axis_changed(&pad(PadSlot::RightThumbstick)),
        GamepadAxis::RightStickX,
        GamepadAxis::RightStickY,
    );
    expect_dpad(profile.axis_changed(&pad(PadSlot::Dpad)));
    assert!(profile.axis_changed(&pad(PadSlot::Unnamed)).is_none());
}

#[test]
fn xbox_and_generic_shared_button_entries() {
    let v = 29;
    for profile_buttons in [
        |b: &ButtonElement| XboxProfile { elements: all_elements() }.button_changed(b),
        |b: &ButtonElement| GenericProfile { elements: all_elements() }.button_changed(b),
    ] {
        expect_button(profile_buttons(&button(ButtonSlot::Menu, v)), GamepadButton::Start, v);
        expect_button(profile_buttons(&button(ButtonSlot::Options, v)), GamepadButton::Select, v);
        expect_button(
            profile_buttons(&button(ButtonSlot::LeftThumbstickButton, v)),
            GamepadButton::LeftThumb,
            v,
        );
        expect_button(
            profile_buttons(&button(ButtonSlot::RightThumbstickButton, v)),
            GamepadButton::RightThumb,
            v,
        );
        expect_button(
            profile_buttons(&button(ButtonSlot::RightShoulder, v)),
            GamepadButton::RightTrigger,
            v,
        );
        expect_button(
            profile_buttons(&button(ButtonSlot::LeftShoulder, v)),
            GamepadButton::LeftTrigger,
            v,
        );
        expect_button(
            profile_buttons(&button(ButtonSlot::LeftTrigger, v)),
            GamepadButton::LeftTrigger2,
            v,
        );
    }
}

#[test]
fn dual_shock_shared_button_entries() {
    let profile = DualShockProfile { elements: all_elements() };
    let v = 31;
    expect_button(profile.button_changed(&button(ButtonSlot::Menu, v)), GamepadButton::Start, v);
    expect_button(
        profile.button_changed(&button(ButtonSlot::Options, v)),
        GamepadButton::Select,
        v,
    );
    expect_button(
        profile.button_changed(&button(ButtonSlot::LeftThumbstickButton, v)),
        GamepadButton::LeftThumb,
        v,
    );
    expect_button(
        profile.button_changed(&button(ButtonSlot::RightThumbstickButton, v)),
        GamepadButton::RightThumb,
        v,
    );
    expect_button(
        profile.button_changed(&button(ButtonSlot::RightShoulder, v)),
        GamepadButton::RightTrigger,
        v,
    );
    expect_button(
        profile.button_changed(&button(ButtonSlot::LeftShoulder, v)),
        GamepadButton::LeftTrigger,
        v,
    );
}

#[test]
fn element_changed_dispatches_on_element_kind() {
    let profile = ApplePlatformProfile::Xbox(XboxProfile { elements: all_elements() });
    let b = NativeElement::Button(button(ButtonSlot::A, 23));
    match profile.element_changed(&b) {
        Some(Changed::Button(change)) => {
            assert_eq!(change.button(), GamepadButton::South);
            assert_eq!(change.value(), 23);
        }
        other => panic!("a button element should map through the button table, got {other:?}"),
    }
    let d = NativeElement::DirectionPad(pad(PadSlot::Dpad));
    assert!(matches!(profile.element_changed(&d), Some(Changed::DPad(_))));
    assert!(profile.element_changed(&NativeElement::Unrecognized).is_none());
}
