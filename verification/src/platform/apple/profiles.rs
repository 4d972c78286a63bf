use vstd::prelude::*;

use crate::input_model::{GamepadAxis, GamepadButton, RawValue};
use crate::profile::{ButtonChange, Changed, DPadChange, Profile};

verus! {

/// Which accessor of the native extended-gamepad object yields a
/// button-shaped element. Native elements are exposed only as live handles,
/// so a mapping is "is this the object obtained by calling accessor X on the
/// device"; the slot records the outcome of those identity comparisons.
#[derive(Clone, Copy, Debug, PartialEq, Eq, Structural)]
pub enum ButtonSlot {
    A,
    B,
    X,
    Y,
    Menu,
    Options,
    Home,
    LeftThumbstickButton,
    RightThumbstickButton,
    LeftShoulder,
    RightShoulder,
    LeftTrigger,
    RightTrigger,
    Touchpad,
    /// A button reached by none of the named accessors.
    Unnamed,
}

/// Which accessor yields a direction-pad-shaped element.
#[derive(Clone, Copy, Debug, PartialEq, Eq, Structural)]
pub enum PadSlot {
    LeftThumbstick,
    RightThumbstick,
    Dpad,
    LeftTrigger,
    RightTrigger,
    /// A pad reached by none of the named accessors.
    Unnamed,
}

/// A button-shaped native element as delivered by a change notification.
#[derive(Debug, Clone)]
pub struct ButtonElement {
    pub slot: ButtonSlot,
    /// The element is of the adaptive-trigger subtype.
    pub adaptive: bool,
    pub value: RawValue,
    /// The vendor-reported display name of the element, if any.
    pub localized_name: Option<String>,
}

/// A direction-pad-shaped native element: a combined x/y reading plus the
/// four directions as independent scalars.
#[derive(Debug, Clone)]
pub struct PadElement {
    pub slot: PadSlot,
    /// The element is of the adaptive-trigger subtype.
    pub adaptive: bool,
    pub x: RawValue,
    pub y: RawValue,
    pub up: RawValue,
    pub down: RawValue,
    pub left: RawValue,
    pub right: RawValue,
}

/// One native element-change notification, classified by the element's kind.
#[derive(Debug, Clone)]
pub enum NativeElement {
    Button(ButtonElement),
    DirectionPad(PadElement),
    /// An element of neither kind; always dropped.
    Unrecognized,
}

/// Which optional native elements the connected device populates. Not every
/// physical device of a family populates every optional element; an absent
/// one must be skipped, never dereferenced.
#[derive(Clone, Copy, Debug, PartialEq, Eq, Structural)]
pub struct OptionalElements {
    pub options: bool,
    pub left_thumbstick_button: bool,
    pub right_thumbstick_button: bool,
    pub touchpad_button: bool,
}

/// Profile for the DualSense family. Its touchpad button and its adaptive
/// triggers are always populated; the triggers answer only as the
/// adaptive-trigger subtype.
#[derive(Clone, Copy, Debug)]
pub struct DualSenseProfile {
    pub elements: OptionalElements,
}

impl Profile for DualSenseProfile {}

impl DualSenseProfile {
    /// The DualSense button mapping table.
    pub open spec fn spec_button_changed(self, b: ButtonElement) -> Option<ButtonChange> {
        if b.slot == ButtonSlot::A {
            Some(ButtonChange { button: GamepadButton::South, value: b.value })
        } else if b.slot == ButtonSlot::B {
            Some(ButtonChange { button: GamepadButton::East, value: b.value })
        } else if b.slot == ButtonSlot::X {
            Some(ButtonChange { button: GamepadButton::West, value: b.value })
        } else if b.slot == ButtonSlot::Y {
            Some(ButtonChange { button: GamepadButton::North, value: b.value })
        } else if b.slot == ButtonSlot::Menu {
            Some(ButtonChange { button: GamepadButton::Start, value: b.value })
        } else if self.elements.options && b.slot == ButtonSlot::Options {
            Some(ButtonChange { button: GamepadButton::Select, value: b.value })
        } else if self.elements.left_thumbstick_button && b.slot
            == ButtonSlot::LeftThumbstickButton {
            Some(ButtonChange { button: GamepadButton::LeftThumb, value: b.value })
        } else if self.elements.right_thumbstick_button && b.slot
            == ButtonSlot::RightThumbstickButton {
            Some(ButtonChange { button: GamepadButton::RightThumb, value: b.value })
        } else if b.slot == ButtonSlot::RightShoulder {
            Some(ButtonChange { button: GamepadButton::RightTrigger, value: b.value })
        } else if b.slot == ButtonSlot::LeftShoulder {
            Some(ButtonChange { button: GamepadButton::LeftTrigger, value: b.value })
        } else if b.slot == ButtonSlot::Touchpad {
            Some(ButtonChange { button: GamepadButton::C, value: b.value })
        } else if b.adaptive && b.slot == ButtonSlot::RightTrigger {
            Some(ButtonChange { button: GamepadButton::RightTrigger2, value: b.value })
        } else if b.adaptive && b.slot == ButtonSlot::LeftTrigger {
            Some(ButtonChange { button: GamepadButton::LeftTrigger2, value: b.value })
        } else {
            None
        }
    }

    /// The DualSense direction-pad mapping table. An adaptive trigger that
    /// reports as a pad maps to the trigger axes.
    pub open spec fn spec_axis_changed(self, p: PadElement) -> Option<Changed> {
        if p.slot == PadSlot::LeftThumbstick {
            Some(
                Changed::DualAxis {
                    x_axis: GamepadAxis::LeftStickX,
                    x_value: p.x,
                    y_axis: GamepadAxis::LeftStickY,
                    y_value: p.y,
                },
            )
        } else if p.slot == PadSlot::RightThumbstick {
            Some(
                Changed::DualAxis {
                    x_axis: GamepadAxis::RightStickX,
                    x_value: p.x,
                    y_axis: GamepadAxis::RightStickY,
                    y_value: p.y,
                },
            )
        } else if p.slot == PadSlot::Dpad {
            Some(
                Changed::DPad(
                    DPadChange { up: p.up, down: p.down, left: p.left, right: p.right },
                ),
            )
        } else if p.adaptive && p.slot == PadSlot::RightTrigger {
            Some(Changed::SingleAxis { axis: GamepadAxis::RightZ, value: p.x })
        } else if p.adaptive && p.slot == PadSlot::LeftTrigger {
            Some(Changed::SingleAxis { axis: GamepadAxis::LeftZ, value: p.x })
        } else {
            None
        }
    }

    pub fn button_changed(&self, button: &ButtonElement) -> (r: Option<ButtonChange>)
        ensures
            r == self.spec_button_changed(*button),
    {
        if button.slot == ButtonSlot::A {
            return Some(ButtonChange::new(GamepadButton::South, button.value));
        }
        if button.slot == ButtonSlot::B {
            return Some(ButtonChange::new(GamepadButton::East, button.value));
        }
        if button.slot == ButtonSlot::X {
            return Some(ButtonChange::new(GamepadButton::West, button.value));
        }
        if button.slot == ButtonSlot::Y {
            return Some(ButtonChange::new(GamepadButton::North, button.value));
        }
        if button.slot == ButtonSlot::Menu {
            return Some(ButtonChange::new(GamepadButton::Start, button.value));
        }
        if self.elements.options && button.slot == ButtonSlot::Options {
            return Some(ButtonChange::new(GamepadButton::Select, button.value));
        }
        if self.elements.left_thumbstick_button && button.slot
            == ButtonSlot::LeftThumbstickButton {
            return Some(ButtonChange::new(GamepadButton::LeftThumb, button.value));
        }
        if self.elements.right_thumbstick_button && button.slot
            == ButtonSlot::RightThumbstickButton {
            return Some(ButtonChange::new(GamepadButton::RightThumb, button.value));
        }
        if button.slot == ButtonSlot::RightShoulder {
            return Some(ButtonChange::new(GamepadButton::RightTrigger, button.value));
        }
        if button.slot == ButtonSlot::LeftShoulder {
            return Some(ButtonChange::new(GamepadButton::LeftTrigger, button.value));
        }
        if button.slot == ButtonSlot::Touchpad {
            return Some(ButtonChange::new(GamepadButton::C, button.value));
        }
        if button.adaptive && button.slot == ButtonSlot::RightTrigger {
            return Some(ButtonChange::new(GamepadButton::RightTrigger2, button.value));
        }
        if button.adaptive && button.slot == ButtonSlot::LeftTrigger {
            return Some(ButtonChange::new(GamepadButton::LeftTrigger2, button.value));
        }
        None
    }

    pub fn axis_changed(&self, axis: &PadElement) -> (r: Option<Changed>)
        ensures
            r == self.spec_axis_changed(*axis),
    {
        if axis.slot == PadSlot::LeftThumbstick {
            return Some(
                Changed::DualAxis {
                    x_axis: GamepadAxis::LeftStickX,
                    x_value: axis.x,
                    y_axis: GamepadAxis::LeftStickY,
                    y_value: axis.y,
                },
            );
        }
        if axis.slot == PadSlot::RightThumbstick {
            return Some(
                Changed::DualAxis {
                    x_axis: GamepadAxis::RightStickX,
                    x_value: axis.x,
                    y_axis: GamepadAxis::RightStickY,
                    y_value: axis.y,
                },
            );
        }
        if axis.slot == PadSlot::Dpad {
            return Some(
                Changed::DPad(DPadChange::new(axis.up, axis.down, axis.left, axis.right)),
            );
        }
        if axis.adaptive && axis.slot == PadSlot::RightTrigger {
            return Some(Changed::SingleAxis { axis: GamepadAxis::RightZ, value: axis.x });
        }
        if axis.adaptive && axis.slot == PadSlot::LeftTrigger {
            return Some(Changed::SingleAxis { axis: GamepadAxis::LeftZ, value: axis.x });
        }
        None
    }
}

/// Profile for the DualShock family. Its touchpad button is optional and its
/// triggers are ordinary buttons.
#[derive(Clone, Copy, Debug)]
pub struct DualShockProfile {
    pub elements: OptionalElements,
}

impl Profile for DualShockProfile {}

impl DualShockProfile {
    /// The DualShock button mapping table.
    pub open spec fn spec_button_changed(self, b: ButtonElement) -> Option<ButtonChange> {
        if b.slot == ButtonSlot::A {
            Some(ButtonChange { button: GamepadButton::South, value: b.value })
        } else if b.slot == ButtonSlot::B {
            Some(ButtonChange { button: GamepadButton::East, value: b.value })
        } else if b.slot == ButtonSlot::X {
            Some(ButtonChange { button: GamepadButton::West, value: b.value })
        } else if b.slot == ButtonSlot::Y {
            Some(ButtonChange { button: GamepadButton::North, value: b.value })
        } else if b.slot == ButtonSlot::Menu {
            Some(ButtonChange { button: GamepadButton::Start, value: b.value })
        } else if self.elements.options && b.slot == ButtonSlot::Options {
            Some(ButtonChange { button: GamepadButton::Select, value: b.value })
        } else if self.elements.left_thumbstick_button && b.slot
            == ButtonSlot::LeftThumbstickButton {
            Some(ButtonChange { button: GamepadButton::LeftThumb, value: b.value })
        } else if self.elements.right_thumbstick_button && b.slot
            == ButtonSlot::RightThumbstickButton {
            Some(ButtonChange { button: GamepadButton::RightThumb, value: b.value })
        } else if b.slot == ButtonSlot::RightShoulder {
            Some(ButtonChange { button: GamepadButton::RightTrigger, value: b.value })
        } else if b.slot == ButtonSlot::LeftShoulder {
            Some(ButtonChange { button: GamepadButton::LeftTrigger, value: b.value })
        } else if self.elements.touchpad_button && b.slot == ButtonSlot::Touchpad {
            Some(ButtonChange { button: GamepadButton::C, value: b.value })
        } else if b.slot == ButtonSlot::RightTrigger {
            Some(ButtonChange { button: GamepadButton::RightTrigger2, value: b.value })
        } else if b.slot == ButtonSlot::LeftTrigger {
            Some(ButtonChange { button: GamepadButton::LeftTrigger2, value: b.value })
        } else {
            None
        }
    }

    /// The DualShock direction-pad mapping table.
    pub open spec fn spec_axis_changed(self, p: PadElement) -> Option<Changed> {
        if p.slot == PadSlot::LeftThumbstick {
            Some(
                Changed::DualAxis {
                    x_axis: GamepadAxis::LeftStickX,
                    x_value: p.x,
                    y_axis: GamepadAxis::LeftStickY,
                    y_value: p.y,
                },
            )
        } else if p.slot == PadSlot::RightThumbstick {
            Some(
                Changed::DualAxis {
                    x_axis: GamepadAxis::RightStickX,
                    x_value: p.x,
                    y_axis: GamepadAxis::RightStickY,
                    y_value: p.y,
                },
            )
        } else if p.slot == PadSlot::Dpad {
            Some(
                Changed::DPad(
                    DPadChange { up: p.up, down: p.down, left: p.left, right: p.right },
                ),
            )
        } else {
            None
        }
    }

    pub fn button_changed(&self, button: &ButtonElement) -> (r: Option<ButtonChange>)
        ensures
            r == self.spec_button_changed(*button),
    {
        if button.slot == ButtonSlot::A {
            return Some(ButtonChange::new(GamepadButton::South, button.value));
        }
        if button.slot == ButtonSlot::B {
            return Some(ButtonChange::new(GamepadButton::East, button.value));
        }
        if button.slot == ButtonSlot::X {
            return Some(ButtonChange::new(GamepadButton::West, button.value));
        }
        if button.slot == ButtonSlot::Y {
            return Some(ButtonChange::new(GamepadButton::North, button.value));
        }
        if button.slot == ButtonSlot::Menu {
            return Some(ButtonChange::new(GamepadButton::Start, button.value));
        }
        if self.elements.options && button.slot == ButtonSlot::Options {
            return Some(ButtonChange::new(GamepadButton::Select, button.value));
        }
        if self.elements.left_thumbstick_button && button.slot
            == ButtonSlot::LeftThumbstickButton {
            return Some(ButtonChange::new(GamepadButton::LeftThumb, button.value));
        }
        if self.elements.right_thumbstick_button && button.slot
            == ButtonSlot::RightThumbstickButton {
            return Some(ButtonChange::new(GamepadButton::RightThumb, button.value));
        }
        if button.slot == ButtonSlot::RightShoulder {
            return Some(ButtonChange::new(GamepadButton::RightTrigger, button.value));
        }
        if button.slot == ButtonSlot::LeftShoulder {
            return Some(ButtonChange::new(GamepadButton::LeftTrigger, button.value));
        }
        if self.elements.touchpad_button && button.slot == ButtonSlot::Touchpad {
            return Some(ButtonChange::new(GamepadButton::C, button.value));
        }
        if button.slot == ButtonSlot::RightTrigger {
            return Some(ButtonChange::new(GamepadButton::RightTrigger2, button.value));
        }
        if button.slot == ButtonSlot::LeftTrigger {
            return Some(ButtonChange::new(GamepadButton::LeftTrigger2, button.value));
        }
        None
    }

    pub fn axis_changed(&self, axis: &PadElement) -> (r: Option<Changed>)
        ensures
            r == self.spec_axis_changed(*axis),
    {
        if axis.slot == PadSlot::LeftThumbstick {
            return Some(
                Changed::DualAxis {
                    x_axis: GamepadAxis::LeftStickX,
                    x_value: axis.x,
                    y_axis: GamepadAxis::LeftStickY,
                    y_value: axis.y,
                },
            );
        }
        if axis.slot == PadSlot::RightThumbstick {
            return Some(
                Changed::DualAxis {
                    x_axis: GamepadAxis::RightStickX,
                    x_value: axis.x,
                    y_axis: GamepadAxis::RightStickY,
                    y_value: axis.y,
                },
            );
        }
        if axis.slot == PadSlot::Dpad {
            return Some(
                Changed::DPad(DPadChange::new(axis.up, axis.down, axis.left, axis.right)),
            );
        }
        None
    }
}

/// Profile for the Xbox family: no touchpad; triggers are ordinary buttons.
#[derive(Clone, Copy, Debug)]
pub struct XboxProfile {
    pub elements: OptionalElements,
}

impl Profile for XboxProfile {}

impl XboxProfile {
    /// The Xbox button mapping table.
    pub open spec fn spec_button_changed(self, b: ButtonElement) -> Option<ButtonChange> {
        if b.slot == ButtonSlot::A {
            Some(ButtonChange { button: GamepadButton::South, value: b.value })
        } else if b.slot == ButtonSlot::B {
            Some(ButtonChange { button: GamepadButton::East, value: b.value })
        } else if b.slot == ButtonSlot::X {
            Some(ButtonChange { button: GamepadButton::West, value: b.value })
        } else if b.slot == ButtonSlot::Y {
            Some(ButtonChange { button: GamepadButton::North, value: b.value })
        } else if b.slot == ButtonSlot::Menu {
            Some(ButtonChange { button: GamepadButton::Start, value: b.value })
        } else if self.elements.options && b.slot == ButtonSlot::Options {
            Some(ButtonChange { button: GamepadButton::Select, value: b.value })
        } else if self.elements.left_thumbstick_button && b.slot
            == ButtonSlot::LeftThumbstickButton {
            Some(ButtonChange { button: GamepadButton::LeftThumb, value: b.value })
        } else if self.elements.right_thumbstick_button && b.slot
            == ButtonSlot::RightThumbstickButton {
            Some(ButtonChange { button: GamepadButton::RightThumb, value: b.value })
        } else if b.slot == ButtonSlot::RightShoulder {
            Some(ButtonChange { button: GamepadButton::RightTrigger, value: b.value })
        } else if b.slot == ButtonSlot::LeftShoulder {
            Some(ButtonChange { button: GamepadButton::LeftTrigger, value: b.value })
        } else if b.slot == ButtonSlot::RightTrigger {
            Some(ButtonChange { button: GamepadButton::RightTrigger2, value: b.value })
        } else if b.slot == ButtonSlot::LeftTrigger {
            Some(ButtonChange { button: GamepadButton::LeftTrigger2, value: b.value })
        } else {
            None
        }
    }

    /// The Xbox direction-pad mapping table.
    pub open spec fn spec_axis_changed(self, p: PadElement) -> Option<Changed> {
        if p.slot == PadSlot::LeftThumbstick {
            Some(
                Changed::DualAxis {
                    x_axis: GamepadAxis::LeftStickX,
                    x_value: p.x,
                    y_axis: GamepadAxis::LeftStickY,
                    y_value: p.y,
                },
            )
        } else if p.slot == PadSlot::RightThumbstick {
            Some(
                Changed::DualAxis {
                    x_axis: GamepadAxis::RightStickX,
                    x_value: p.x,
                    y_axis: GamepadAxis::RightStickY,
                    y_value: p.y,
                },
            )
        } else if p.slot == PadSlot::Dpad {
            Some(
                Changed::DPad(
                    DPadChange { up: p.up, down: p.down, left: p.left, right: p.right },
                ),
            )
        } else {
            None
        }
    }

    pub fn button_changed(&self, button: &ButtonElement) -> (r: Option<ButtonChange>)
        ensures
            r == self.spec_button_changed(*button),
    {
        if button.slot == ButtonSlot::A {
            return Some(ButtonChange::new(GamepadButton::South, button.value));
        }
        if button.slot == ButtonSlot::B {
            return Some(ButtonChange::new(GamepadButton::East, button.value));
        }
        if button.slot == ButtonSlot::X {
            return Some(ButtonChange::new(GamepadButton::West, button.value));
        }
        if button.slot == ButtonSlot::Y {
            return Some(ButtonChange::new(GamepadButton::North, button.value));
        }
        if button.slot == ButtonSlot::Menu {
            return Some(ButtonChange::new(GamepadButton::Start, button.value));
        }
        if self.elements.options && button.slot == ButtonSlot::Options {
            return Some(ButtonChange::new(GamepadButton::Select, button.value));
        }
        if self.elements.left_thumbstick_button && button.slot
            == ButtonSlot::LeftThumbstickButton {
            return Some(ButtonChange::new(GamepadButton::LeftThumb, button.value));
        }
        if self.elements.right_thumbstick_button && button.slot
            == ButtonSlot::RightThumbstickButton {
            return Some(ButtonChange::new(GamepadButton::RightThumb, button.value));
        }
        if button.slot == ButtonSlot::RightShoulder {
            return Some(ButtonChange::new(GamepadButton::RightTrigger, button.value));
        }
        if button.slot == ButtonSlot::LeftShoulder {
            return Some(ButtonChange::new(GamepadButton::LeftTrigger, button.value));
        }
        if button.slot == ButtonSlot::RightTrigger {
            return Some(ButtonChange::new(GamepadButton::RightTrigger2, button.value));
        }
        if button.slot == ButtonSlot::LeftTrigger {
            return Some(ButtonChange::new(GamepadButton::LeftTrigger2, button.value));
        }
        None
    }

    pub fn axis_changed(&self, axis: &PadElement) -> (r: Option<Changed>)
        ensures
            r == self.spec_axis_changed(*axis),
    {
        if axis.slot == PadSlot::LeftThumbstick {
            return Some(
                Changed::DualAxis {
                    x_axis: GamepadAxis::LeftStickX,
                    x_value: axis.x,
                    y_axis: GamepadAxis::LeftStickY,
                    y_value: axis.y,
                },
            );
        }
        if axis.slot == PadSlot::RightThumbstick {
            return Some(
                Changed::DualAxis {
                    x_axis: GamepadAxis::RightStickX,
                    x_value: axis.x,
                    y_axis: GamepadAxis::RightStickY,
                    y_value: axis.y,
                },
            );
        }
        if axis.slot == PadSlot::Dpad {
            return Some(
                Changed::DPad(DPadChange::new(axis.up, axis.down, axis.left, axis.right)),
            );
        }
        None
    }
}

/// Fallback profile for an extended gamepad of no recognized family. Its
/// South/East and North/West assignments are swapped relative to the three
/// concrete families, reflecting differing default button-label conventions;
/// the asymmetry is deliberate. An unmapped native button whose vendor name
/// is the share-button label is mapped to the canonical `C` button.
#[derive(Clone, Copy, Debug)]
pub struct GenericProfile {
    pub elements: OptionalElements,
}

impl Profile for GenericProfile {}

impl GenericProfile {
    /// The Generic button mapping table.
    pub open spec fn spec_button_changed(self, b: ButtonElement) -> Option<ButtonChange> {
        if b.slot == ButtonSlot::A {
            Some(ButtonChange { button: GamepadButton::East, value: b.value })
        } else if b.slot == ButtonSlot::B {
            Some(ButtonChange { button: GamepadButton::South, value: b.value })
        } else if b.slot == ButtonSlot::X {
            Some(ButtonChange { button: GamepadButton::North, value: b.value })
        } else if b.slot == ButtonSlot::Y {
            Some(ButtonChange { button: GamepadButton::West, value: b.value })
        } else if b.slot == ButtonSlot::Menu {
            Some(ButtonChange { button: GamepadButton::Start, value: b.value })
        } else if self.elements.options && b.slot == ButtonSlot::Options {
            Some(ButtonChange { button: GamepadButton::Select, value: b.value })
        } else if self.elements.left_thumbstick_button && b.slot
            == ButtonSlot::LeftThumbstickButton {
            Some(ButtonChange { button: GamepadButton::LeftThumb, value: b.value })
        } else if self.elements.right_thumbstick_button && b.slot
            == ButtonSlot::RightThumbstickButton {
            Some(ButtonChange { button: GamepadButton::RightThumb, value: b.value })
        } else if b.slot == ButtonSlot::RightShoulder {
            Some(ButtonChange { button: GamepadButton::RightTrigger, value: b.value })
        } else if b.slot == ButtonSlot::LeftShoulder {
            Some(ButtonChange { button: GamepadButton::LeftTrigger, value: b.value })
        } else if b.slot == ButtonSlot::RightTrigger {
            Some(ButtonChange { button: GamepadButton::RightTrigger2, value: b.value })
        } else if b.slot == ButtonSlot::LeftTrigger {
            Some(ButtonChange { button: GamepadButton::LeftTrigger2, value: b.value })
        } else if b.localized_name matches Some(n) && n@ == "Share Button"@ {
            Some(ButtonChange { button: GamepadButton::C, value: b.value })
        } else {
            None
        }
    }

    /// The Generic direction-pad mapping table.
    pub open spec fn spec_axis_changed(self, p: PadElement) -> Option<Changed> {
        if p.slot == PadSlot::LeftThumbstick {
            Some(
                Changed::DualAxis {
                    x_axis: GamepadAxis::LeftStickX,
                    x_value: p.x,
                    y_axis: GamepadAxis::LeftStickY,
                    y_value: p.y,
                },
            )
        } else if p.slot == PadSlot::RightThumbstick {
            Some(
                Changed::DualAxis {
                    x_axis: GamepadAxis::RightStickX,
                    x_value: p.x,
                    y_axis: GamepadAxis::RightStickY,
                    y_value: p.y,
                },
            )
        } else if p.slot == PadSlot::Dpad {
            Some(
                Changed::DPad(
                    DPadChange { up: p.up, down: p.down, left: p.left, right: p.right },
                ),
            )
        } else {
            None
        }
    }

    pub fn button_changed(&self, button: &ButtonElement) -> (r: Option<ButtonChange>)
        ensures
            r == self.spec_button_changed(*button),
    {
        if button.slot == ButtonSlot::A {
            return Some(ButtonChange::new(GamepadButton::East, button.value));
        }
        if button.slot == ButtonSlot::B {
            return Some(ButtonChange::new(GamepadButton::South, button.value));
        }
        if button.slot == ButtonSlot::X {
            return Some(ButtonChange::new(GamepadButton::North, button.value));
        }
        if button.slot == ButtonSlot::Y {
            return Some(ButtonChange::new(GamepadButton::West, button.value));
        }
        if button.slot == ButtonSlot::Menu {
            return Some(ButtonChange::new(GamepadButton::Start, button.value));
        }
        if self.elements.options && button.slot == ButtonSlot::Options {
            return Some(ButtonChange::new(GamepadButton::Select, button.value));
        }
        if self.elements.left_thumbstick_button && button.slot
            == ButtonSlot::LeftThumbstickButton {
            return Some(ButtonChange::new(GamepadButton::LeftThumb, button.value));
        }
        if self.elements.right_thumbstick_button && button.slot
            == ButtonSlot::RightThumbstickButton {
            return Some(ButtonChange::new(GamepadButton::RightThumb, button.value));
        }
        if button.slot == ButtonSlot::RightShoulder {
            return Some(ButtonChange::new(GamepadButton::RightTrigger, button.value));
        }
        if button.slot == ButtonSlot::LeftShoulder {
            return Some(ButtonChange::new(GamepadButton::LeftTrigger, button.value));
        }
        if button.slot == ButtonSlot::RightTrigger {
            return Some(ButtonChange::new(GamepadButton::RightTrigger2, button.value));
        }
        if button.slot == ButtonSlot::LeftTrigger {
            return Some(ButtonChange::new(GamepadButton::LeftTrigger2, button.value));
        }
        if let Some(name) = &button.localized_name {
            let share = "Share Button".to_owned();
            if *name == share {
                return Some(ButtonChange::new(GamepadButton::C, button.value));
            }
        }
        None
    }

    pub fn axis_changed(&self, axis: &PadElement) -> (r: Option<Changed>)
        ensures
            r == self.spec_axis_changed(*axis),
    {
        if axis.slot == PadSlot::LeftThumbstick {
            return Some(
                Changed::DualAxis {
                    x_axis: GamepadAxis::LeftStickX,
                    x_value: axis.x,
                    y_axis: GamepadAxis::LeftStickY,
                    y_value: axis.y,
                },
            );
        }
        if axis.slot == PadSlot::RightThumbstick {
            return Some(
                Changed::DualAxis {
                    x_axis: GamepadAxis::RightStickX,
                    x_value: axis.x,
                    y_axis: GamepadAxis::RightStickY,
                    y_value: axis.y,
                },
            );
        }
        if axis.slot == PadSlot::Dpad {
            return Some(
                Changed::DPad(DPadChange::new(axis.up, axis.down, axis.left, axis.right)),
            );
        }
        None
    }
}

/// The closed set of resolved profiles, selected once at connect time; each
/// variant carries its own immutable mapping table, invoked through
/// [`ApplePlatformProfile::element_changed`].
#[derive(Clone, Copy, Debug)]
pub enum ApplePlatformProfile {
    DualSense(DualSenseProfile),
    DualShock(DualShockProfile),
    Xbox(XboxProfile),
    Generic(GenericProfile),
}

impl Profile for ApplePlatformProfile {}

impl ApplePlatformProfile {
    /// The family's button table.
    pub open spec fn spec_button_changed(self, b: ButtonElement) -> Option<ButtonChange> {
        match self {
            ApplePlatformProfile::DualSense(p) => p.spec_button_changed(b),
            ApplePlatformProfile::DualShock(p) => p.spec_button_changed(b),
            ApplePlatformProfile::Xbox(p) => p.spec_button_changed(b),
            ApplePlatformProfile::Generic(p) => p.spec_button_changed(b),
        }
    }

    /// The family's direction-pad table.
    pub open spec fn spec_axis_changed(self, p: PadElement) -> Option<Changed> {
        match self {
            ApplePlatformProfile::DualSense(q) => q.spec_axis_changed(p),
            ApplePlatformProfile::DualShock(q) => q.spec_axis_changed(p),
            ApplePlatformProfile::Xbox(q) => q.spec_axis_changed(p),
            ApplePlatformProfile::Generic(q) => q.spec_axis_changed(p),
        }
    }

    /// What one element-change notification yields: a button-shaped element
    /// goes through the button table, a direction-pad-shaped one through the
    /// pad table, anything else is dropped.
    pub open spec fn spec_element_changed(self, e: NativeElement) -> Option<Changed> {
        match e {
            NativeElement::Button(b) => match self.spec_button_changed(b) {
                Some(c) => Some(Changed::Button(c)),
                None => None,
            },
            NativeElement::DirectionPad(p) => self.spec_axis_changed(p),
            NativeElement::Unrecognized => None,
        }
    }

    pub fn button_changed(&self, button: &ButtonElement) -> (r: Option<ButtonChange>)
        ensures
            r == self.spec_button_changed(*button),
    {
        match self {
            ApplePlatformProfile::DualSense(p) => p.button_changed(button),
            ApplePlatformProfile::DualShock(p) => p.button_changed(button),
            ApplePlatformProfile::Xbox(p) => p.button_changed(button),
            ApplePlatformProfile::Generic(p) => p.button_changed(button),
        }
    }

    pub fn axis_changed(&self, axis: &PadElement) -> (r: Option<Changed>)
        ensures
            r == self.spec_axis_changed(*axis),
    {
        match self {
            ApplePlatformProfile::DualSense(p) => p.axis_changed(axis),
            ApplePlatformProfile::DualShock(p) => p.axis_changed(axis),
            ApplePlatformProfile::Xbox(p) => p.axis_changed(axis),
            ApplePlatformProfile::Generic(p) => p.axis_changed(axis),
        }
    }

    /// Called for each native element-change notification.
    pub fn element_changed(&self, event: &NativeElement) -> (r: Option<Changed>)
        ensures
            r == self.spec_element_changed(*event),
    {
        match event {
            NativeElement::Button(b) => match self.button_changed(b) {
                Some(c) => Some(Changed::Button(c)),
                None => None,
            },
            NativeElement::DirectionPad(p) => self.axis_changed(p),
            NativeElement::Unrecognized => None,
        }
    }
}

} // verus!
