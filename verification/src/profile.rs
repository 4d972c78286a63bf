use vstd::prelude::*;

use crate::input_model::{GamepadAxis, GamepadButton, RawValue};

verus! {

/// Marker for a per-device-family translator from native element identity to
/// canonical change events.
pub trait Profile {}

/// A button change produced by a [`Profile`], mapped to a canonical
/// [`GamepadButton`].
#[derive(Clone, Copy, Debug, PartialEq, Eq, Structural)]
pub struct ButtonChange {
    pub button: GamepadButton,
    pub value: RawValue,
}

impl ButtonChange {
    pub fn new(button: GamepadButton, value: RawValue) -> (r: Self)
        ensures
            r == (ButtonChange { button, value }),
    {
        Self { button, value }
    }

    pub fn button(&self) -> (b: GamepadButton)
        ensures
            b == self.button,
    {
        self.button
    }

    pub fn value(&self) -> (v: RawValue)
        ensures
            v == self.value,
    {
        self.value
    }
}

/// A directional-pad change: all four directions as independent scalars,
/// since some native pads report the dpad as four pressure-sensitive
/// elements.
#[derive(Clone, Copy, Debug, PartialEq, Eq, Structural)]
pub struct DPadChange {
    pub up: RawValue,
    pub down: RawValue,
    pub left: RawValue,
    pub right: RawValue,
}

impl DPadChange {
    pub fn new(up: RawValue, down: RawValue, left: RawValue, right: RawValue) -> (r: Self)
        ensures
            r == (DPadChange { up, down, left, right }),
    {
        Self { up, down, left, right }
    }

    pub fn up(&self) -> (v: RawValue)
        ensures
            v == self.up,
    {
        self.up
    }

    pub fn down(&self) -> (v: RawValue)
        ensures
            v == self.down,
    {
        self.down
    }

    pub fn left(&self) -> (v: RawValue)
        ensures
            v == self.left,
    {
        self.left
    }

    pub fn right(&self) -> (v: RawValue)
        ensures
            v == self.right,
    {
        self.right
    }
}

/// The change event a profile produces for exactly one native element-change
/// notification; never merged or coalesced across notifications.
#[derive(Clone, Copy, Debug, PartialEq, Eq, Structural)]
pub enum Changed {
    Button(ButtonChange),
    DualAxis { x_axis: GamepadAxis, x_value: RawValue, y_axis: GamepadAxis, y_value: RawValue },
    SingleAxis { axis: GamepadAxis, value: RawValue },
    DPad(DPadChange),
}

} // verus!
