use vstd::prelude::*;

verus! {

/// The raw scalar reported by a native element, carried as the bit pattern of
/// the native single-precision value in `[0.0, 1.0]` (or `[-1.0, 1.0]` for a
/// stick axis). The library never interprets the number; it moves the bits
/// through unchanged, and the consumer decodes them at the boundary.
pub type RawValue = u32;

/// The canonical, vendor-neutral button model every profile maps into.
#[derive(Clone, Copy, Debug, PartialEq, Eq, Structural)]
pub enum GamepadButton {
    South,
    East,
    North,
    West,
    C,
    Z,
    LeftTrigger,
    LeftTrigger2,
    RightTrigger,
    RightTrigger2,
    Select,
    Start,
    Mode,
    LeftThumb,
    RightThumb,
    DPadUp,
    DPadDown,
    DPadLeft,
    DPadRight,
    /// Escape hatch for a native element outside the canonical model.
    Other(u8),
}

/// The canonical, vendor-neutral axis model.
#[derive(Clone, Copy, Debug, PartialEq, Eq, Structural)]
pub enum GamepadAxis {
    LeftStickX,
    LeftStickY,
    LeftZ,
    RightStickX,
    RightStickY,
    RightZ,
    /// Escape hatch for a native axis outside the canonical model.
    Other(u8),
}

/// One canonical input, either a button or an axis.
#[derive(Clone, Copy, Debug, PartialEq, Eq, Structural)]
pub enum GamepadInput {
    Axis(GamepadAxis),
    Button(GamepadButton),
}

/// The connection half of the consumer-facing event stream.
#[derive(Debug, Clone)]
pub enum GamepadConnection {
    Connected {
        /// Vendor-reported device name combined with the assigned player index.
        name: String,
        vendor_id: Option<u16>,
        product_id: Option<u16>,
    },
    Disconnected,
}

/// A consumer-side connection notification. `gamepad` is the consumer's own
/// stable handle, created fresh per connect, so the consumer never observes
/// player-index reuse directly.
#[derive(Debug, Clone)]
pub struct GamepadConnectionEvent {
    pub gamepad: u64,
    pub connection: GamepadConnection,
}

/// A discrete button-change notification on the consumer's raw stream.
#[derive(Clone, Copy, Debug, PartialEq, Eq, Structural)]
pub struct RawGamepadButtonChangedEvent {
    pub gamepad: u64,
    pub button: GamepadButton,
    pub value: RawValue,
}

/// A discrete axis-change notification on the consumer's raw stream.
#[derive(Clone, Copy, Debug, PartialEq, Eq, Structural)]
pub struct RawGamepadAxisChangedEvent {
    pub gamepad: u64,
    pub axis: GamepadAxis,
    pub value: RawValue,
}

/// The consumer-facing event stream: connections, button changes and axis
/// changes, delivered in the order the bridge produced them.
#[derive(Debug, Clone)]
pub enum RawGamepadEvent {
    Connection(GamepadConnectionEvent),
    Button(RawGamepadButtonChangedEvent),
    Axis(RawGamepadAxisChangedEvent),
}

} // verus!
