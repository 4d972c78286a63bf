use vstd::prelude::*;

use crate::GamepadId;
use crate::error::GamepadError;
use crate::input_model::GamepadConnection;
use crate::profile::Changed;

pub mod apple;

verus! {

/// The platform driver's outward contract, published through the channel.
///
/// Ordering invariant: for a given id, `Connected` is delivered before any
/// `InputChanged` for that id, and no further `InputChanged` follows its
/// `Disconnected`.
#[derive(Debug, Clone)]
pub enum GamepadPlatformEvent {
    Error(GamepadError),
    Connected { id: GamepadId, connection: GamepadConnection },
    Disconnected { id: GamepadId },
    InputChanged { id: GamepadId, change: Changed },
}

} // verus!
