use vstd::prelude::*;

verus! {

/// Errors surfaced by the platform driver.
///
/// A platform error reports a malformed native notification payload; it is
/// delivered to the consumer through the event stream and is never fatal.
#[derive(Debug, Clone)]
pub enum GamepadError {
    Platform(String),
}

impl GamepadError {
    /// The human-readable description of the error.
    pub fn message(&self) -> (msg: &String)
        ensures
            self matches GamepadError::Platform(m) && msg@ == m@,
    {
        match self {
            GamepadError::Platform(m) => m,
        }
    }
}

} // verus!
