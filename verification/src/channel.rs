use vstd::prelude::*;

use crate::platform::GamepadPlatformEvent;

verus! {

#[verifier::external_type_specification]
#[verifier::external_body]
#[verifier::reject_recursive_types(T)]
pub struct ExSender<T>(crossbeam::channel::Sender<T>);

#[verifier::external_type_specification]
#[verifier::external_body]
#[verifier::reject_recursive_types(T)]
pub struct ExReceiver<T>(crossbeam::channel::Receiver<T>);

/// Relies on crossbeam's `Sender::send`: on a channel of unbounded capacity
/// it never blocks, and it fails only when every receiver is gone. Whether
/// the event was accepted depends on the receiving side, so nothing more
/// can be promised of the result.
#[verifier::external_body]
pub(crate) fn send_event(
    tx: &crossbeam::channel::Sender<GamepadPlatformEvent>,
    event: GamepadPlatformEvent,
) -> (sent: bool) {
    tx.send(event).is_ok()
}

/// Relies on crossbeam's `Receiver::try_recv`: it returns at once, with a
/// queued event or with nothing. What comes back depends on what other
/// threads have sent, so nothing more can be promised of the result.
#[verifier::external_body]
pub(crate) fn try_recv_event(
    rx: &crossbeam::channel::Receiver<GamepadPlatformEvent>,
) -> (event: Option<GamepadPlatformEvent>) {
    rx.try_recv().ok()
}

} // verus!
