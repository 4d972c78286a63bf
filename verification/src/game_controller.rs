use vstd::prelude::*;

use crate::GamepadId;
use crate::GamepadIndex;
use crate::GamepadPlatformHandler;
use crate::input_model::{
    GamepadAxis, GamepadButton, GamepadConnection, GamepadConnectionEvent, GamepadInput,
    RawGamepadAxisChangedEvent, RawGamepadButtonChangedEvent, RawGamepadEvent, RawValue,
};
use crate::platform::apple::{connected_name, spec_dec_digits};
use crate::spec_lookup;
use crate::spec_without;
use vstd::string::StringExecFns;

verus! {

/// A connection notification on the polling backend's own channel.
#[derive(Debug, Clone)]
pub enum AppleGameControllerEvent {
    Connected { id: GamepadId, connection: GamepadConnection },
    Disconnected { id: GamepadId },
}

/// The name a polling-backend connect event reports: the native class name,
/// the vendor label and the assigned index, space-separated.
pub open spec fn spec_setup_name(class_name: Seq<char>, vendor: Seq<char>, index: nat) -> Seq<
    char,
> {
    class_name + seq![' '] + vendor + seq![' '] + spec_dec_digits(index)
}

/// The vendor label this backend falls back to when the vendor reports no
/// name.
pub open spec fn spec_setup_vendor_label(vendor_name: Option<String>) -> Seq<char> {
    match vendor_name {
        Some(v) => v@,
        None => "Unknown Gamepad"@,
    }
}

/// A snapshot of the scalar every element of an extended gamepad reports.
/// Optional elements carry nothing when the device does not populate them.
#[derive(Clone, Copy, Debug, PartialEq, Eq, Structural)]
pub struct PadState {
    pub button_a: RawValue,
    pub button_b: RawValue,
    pub button_x: RawValue,
    pub button_y: RawValue,
    pub button_menu: RawValue,
    pub button_options: Option<RawValue>,
    pub button_home: Option<RawValue>,
    pub left_thumbstick_button: Option<RawValue>,
    pub right_thumbstick_button: Option<RawValue>,
    pub left_shoulder: RawValue,
    pub right_shoulder: RawValue,
    pub left_trigger: RawValue,
    pub right_trigger: RawValue,
    pub dpad_up: RawValue,
    pub dpad_down: RawValue,
    pub dpad_left: RawValue,
    pub dpad_right: RawValue,
    pub left_stick_x: RawValue,
    pub left_stick_y: RawValue,
    pub right_stick_x: RawValue,
    pub right_stick_y: RawValue,
}

/// One controller as one polling pass sees it.
#[derive(Debug)]
pub struct PolledController {
    /// The player index the device holds.
    pub index: GamepadId,
    /// Whether the device reported a fresh input state since the last poll.
    pub has_new_input: bool,
    /// Whether the device exposes the extended-input capability.
    pub has_extended_gamepad: bool,
    /// Whether the consumer has spawned its device component yet. Events may
    /// arrive before it exists; such a device is skipped silently.
    pub has_component: bool,
    /// The current native element values.
    pub pad: PadState,
    /// The consumer's last known value for each analog input it tracks.
    pub known: Vec<(GamepadInput, RawValue)>,
}

/// Whether the polling backend can read a current value for this button: the
/// thumbstick-click buttons are read by unwrapping the optional element, and
/// a button outside the canonical model has no reading at all.
pub open spec fn button_value_defined(pad: PadState, button: GamepadButton) -> bool {
    match button {
        GamepadButton::LeftThumb => pad.left_thumbstick_button is Some,
        GamepadButton::RightThumb => pad.right_thumbstick_button is Some,
        GamepadButton::Other(_) => false,
        _ => true,
    }
}

/// Whether the polling backend can read a current value for this axis.
pub open spec fn axis_value_defined(axis: GamepadAxis) -> bool {
    !(axis matches GamepadAxis::Other(_))
}

/// The current reading for a canonical button. The zero bit pattern is the
/// zero scalar, reported for the buttons this backend never wires up and
/// for absent optional elements.
pub open spec fn spec_button_value(pad: PadState, button: GamepadButton) -> RawValue {
    match button {
        GamepadButton::South => pad.button_b,
        GamepadButton::East => pad.button_a,
        GamepadButton::North => pad.button_x,
        GamepadButton::West => pad.button_y,
        GamepadButton::C => 0,
        GamepadButton::Z => 0,
        GamepadButton::LeftTrigger => pad.left_trigger,
        GamepadButton::LeftTrigger2 => pad.left_shoulder,
        GamepadButton::RightTrigger => pad.right_trigger,
        GamepadButton::RightTrigger2 => pad.right_shoulder,
        GamepadButton::Select => match pad.button_options {
            Some(v) => v,
            None => 0,
        },
        GamepadButton::Start => pad.button_menu,
        GamepadButton::Mode => match pad.button_home {
            Some(v) => v,
            None => 0,
        },
        GamepadButton::LeftThumb => match pad.left_thumbstick_button {
            Some(v) => v,
            None => 0,
        },
        GamepadButton::RightThumb => match pad.right_thumbstick_button {
            Some(v) => v,
            None => 0,
        },
        GamepadButton::DPadUp => pad.dpad_up,
        GamepadButton::DPadDown => pad.dpad_down,
        GamepadButton::DPadLeft => pad.dpad_left,
        GamepadButton::DPadRight => pad.dpad_right,
        GamepadButton::Other(_) => 0,
    }
}

/// The current reading for a canonical axis. The trigger axes read the
/// shoulder elements on this backend.
pub open spec fn spec_axis_value(pad: PadState, axis: GamepadAxis) -> RawValue {
    match axis {
        GamepadAxis::LeftStickX => pad.left_stick_x,
        GamepadAxis::LeftStickY => pad.left_stick_y,
        GamepadAxis::LeftZ => pad.left_shoulder,
        GamepadAxis::RightStickX => pad.right_stick_x,
        GamepadAxis::RightStickY => pad.right_stick_y,
        GamepadAxis::RightZ => pad.right_shoulder,
        GamepadAxis::Other(_) => 0,
    }
}

/// The current reading for any canonical input.
pub open spec fn spec_input_value(pad: PadState, input: GamepadInput) -> RawValue {
    match input {
        GamepadInput::Axis(axis) => spec_axis_value(pad, axis),
        GamepadInput::Button(button) => spec_button_value(pad, button),
    }
}

/// Whether a reading exists for the input.
pub open spec fn input_value_defined(pad: PadState, input: GamepadInput) -> bool {
    match input {
        GamepadInput::Axis(axis) => axis_value_defined(axis),
        GamepadInput::Button(button) => button_value_defined(pad, button),
    }
}

/// Every input the consumer tracks for this controller has a reading.
pub open spec fn known_inputs_defined(c: PolledController) -> bool {
    forall|k: int|
        0 <= k < c.known@.len() ==> input_value_defined(c.pad, (#[trigger] c.known@[k]).0)
}

/// The change notifications one controller's diff pass emits: for each
/// tracked input whose current reading differs from the consumer's known
/// value, one event carrying the new reading, in the tracked order.
pub open spec fn poll_out(entity: u64, pad: PadState, known: Seq<(GamepadInput, RawValue)>) -> Seq<
    RawGamepadEvent,
>
    decreases known.len(),
{
    if known.len() == 0 {
        Seq::empty()
    } else {
        let head = known.first();
        let rest = poll_out(entity, pad, known.drop_first());
        if spec_input_value(pad, head.0) != head.1 {
            (match head.0 {
                GamepadInput::Axis(axis) => seq![
                    RawGamepadEvent::Axis(
                        RawGamepadAxisChangedEvent {
                            gamepad: entity,
                            axis,
                            value: spec_axis_value(pad, axis),
                        },
                    ),
                ],
                GamepadInput::Button(button) => seq![
                    RawGamepadEvent::Button(
                        RawGamepadButtonChangedEvent {
                            gamepad: entity,
                            button,
                            value: spec_button_value(pad, button),
                        },
                    ),
                ],
            }) + rest
        } else {
            rest
        }
    }
}

/// What one whole polling pass emits. A device without a fresh input state
/// is skipped; one without the extended-input capability aborts the pass —
/// nothing after it is polled; one whose id the index map does not hold, or
/// whose component the consumer has not spawned yet, is skipped silently.
pub open spec fn poll_system_out(
    index: Seq<(GamepadId, u64)>,
    controllers: Seq<PolledController>,
) -> Seq<RawGamepadEvent>
    decreases controllers.len(),
{
    if controllers.len() == 0 {
        Seq::empty()
    } else {
        let c = controllers.first();
        let rest = poll_system_out(index, controllers.drop_first());
        if !c.has_new_input {
            rest
        } else if !c.has_extended_gamepad {
            Seq::empty()
        } else {
            match spec_lookup(index, c.index) {
                Some(entity) => if c.has_component {
                    poll_out(entity, c.pad, c.known@) + rest
                } else {
                    rest
                },
                None => rest,
            }
        }
    }
}

/// How one connection notification moves the index map and handle counter,
/// and what it forwards to the consumer: a connect spawns a fresh consumer
/// handle and records it; a disconnect forwards only if the id is mapped,
/// and frees the entry.
pub open spec fn connection_step(
    index: Seq<(GamepadId, u64)>,
    next_handle: u64,
    event: AppleGameControllerEvent,
) -> (Seq<(GamepadId, u64)>, u64, Seq<GamepadConnectionEvent>) {
    match event {
        AppleGameControllerEvent::Connected { id, connection } => (
            spec_without(index, id).push((id, next_handle)),
            (next_handle + 1) as u64,
            seq![GamepadConnectionEvent { gamepad: next_handle, connection }],
        ),
        AppleGameControllerEvent::Disconnected { id } => (
            spec_without(index, id),
            next_handle,
            match spec_lookup(index, id) {
                Some(handle) => seq![
                    GamepadConnectionEvent {
                        gamepad: handle,
                        connection: GamepadConnection::Disconnected,
                    },
                ],
                None => Seq::empty(),
            },
        ),
    }
}

/// One drain of the connection channel, in enqueue order.
pub open spec fn connection_run(
    index: Seq<(GamepadId, u64)>,
    next_handle: u64,
    events: Seq<AppleGameControllerEvent>,
) -> (Seq<(GamepadId, u64)>, u64, Seq<GamepadConnectionEvent>)
    decreases events.len(),
{
    if events.len() == 0 {
        (index, next_handle, Seq::empty())
    } else {
        let step = connection_step(index, next_handle, events.first());
        let rest = connection_run(step.0, step.1, events.drop_first());
        (rest.0, rest.1, step.2 + rest.2)
    }
}

/// The polling backend: reads whole input-state snapshots once per tick and
/// emits the difference against the consumer's known values.
pub struct AppleGameController;

impl AppleGameController {
    /// Builds the connect event the setup path enqueues for a newly connected
    /// controller: ids on this backend come from a monotonic counter — the
    /// caller passes the counter value — and are never reused, which matters to
    /// controllers whose lights display the player number.
    pub fn connection_event(class_name: &str, vendor_name: Option<String>, index: GamepadId) -> (ev:
        AppleGameControllerEvent)
        ensures
            ev matches AppleGameControllerEvent::Connected { id, connection } && id == index && (
            connection matches GamepadConnection::Connected { name, vendor_id, product_id }
                && name@ == spec_setup_name(
                class_name@,
                spec_setup_vendor_label(vendor_name),
                index as nat,
            ) && vendor_id is None && product_id is None),
    {
        let vendor: String = match vendor_name {
            Some(v) => v,
            None => "Unknown Gamepad".to_owned(),
        };
        let tail = connected_name(vendor.as_str(), index);
        let mut name = class_name.to_owned();
        name.append(" ");
        name.append(tail.as_str());
        proof {
            reveal_strlit(" ");
            assert(" "@ =~= seq![' ']);
            assert(name@ =~= spec_setup_name(
                class_name@,
                spec_setup_vendor_label(vendor_name),
                index as nat,
            ));
        }
        AppleGameControllerEvent::Connected {
            id: index,
            connection: GamepadConnection::Connected { name, vendor_id: None, product_id: None },
        }
    }

    /// Drains one batch of connection notifications into the consumer's
    /// connection-event stream, exactly as [`connection_run`] states. The
    /// handle-space bound is a machine limit: each connect consumes one
    /// fresh consumer handle.
    pub fn gamepad_connection_system(
        handler: &mut GamepadPlatformHandler,
        events: Vec<AppleGameControllerEvent>,
    ) -> (out: Vec<GamepadConnectionEvent>)
        requires
            old(handler).next_handle + events@.len() <= u64::MAX,
        ensures
            final(handler).index.entries@ == connection_run(
                old(handler).index.entries@,
                old(handler).next_handle,
                events@,
            ).0,
            final(handler).next_handle == connection_run(
                old(handler).index.entries@,
                old(handler).next_handle,
                events@,
            ).1,
            out@ == connection_run(
                old(handler).index.entries@,
                old(handler).next_handle,
                events@,
            ).2,
    {
        let ghost index0 = handler.index.entries@;
        let ghost next0 = handler.next_handle;
        let ghost evs0 = events@;
        let mut events = events;
        let mut out: Vec<GamepadConnectionEvent> = Vec::new();
        while events.len() > 0
            invariant
                handler.next_handle + events@.len() <= u64::MAX,
                connection_run(index0, next0, evs0).0 == connection_run(
                    handler.index.entries@,
                    handler.next_handle,
                    events@,
                ).0,
                connection_run(index0, next0, evs0).1 == connection_run(
                    handler.index.entries@,
                    handler.next_handle,
                    events@,
                ).1,
                connection_run(index0, next0, evs0).2 == out@ + connection_run(
                    handler.index.entries@,
                    handler.next_handle,
                    events@,
                ).2,
            decreases events@.len(),
        {
            let ghost pre_index = handler.index.entries@;
            let ghost pre_next = handler.next_handle;
            let ghost pre_events = events@;
            let ghost pre_out = out@;
            let event = events.remove(0);
            proof {
                assert(pre_events.first() == event);
                assert(pre_events.drop_first() =~= events@);
            }
            let ghost step = connection_step(pre_index, pre_next, event);
            match event {
                AppleGameControllerEvent::Connected { id, connection } => {
                    let handle = handler.next_handle;
                    handler.next_handle = handle + 1;
                    handler.index.insert(id, handle);
                    out.push(GamepadConnectionEvent { gamepad: handle, connection });
                },
                AppleGameControllerEvent::Disconnected { id } => {
                    match handler.index.get(id) {
                        Some(handle) => {
                            handler.index.remove(id);
                            out.push(
                                GamepadConnectionEvent {
                                    gamepad: handle,
                                    connection: GamepadConnection::Disconnected,
                                },
                            );
                        },
                        None => {
                            proof {
                                crate::lemma_without_absent(handler.index.entries@, id);
                            }
                        },
                    }
                },
            }
            proof {
                assert(out@ =~= pre_out + step.2);
                let rest = connection_run(handler.index.entries@, handler.next_handle, events@);
                assert(connection_run(pre_index, pre_next, pre_events) == (
                    rest.0,
                    rest.1,
                    step.2 + rest.2,
                ));
                assert(pre_out + (step.2 + rest.2) =~= (pre_out + step.2) + rest.2);
            }
        }
        proof {
            assert(connection_run(handler.index.entries@, handler.next_handle, events@) == (
                handler.index.entries@,
                handler.next_handle,
                Seq::<GamepadConnectionEvent>::empty(),
            ));
            assert(out@ + Seq::<GamepadConnectionEvent>::empty() =~= out@);
        }
        out
    }

    /// The current reading for one canonical button on a live device.
    pub fn button_value(pad: &PadState, button: &GamepadButton) -> (value: RawValue)
        requires
            button_value_defined(*pad, *button),
        ensures
            value == spec_button_value(*pad, *button),
    {
        match button {
            GamepadButton::South => pad.button_b,
            GamepadButton::East => pad.button_a,
            GamepadButton::North => pad.button_x,
            GamepadButton::West => pad.button_y,
            GamepadButton::C => 0,
            GamepadButton::Z => 0,
            GamepadButton::LeftTrigger => pad.left_trigger,
            GamepadButton::LeftTrigger2 => pad.left_shoulder,
            GamepadButton::RightTrigger => pad.right_trigger,
            GamepadButton::RightTrigger2 => pad.right_shoulder,
            GamepadButton::Select => match pad.button_options {
                Some(v) => v,
                None => 0,
            },
            GamepadButton::Start => pad.button_menu,
            GamepadButton::Mode => match pad.button_home {
                Some(v) => v,
                None => 0,
            },
            GamepadButton::LeftThumb => match pad.left_thumbstick_button {
                Some(v) => v,
                None => 0,
            },
            GamepadButton::RightThumb => match pad.right_thumbstick_button {
                Some(v) => v,
                None => 0,
            },
            GamepadButton::DPadUp => pad.dpad_up,
            GamepadButton::DPadDown => pad.dpad_down,
            GamepadButton::DPadLeft => pad.dpad_left,
            GamepadButton::DPadRight => pad.dpad_right,
            GamepadButton::Other(_) => 0,
        }
    }

    /// The current reading for one canonical axis on a live device.
    pub fn axis_value(pad: &PadState, axis: &GamepadAxis) -> (value: RawValue)
        requires
            axis_value_defined(*axis),
        ensures
            value == spec_axis_value(*pad, *axis),
    {
        match axis {
            GamepadAxis::LeftStickX => pad.left_stick_x,
            GamepadAxis::LeftStickY => pad.left_stick_y,
            GamepadAxis::LeftZ => pad.left_shoulder,
            GamepadAxis::RightStickX => pad.right_stick_x,
            GamepadAxis::RightStickY => pad.right_stick_y,
            GamepadAxis::RightZ => pad.right_shoulder,
            GamepadAxis::Other(_) => 0,
        }
    }

    /// Diffs one controller's snapshot against the consumer's known values.
    fn poll_gamepad(entity: u64, pad: &PadState, known: &Vec<(GamepadInput, RawValue)>) -> (out:
        Vec<RawGamepadEvent>)
        requires
            forall|k: int|
                0 <= k < known@.len() ==> input_value_defined(*pad, (#[trigger] known@[k]).0),
        ensures
            out@ == poll_out(entity, *pad, known@),
    {
        let mut out: Vec<RawGamepadEvent> = Vec::new();
        let n = known.len();
        proof {
            assert(known@.skip(0) =~= known@);
        }
        for i in 0..n
            invariant
                n == known@.len(),
                forall|k: int|
                    0 <= k < known@.len() ==> input_value_defined(*pad, (#[trigger] known@[k]).0),
                poll_out(entity, *pad, known@) == out@ + poll_out(
                    entity,
                    *pad,
                    known@.skip(i as int),
                ),
        {
            let (input, known_value) = known[i];
            proof {
                assert(known@.skip(i as int).first() == known@[i as int]);
                assert(known@.skip(i as int).drop_first() =~= known@.skip(i + 1));
            }
            let ghost pre_out = out@;
            let new_value = match input {
                GamepadInput::Axis(axis) => Self::axis_value(pad, &axis),
                GamepadInput::Button(button) => Self::button_value(pad, &button),
            };
            if new_value != known_value {
                match input {
                    GamepadInput::Axis(axis) => {
                        out.push(
                            RawGamepadEvent::Axis(
                                RawGamepadAxisChangedEvent {
                                    gamepad: entity,
                                    axis,
                                    value: new_value,
                                },
                            ),
                        );
                    },
                    GamepadInput::Button(button) => {
                        out.push(
                            RawGamepadEvent::Button(
                                RawGamepadButtonChangedEvent {
                                    gamepad: entity,
                                    button,
                                    value: new_value,
                                },
                            ),
                        );
                    },
                }
                proof {
                    assert(pre_out + (poll_out(entity, *pad, known@.skip(i as int))) =~= (pre_out
                        + poll_out(entity, *pad, known@.skip(i as int)).take(1)) + poll_out(
                        entity,
                        *pad,
                        known@.skip(i + 1),
                    )) by {
                        let emitted = poll_out(entity, *pad, known@.skip(i as int));
                        assert(emitted.take(1) =~= emitted.subrange(0, 1));
                    }
                    assert(out@ == pre_out + poll_out(entity, *pad, known@.skip(i as int)).take(1))
                        by {
                        let emitted = poll_out(entity, *pad, known@.skip(i as int));
                        assert(emitted.take(1) =~= seq![out@[out@.len() - 1]]);
                        assert(out@ =~= pre_out + seq![out@[out@.len() - 1]]);
                    }
                }
            }
        }
        proof {
            assert(known@.skip(n as int) =~= Seq::<(GamepadInput, RawValue)>::empty());
            assert(out@ + Seq::<RawGamepadEvent>::empty() =~= out@);
        }
        out
    }

    /// One polling pass: every controller with a fresh input state is
    /// looked up in the index map — never reconstructed — and diffed, and
    /// the change notifications come back in device order.
    pub fn poll_system(gamepad_index: &GamepadIndex, controllers: &Vec<PolledController>) -> (out:
        Vec<RawGamepadEvent>)
        requires
            forall|c: int|
                0 <= c < controllers@.len() ==> known_inputs_defined(#[trigger] controllers@[c]),
        ensures
            out@ == poll_system_out(gamepad_index.entries@, controllers@),
    {
        let ghost index = gamepad_index.entries@;
        let mut out: Vec<RawGamepadEvent> = Vec::new();
        let n = controllers.len();
        proof {
            assert(controllers@.skip(0) =~= controllers@);
        }
        for i in 0..n
            invariant
                n == controllers@.len(),
                index == gamepad_index.entries@,
                forall|c: int|
                    0 <= c < controllers@.len() ==> known_inputs_defined(
                        #[trigger] controllers@[c],
                    ),
                poll_system_out(index, controllers@) == out@ + poll_system_out(
                    index,
                    controllers@.skip(i as int),
                ),
        {
            proof {
                assert(controllers@.skip(i as int).first() == controllers@[i as int]);
                assert(controllers@.skip(i as int).drop_first() =~= controllers@.skip(i + 1));
            }
            let controller = &controllers[i];
            if controller.has_new_input {
                if !controller.has_extended_gamepad {
                    return out;
                }
                if let Some(entity) = gamepad_index.get(controller.index) {
                    if controller.has_component {
                        let ghost pre_out = out@;
                        let mut changed = Self::poll_gamepad(
                            entity,
                            &controller.pad,
                            &controller.known,
                        );
                        let ghost emitted = changed@;
                        out.append(&mut changed);
                        proof {
                            assert(pre_out + (emitted + poll_system_out(
                                index,
                                controllers@.skip(i + 1),
                            )) =~= (pre_out + emitted) + poll_system_out(
                                index,
                                controllers@.skip(i + 1),
                            ));
                        }
                    }
                }
            }
        }
        proof {
            assert(controllers@.skip(n as int) =~= Seq::<PolledController>::empty());
            assert(out@ + Seq::<RawGamepadEvent>::empty() =~= out@);
        }
        out
    }
}

} // verus!
