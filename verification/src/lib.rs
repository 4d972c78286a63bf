use vstd::prelude::*;

pub mod channel;
pub mod error;
pub mod game_controller;
pub mod input_model;
pub mod platform;
pub mod profile;

use input_model::{
    GamepadAxis, GamepadButton, GamepadConnection, GamepadConnectionEvent, RawGamepadAxisChangedEvent,
    RawGamepadButtonChangedEvent, RawGamepadEvent,
};
use platform::GamepadPlatformEvent;
use profile::Changed;

verus! {

/// The small non-negative integer identity of a connected gamepad.
///
/// Unique among the devices connected at any instant; reused after a
/// disconnect frees it. The bridge keeps it internal and exposes only its
/// own consumer handle, created fresh per connect.
pub type GamepadId = usize;

/// The consumer-side device handle the id at the front of `s` maps to,
/// taking the most recent insertion for a key inserted twice.
pub open spec fn spec_lookup(s: Seq<(GamepadId, u64)>, id: GamepadId) -> Option<u64>
    decreases s.len(),
{
    if s.len() == 0 {
        None
    } else if s.last().0 == id {
        Some(s.last().1)
    } else {
        spec_lookup(s.drop_last(), id)
    }
}

/// The map contents with every entry for `id` removed, order otherwise
/// kept.
pub open spec fn spec_without(s: Seq<(GamepadId, u64)>, id: GamepadId) -> Seq<(GamepadId, u64)>
    decreases s.len(),
{
    if s.len() == 0 {
        Seq::empty()
    } else {
        let rest = spec_without(s.drop_last(), id);
        if s.last().0 == id {
            rest
        } else {
            rest.push(s.last())
        }
    }
}

/// After the removal, `id` resolves to nothing and every other id resolves
/// as before.
pub proof fn lemma_without_lookup(s: Seq<(GamepadId, u64)>, id: GamepadId, other: GamepadId)
    ensures
        spec_lookup(spec_without(s, id), id) is None,
        other != id ==> spec_lookup(spec_without(s, id), other) == spec_lookup(s, other),
    decreases s.len(),
{
    if s.len() > 0 {
        lemma_without_lookup(s.drop_last(), id, other);
        if s.last().0 != id {
            let t = spec_without(s, id);
            assert(t == spec_without(s.drop_last(), id).push(s.last()));
            assert(t.drop_last() =~= spec_without(s.drop_last(), id));
        }
    }
}

/// Removing an id that resolves to nothing changes nothing.
pub proof fn lemma_without_absent(s: Seq<(GamepadId, u64)>, id: GamepadId)
    requires
        spec_lookup(s, id) is None,
    ensures
        spec_without(s, id) == s,
    decreases s.len(),
{
    if s.len() > 0 {
        lemma_without_absent(s.drop_last(), id);
        assert(spec_without(s, id) =~= s.drop_last().push(s.last()));
        assert(s.drop_last().push(s.last()) =~= s);
    }
}

/// The index map from gamepad id to the consumer-side device handle:
/// inserted on a connect, removed on a disconnect, consulted — never
/// reconstructed — to resolve every input change.
#[derive(Debug)]
pub struct GamepadIndex {
    pub entries: Vec<(GamepadId, u64)>,
}

impl GamepadIndex {
    /// An empty map.
    pub fn new() -> (r: Self)
        ensures
            r.entries@ == Seq::<(GamepadId, u64)>::empty(),
    {
        let r = GamepadIndex { entries: Vec::new() };
        proof {
            assert(r.entries@ =~= Seq::<(GamepadId, u64)>::empty());
        }
        r
    }

    /// The handle `id` maps to, if any.
    pub fn get(&self, id: GamepadId) -> (r: Option<u64>)
        ensures
            r == spec_lookup(self.entries@, id),
    {
        let ghost s = self.entries@;
        let mut i: usize = self.entries.len();
        proof {
            assert(s.take(s.len() as int) =~= s);
        }
        while i > 0
            invariant
                s == self.entries@,
                i <= s.len(),
                spec_lookup(s, id) == spec_lookup(s.take(i as int), id),
            decreases i,
        {
            i = i - 1;
            let entry = self.entries[i];
            proof {
                assert(s.take(i + 1).last() == s[i as int]);
                assert(s.take(i + 1).drop_last() =~= s.take(i as int));
            }
            if entry.0 == id {
                return Some(entry.1);
            }
        }
        proof {
            assert(s.take(0) =~= Seq::<(GamepadId, u64)>::empty());
        }
        None
    }

    /// Maps `id` to `handle`, replacing any earlier entry for `id`.
    pub fn insert(&mut self, id: GamepadId, handle: u64)
        ensures
            final(self).entries@ == spec_without(old(self).entries@, id).push((id, handle)),
            spec_lookup(final(self).entries@, id) == Some(handle),
            forall|other: GamepadId|
                other != id ==> spec_lookup(final(self).entries@, other) == spec_lookup(
                    old(self).entries@,
                    other,
                ),
    {
        let ghost before = self.entries@;
        self.remove(id);
        self.entries.push((id, handle));
        proof {
            let t = spec_without(before, id).push((id, handle));
            assert(self.entries@ == t);
            assert(t.drop_last() =~= spec_without(before, id));
            assert forall|other: GamepadId| other != id implies spec_lookup(self.entries@, other)
                == spec_lookup(before, other) by {
                lemma_without_lookup(before, id, other);
            }
        }
    }

    /// Drops any entry for `id`.
    pub fn remove(&mut self, id: GamepadId)
        ensures
            final(self).entries@ == spec_without(old(self).entries@, id),
            spec_lookup(final(self).entries@, id) is None,
            forall|other: GamepadId|
                other != id ==> spec_lookup(final(self).entries@, other) == spec_lookup(
                    old(self).entries@,
                    other,
                ),
    {
        let ghost before = self.entries@;
        let mut kept: Vec<(GamepadId, u64)> = Vec::new();
        let n = self.entries.len();
        for i in 0..n
            invariant
                n == before.len(),
                before == self.entries@,
                kept@ == spec_without(before.take(i as int), id),
        {
            let entry = self.entries[i];
            proof {
                assert(before.take(i + 1).drop_last() =~= before.take(i as int));
                assert(before.take(i + 1).last() == before[i as int]);
            }
            if entry.0 != id {
                kept.push(entry);
            }
            proof {
                assert(kept@ == spec_without(before.take(i + 1), id));
            }
        }
        proof {
            assert(before.take(n as int) =~= before);
        }
        self.entries = kept;
        proof {
            lemma_without_lookup(before, id, id);
            assert forall|other: GamepadId| other != id implies spec_lookup(self.entries@, other)
                == spec_lookup(before, other) by {
                lemma_without_lookup(before, id, other);
            }
        }
    }
}

/// The discrete notifications one canonical change event fans out to: a
/// directional-pad change becomes four button changes in up/down/left/right
/// order, a dual-axis change becomes two axis changes, and the rest map one
/// to one — every scalar carried unmodified.
pub open spec fn change_out(handle: u64, change: Changed) -> Seq<RawGamepadEvent> {
    match change {
        Changed::Button(bc) => seq![
            RawGamepadEvent::Button(
                RawGamepadButtonChangedEvent { gamepad: handle, button: bc.button, value: bc.value },
            ),
        ],
        Changed::DPad(d) => seq![
            RawGamepadEvent::Button(
                RawGamepadButtonChangedEvent {
                    gamepad: handle,
                    button: GamepadButton::DPadUp,
                    value: d.up,
                },
            ),
            RawGamepadEvent::Button(
                RawGamepadButtonChangedEvent {
                    gamepad: handle,
                    button: GamepadButton::DPadDown,
                    value: d.down,
                },
            ),
            RawGamepadEvent::Button(
                RawGamepadButtonChangedEvent {
                    gamepad: handle,
                    button: GamepadButton::DPadLeft,
                    value: d.left,
                },
            ),
            RawGamepadEvent::Button(
                RawGamepadButtonChangedEvent {
                    gamepad: handle,
                    button: GamepadButton::DPadRight,
                    value: d.right,
                },
            ),
        ],
        Changed::DualAxis { x_axis, x_value, y_axis, y_value } => seq![
            RawGamepadEvent::Axis(
                RawGamepadAxisChangedEvent { gamepad: handle, axis: x_axis, value: x_value },
            ),
            RawGamepadEvent::Axis(
                RawGamepadAxisChangedEvent { gamepad: handle, axis: y_axis, value: y_value },
            ),
        ],
        Changed::SingleAxis { axis, value } => seq![
            RawGamepadEvent::Axis(
                RawGamepadAxisChangedEvent { gamepad: handle, axis, value },
            ),
        ],
    }
}

/// How the bridge handles one platform event: the map and handle counter
/// afterwards, and the consumer notifications emitted.
///
/// An error is logged by the caller and produces nothing here. A connect
/// creates a fresh consumer handle and records it. A disconnect removes the
/// entry and reports the disconnection only if the id was mapped. An input
/// change for an unmapped id — one racing a disconnect — is dropped
/// silently.
pub open spec fn bridge_step(
    index: Seq<(GamepadId, u64)>,
    next_handle: u64,
    event: GamepadPlatformEvent,
) -> (Seq<(GamepadId, u64)>, u64, Seq<RawGamepadEvent>) {
    match event {
        GamepadPlatformEvent::Error(_) => (index, next_handle, Seq::empty()),
        GamepadPlatformEvent::Connected { id, connection } => (
            spec_without(index, id).push((id, next_handle)),
            (next_handle + 1) as u64,
            seq![
                RawGamepadEvent::Connection(
                    GamepadConnectionEvent { gamepad: next_handle, connection },
                ),
            ],
        ),
        GamepadPlatformEvent::Disconnected { id } => (
            spec_without(index, id),
            next_handle,
            match spec_lookup(index, id) {
                Some(handle) => seq![
                    RawGamepadEvent::Connection(
                        GamepadConnectionEvent {
                            gamepad: handle,
                            connection: GamepadConnection::Disconnected,
                        },
                    ),
                ],
                None => Seq::empty(),
            },
        ),
        GamepadPlatformEvent::InputChanged { id, change } => (
            index,
            next_handle,
            match spec_lookup(index, id) {
                Some(handle) => change_out(handle, change),
                None => Seq::empty(),
            },
        ),
    }
}

/// The bridge over a whole drained batch, events processed in queue order.
pub open spec fn bridge_run(
    index: Seq<(GamepadId, u64)>,
    next_handle: u64,
    events: Seq<GamepadPlatformEvent>,
) -> (Seq<(GamepadId, u64)>, u64, Seq<RawGamepadEvent>)
    decreases events.len(),
{
    if events.len() == 0 {
        (index, next_handle, Seq::empty())
    } else {
        let step = bridge_step(index, next_handle, events.first());
        let rest = bridge_run(step.0, step.1, events.drop_first());
        (rest.0, rest.1, step.2 + rest.2)
    }
}

/// Processing one more event at the end of a batch composes: the batch run
/// followed by one step.
pub proof fn lemma_bridge_run_snoc(
    index: Seq<(GamepadId, u64)>,
    next_handle: u64,
    events: Seq<GamepadPlatformEvent>,
    event: GamepadPlatformEvent,
)
    ensures
        ({
            let run = bridge_run(index, next_handle, events);
            let step = bridge_step(run.0, run.1, event);
            bridge_run(index, next_handle, events.push(event)) == (
                step.0,
                step.1,
                run.2 + step.2,
            )
        }),
    decreases events.len(),
{
    let whole = events.push(event);
    if events.len() == 0 {
        assert(whole.first() == event);
        let empty_evs = Seq::<GamepadPlatformEvent>::empty();
        assert(whole.drop_first() =~= empty_evs);
        let step = bridge_step(index, next_handle, event);
        assert(bridge_run(step.0, step.1, empty_evs) == (step.0, step.1, Seq::<
            RawGamepadEvent,
        >::empty()));
        assert(bridge_run(index, next_handle, whole) == (step.0, step.1, step.2 + Seq::<
            RawGamepadEvent,
        >::empty()));
        assert(step.2 + Seq::<RawGamepadEvent>::empty() =~= step.2);
        assert(Seq::<RawGamepadEvent>::empty() + step.2 =~= step.2);
    } else {
        let head = events.first();
        let first_step = bridge_step(index, next_handle, head);
        lemma_bridge_run_snoc(first_step.0, first_step.1, events.drop_first(), event);
        assert(whole.first() == head);
        assert(whole.drop_first() =~= events.drop_first().push(event));
        let tail_run = bridge_run(first_step.0, first_step.1, events.drop_first());
        let step = bridge_step(tail_run.0, tail_run.1, event);
        assert(first_step.2 + (tail_run.2 + step.2) =~= (first_step.2 + tail_run.2) + step.2);
    }
}

/// The consumer-side half of the system: the id-to-handle index and the
/// counter from which fresh consumer handles are drawn.
#[derive(Debug)]
pub struct GamepadPlatformHandler {
    /// Index of gamepad id to the consumer-side device handle.
    pub index: GamepadIndex,
    /// The next consumer handle, never reused within one handler.
    pub next_handle: u64,
}

impl GamepadPlatformHandler {
    /// A bridge with no devices and no handles given out.
    pub fn new() -> (r: Self)
        ensures
            r.index.entries@ == Seq::<(GamepadId, u64)>::empty(),
            r.next_handle == 0,
    {
        GamepadPlatformHandler { index: GamepadIndex::new(), next_handle: 0 }
    }

    /// Translates one platform event into the consumer's own notifications,
    /// exactly as [`bridge_step`] states.
    pub fn handle_event(&mut self, event: GamepadPlatformEvent) -> (out: Vec<RawGamepadEvent>)
        requires
            old(self).next_handle < u64::MAX,
        ensures
            final(self).index.entries@ == bridge_step(
                old(self).index.entries@,
                old(self).next_handle,
                event,
            ).0,
            final(self).next_handle == bridge_step(
                old(self).index.entries@,
                old(self).next_handle,
                event,
            ).1,
            out@ == bridge_step(old(self).index.entries@, old(self).next_handle, event).2,
    {
        let mut out: Vec<RawGamepadEvent> = Vec::new();
        match event {
            GamepadPlatformEvent::Error(_) => {},
            GamepadPlatformEvent::Connected { id, connection } => {
                let handle = self.next_handle;
                self.next_handle = handle + 1;
                self.index.insert(id, handle);
                out.push(
                    RawGamepadEvent::Connection(
                        GamepadConnectionEvent { gamepad: handle, connection },
                    ),
                );
            },
            GamepadPlatformEvent::Disconnected { id } => {
                match self.index.get(id) {
                    Some(handle) => {
                        self.index.remove(id);
                        out.push(
                            RawGamepadEvent::Connection(
                                GamepadConnectionEvent {
                                    gamepad: handle,
                                    connection: GamepadConnection::Disconnected,
                                },
                            ),
                        );
                    },
                    None => {
                        proof {
                            lemma_without_absent(self.index.entries@, id);
                        }
                    },
                }
            },
            GamepadPlatformEvent::InputChanged { id, change } => {
                match self.index.get(id) {
                    Some(handle) => {
                        match change {
                            Changed::Button(bc) => {
                                out.push(
                                    RawGamepadEvent::Button(
                                        RawGamepadButtonChangedEvent {
                                            gamepad: handle,
                                            button: bc.button,
                                            value: bc.value,
                                        },
                                    ),
                                );
                            },
                            Changed::DPad(d) => {
                                out.push(
                                    RawGamepadEvent::Button(
                                        RawGamepadButtonChangedEvent {
                                            gamepad: handle,
                                            button: GamepadButton::DPadUp,
                                            value: d.up,
                                        },
                                    ),
                                );
                                out.push(
                                    RawGamepadEvent::Button(
                                        RawGamepadButtonChangedEvent {
                                            gamepad: handle,
                                            button: GamepadButton::DPadDown,
                                            value: d.down,
                                        },
                                    ),
                                );
                                out.push(
                                    RawGamepadEvent::Button(
                                        RawGamepadButtonChangedEvent {
                                            gamepad: handle,
                                            button: GamepadButton::DPadLeft,
                                            value: d.left,
                                        },
                                    ),
                                );
                                out.push(
                                    RawGamepadEvent::Button(
                                        RawGamepadButtonChangedEvent {
                                            gamepad: handle,
                                            button: GamepadButton::DPadRight,
                                            value: d.right,
                                        },
                                    ),
                                );
                            },
                            Changed::DualAxis { x_axis, x_value, y_axis, y_value } => {
                                out.push(
                                    RawGamepadEvent::Axis(
                                        RawGamepadAxisChangedEvent {
                                            gamepad: handle,
                                            axis: x_axis,
                                            value: x_value,
                                        },
                                    ),
                                );
                                out.push(
                                    RawGamepadEvent::Axis(
                                        RawGamepadAxisChangedEvent {
                                            gamepad: handle,
                                            axis: y_axis,
                                            value: y_value,
                                        },
                                    ),
                                );
                            },
                            Changed::SingleAxis { axis, value } => {
                                out.push(
                                    RawGamepadEvent::Axis(
                                        RawGamepadAxisChangedEvent {
                                            gamepad: handle,
                                            axis,
                                            value,
                                        },
                                    ),
                                );
                            },
                        }
                    },
                    None => {},
                }
            },
        }
        proof {
            assert(out@ =~= bridge_step(old(self).index.entries@, old(self).next_handle, event).2);
        }
        out
    }

    /// Translates a whole drained batch in queue order, exactly as
    /// [`bridge_run`] states. The handle-space bound is a machine limit: a
    /// connect may consume one fresh handle per event.
    pub fn process_batch(&mut self, events: Vec<GamepadPlatformEvent>) -> (out: Vec<
        RawGamepadEvent,
    >)
        requires
            old(self).next_handle + events@.len() <= u64::MAX,
        ensures
            final(self).index.entries@ == bridge_run(
                old(self).index.entries@,
                old(self).next_handle,
                events@,
            ).0,
            final(self).next_handle == bridge_run(
                old(self).index.entries@,
                old(self).next_handle,
                events@,
            ).1,
            out@ == bridge_run(old(self).index.entries@, old(self).next_handle, events@).2,
    {
        let ghost index0 = self.index.entries@;
        let ghost next0 = self.next_handle;
        let ghost evs0 = events@;
        let mut events = events;
        let mut out: Vec<RawGamepadEvent> = Vec::new();
        while events.len() > 0
            invariant
                self.next_handle + events@.len() <= u64::MAX,
                bridge_run(index0, next0, evs0).0 == bridge_run(
                    self.index.entries@,
                    self.next_handle,
                    events@,
                ).0,
                bridge_run(index0, next0, evs0).1 == bridge_run(
                    self.index.entries@,
                    self.next_handle,
                    events@,
                ).1,
                bridge_run(index0, next0, evs0).2 == out@ + bridge_run(
                    self.index.entries@,
                    self.next_handle,
                    events@,
                ).2,
            decreases events@.len(),
        {
            let ghost pre_index = self.index.entries@;
            let ghost pre_next = self.next_handle;
            let ghost pre_events = events@;
            let ghost pre_out = out@;
            let event = events.remove(0);
            proof {
                assert(pre_events.first() == event);
                assert(pre_events.drop_first() =~= events@);
            }
            let mut step_out = self.handle_event(event);
            let ghost step = bridge_step(pre_index, pre_next, event);
            out.append(&mut step_out);
            proof {
                let rest = bridge_run(self.index.entries@, self.next_handle, events@);
                assert(bridge_run(pre_index, pre_next, pre_events) == (
                    rest.0,
                    rest.1,
                    step.2 + rest.2,
                ));
                assert(pre_out + (step.2 + rest.2) =~= (pre_out + step.2) + rest.2);
            }
        }
        proof {
            assert(events@.len() == 0);
            assert(bridge_run(self.index.entries@, self.next_handle, events@) == (
                self.index.entries@,
                self.next_handle,
                Seq::<RawGamepadEvent>::empty(),
            ));
            assert(out@ + Seq::<RawGamepadEvent>::empty() =~= out@);
        }
        out
    }

    /// Runs once per scheduling tick: drains the channel without blocking —
    /// events already queued come out in enqueue order — and translates each
    /// as [`bridge_step`] states. What the channel holds depends on the
    /// producing threads, so the contract promises only that some batch was
    /// processed exactly.
    pub fn platform_system(
        &mut self,
        rx: &crossbeam::channel::Receiver<GamepadPlatformEvent>,
    ) -> (out: Vec<RawGamepadEvent>)
        ensures
            exists|events: Seq<GamepadPlatformEvent>|
                {
                    let run = #[trigger] bridge_run(
                        old(self).index.entries@,
                        old(self).next_handle,
                        events,
                    );
                    &&& final(self).index.entries@ == run.0
                    &&& final(self).next_handle == run.1
                    &&& out@ == run.2
                },
    {
        let ghost index0 = self.index.entries@;
        let ghost next0 = self.next_handle;
        let ghost mut drained: Seq<GamepadPlatformEvent> = Seq::empty();
        let mut out: Vec<RawGamepadEvent> = Vec::new();
        let mut budget: usize = usize::MAX;
        while budget > 0
            invariant
                bridge_run(index0, next0, drained).0 == self.index.entries@,
                bridge_run(index0, next0, drained).1 == self.next_handle,
                bridge_run(index0, next0, drained).2 == out@,
            decreases budget,
        {
            if self.next_handle == u64::MAX {
                // The handle space is exhausted; leave the rest queued.
                break ;
            }
            let received = channel::try_recv_event(rx);
            let event = match received {
                Some(event) => event,
                None => { break ; },
            };
            let ghost pre_index = self.index.entries@;
            let ghost pre_next = self.next_handle;
            let mut step_out = self.handle_event(event);
            proof {
                lemma_bridge_run_snoc(index0, next0, drained, event);
            }
            out.append(&mut step_out);
            proof {
                drained = drained.push(event);
            }
            budget = budget - 1;
        }
        proof {
            let run = bridge_run(index0, next0, drained);
            assert(final(self).index.entries@ == run.0);
        }
        out
    }
}

/// A directional-pad change received for a mapped id fans out to exactly
/// four button-change notifications, in up/down/left/right order, each
/// carrying the corresponding scalar unmodified, and moves no state.
pub proof fn lemma_dpad_fans_out_to_four(
    index: Seq<(GamepadId, u64)>,
    next_handle: u64,
    id: GamepadId,
    handle: u64,
    d: profile::DPadChange,
)
    requires
        spec_lookup(index, id) == Some(handle),
    ensures
        ({
            let step = bridge_step(
                index,
                next_handle,
                GamepadPlatformEvent::InputChanged { id, change: Changed::DPad(d) },
            );
            &&& step.0 == index
            &&& step.1 == next_handle
            &&& step.2.len() == 4
            &&& step.2[0] == RawGamepadEvent::Button(
                RawGamepadButtonChangedEvent {
                    gamepad: handle,
                    button: GamepadButton::DPadUp,
                    value: d.up,
                },
            )
            &&& step.2[1] == RawGamepadEvent::Button(
                RawGamepadButtonChangedEvent {
                    gamepad: handle,
                    button: GamepadButton::DPadDown,
                    value: d.down,
                },
            )
            &&& step.2[2] == RawGamepadEvent::Button(
                RawGamepadButtonChangedEvent {
                    gamepad: handle,
                    button: GamepadButton::DPadLeft,
                    value: d.left,
                },
            )
            &&& step.2[3] == RawGamepadEvent::Button(
                RawGamepadButtonChangedEvent {
                    gamepad: handle,
                    button: GamepadButton::DPadRight,
                    value: d.right,
                },
            )
        }),
{
}

/// A dual-axis change received for a mapped id fans out to exactly two
/// axis-change notifications carrying the unmodified x and y values, and
/// moves no state.
pub proof fn lemma_dual_axis_fans_out_to_two(
    index: Seq<(GamepadId, u64)>,
    next_handle: u64,
    id: GamepadId,
    handle: u64,
    x_axis: GamepadAxis,
    x_value: input_model::RawValue,
    y_axis: GamepadAxis,
    y_value: input_model::RawValue,
)
    requires
        spec_lookup(index, id) == Some(handle),
    ensures
        ({
            let step = bridge_step(
                index,
                next_handle,
                GamepadPlatformEvent::InputChanged {
                    id,
                    change: Changed::DualAxis { x_axis, x_value, y_axis, y_value },
                },
            );
            &&& step.0 == index
            &&& step.1 == next_handle
            &&& step.2.len() == 2
            &&& step.2[0] == RawGamepadEvent::Axis(
                RawGamepadAxisChangedEvent { gamepad: handle, axis: x_axis, value: x_value },
            )
            &&& step.2[1] == RawGamepadEvent::Axis(
                RawGamepadAxisChangedEvent { gamepad: handle, axis: y_axis, value: y_value },
            )
        }),
{
}

/// An input change or a disconnect for an id absent from the index map is
/// dropped: no notification, no error, no state change — and the rest of
/// the batch is processed exactly as if the stale event had never been
/// queued.
pub proof fn lemma_stale_event_dropped(
    index: Seq<(GamepadId, u64)>,
    next_handle: u64,
    stale: GamepadPlatformEvent,
    rest: Seq<GamepadPlatformEvent>,
)
    requires
        spec_lookup(
            index,
            match stale {
                GamepadPlatformEvent::InputChanged { id, .. } => id,
                GamepadPlatformEvent::Disconnected { id } => id,
                _ => arbitrary(),
            },
        ) is None,
        stale matches GamepadPlatformEvent::InputChanged { .. } || stale
            matches GamepadPlatformEvent::Disconnected { .. },
    ensures
        bridge_step(index, next_handle, stale).0 == index,
        bridge_step(index, next_handle, stale).1 == next_handle,
        bridge_step(index, next_handle, stale).2 == Seq::<RawGamepadEvent>::empty(),
        bridge_run(index, next_handle, seq![stale] + rest) == bridge_run(
            index,
            next_handle,
            rest,
        ),
{
    match stale {
        GamepadPlatformEvent::Disconnected { id } => {
            lemma_without_absent(index, id);
        },
        _ => {},
    }
    let whole = seq![stale] + rest;
    assert(whole.first() == stale);
    assert(whole.drop_first() =~= rest);
    let step = bridge_step(index, next_handle, stale);
    let run = bridge_run(index, next_handle, rest);
    assert(bridge_run(index, next_handle, whole) == (run.0, run.1, step.2 + run.2));
    assert(step.2 + run.2 =~= run.2);
}

} // verus!
