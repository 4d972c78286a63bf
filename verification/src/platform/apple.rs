use vstd::prelude::*;

use crate::GamepadId;
use crate::error::GamepadError;
use crate::input_model::GamepadConnection;
use crate::platform::GamepadPlatformEvent;

pub mod profiles;

use profiles::{
    ApplePlatformProfile, DualSenseProfile, DualShockProfile, GenericProfile, OptionalElements,
    XboxProfile,
};
use vstd::string::StringExecFns;

verus! {

use vstd::set_lib::set_int_range;

/// The native class of a connected device, as the ordered downcast chain of
/// the platform framework resolves it. The chain is checked most specific
/// first, because some vendor subtypes are themselves subtypes of more
/// generic native types.
#[derive(Clone, Copy, Debug, PartialEq, Eq, Structural)]
pub enum DeviceFamily {
    DualSense,
    DualShock,
    Xbox,
    /// Recognized but unimplemented; resolving to it declines the connection.
    Micro,
    Generic,
}

/// What a connect notification reveals about the device behind it.
#[derive(Debug, Clone)]
pub struct ControllerDesc {
    pub family: DeviceFamily,
    /// Whether the controller exposes the extended-input capability.
    pub has_extended_gamepad: bool,
    /// The vendor-reported device name, if the vendor supplies one.
    pub vendor_name: Option<String>,
    /// Which optional native elements the device populates.
    pub elements: OptionalElements,
}

/// The payload of a native connect notification, by how far it can be
/// unwrapped: the notification may carry no object at all, an object of the
/// wrong type, or a controller.
#[derive(Debug, Clone)]
pub enum ConnectPayload {
    NoObject,
    NotAController,
    Controller(ControllerDesc),
}

/// The payload of a native disconnect notification. A controller carries the
/// player index it held.
#[derive(Clone, Copy, Debug)]
pub enum DisconnectPayload {
    NoObject,
    NotAController,
    Controller { index: GamepadId },
}

/// One device in the native enumeration of connected controllers.
///
/// `index` is `None` while the device is still unassigned — the native
/// convention marks that state with player index -1 — and carries the
/// assigned player index afterwards.
#[derive(Clone, Copy, Debug)]
pub struct ControllerEntry {
    pub index: Option<GamepadId>,
    pub profile: ApplePlatformProfile,
}

/// The platform driver: its bookkeeping mirrors the native enumeration of
/// currently connected devices.
#[derive(Debug)]
pub struct AppleGameControllerPlatform {
    pub controllers: Vec<ControllerEntry>,
}

/// No two connected devices hold the same assigned player index.
pub open spec fn entries_distinct(s: Seq<ControllerEntry>) -> bool {
    forall|i: int, j: int|
        0 <= i < j < s.len() && s[i].index is Some && s[j].index is Some ==> s[i].index
            != s[j].index
}

/// Some device among the first `n` entries of the enumeration holds the
/// assigned player index `x`.
pub open spec fn entry_with_index(s: Seq<ControllerEntry>, n: int, x: usize) -> bool {
    exists|j: int| 0 <= j < n && (#[trigger] s[j].index) == Some(x)
}

/// Widening the searched prefix never loses a hit.
pub proof fn lemma_entry_with_index_extend(s: Seq<ControllerEntry>, n1: int, n2: int, x: usize)
    requires
        entry_with_index(s, n1, x),
        n1 <= n2,
    ensures
        entry_with_index(s, n2, x),
{
    let j = choose|j: int| 0 <= j < n1 && (#[trigger] s[j].index) == Some(x);
    assert(0 <= j < n2 && s[j].index == Some(x));
}

/// The set of player indices currently assigned in the enumeration.
pub open spec fn seq_assigned(s: Seq<ControllerEntry>) -> Set<int> {
    Set::new(|k: int| 0 <= k <= usize::MAX && entry_with_index(s, s.len() as int, k as usize))
}

/// `m` is the smallest non-negative integer outside `s`.
pub open spec fn is_mex(s: Set<int>, m: int) -> bool {
    &&& 0 <= m
    &&& !s.contains(m)
    &&& forall|k: int| 0 <= k < m ==> s.contains(k)
}

/// The smallest non-negative integer outside `s`, where one exists.
pub open spec fn mex_of(s: Set<int>) -> int {
    choose|m: int| is_mex(s, m)
}

/// The smallest free index is unique.
pub proof fn lemma_mex_unique(s: Set<int>, a: int, b: int)
    requires
        is_mex(s, a),
        is_mex(s, b),
    ensures
        a == b,
{
    if a < b {
        assert(s.contains(a));
    }
    if b < a {
        assert(s.contains(b));
    }
}

/// Ascending order on a sequence of player indices.
pub open spec fn sorted_ascending(s: Seq<usize>) -> bool {
    forall|a: int, b: int| 0 <= a < b < s.len() ==> s[a] <= s[b]
}

impl AppleGameControllerPlatform {
    /// A driver with no connected devices.
    pub fn new() -> (driver: Self)
        ensures
            driver.controllers@ == Seq::<ControllerEntry>::empty(),
            entries_distinct(driver.controllers@),
    {
        let driver = AppleGameControllerPlatform { controllers: Vec::new() };
        proof {
            assert(driver.controllers@ =~= Seq::<ControllerEntry>::empty());
        }
        driver
    }

    /// The smallest player index no connected, assigned device holds: the
    /// first gap in the ascending list of live indices, else its length.
    /// Unassigned devices are filtered out before the scan.
    pub fn get_next_player_index(&self) -> (idx: usize)
        requires
            entries_distinct(self.controllers@),
        ensures
            is_mex(seq_assigned(self.controllers@), idx as int),
            idx <= self.controllers@.len(),
    {
        let ghost cs = self.controllers@;
        let n = self.controllers.len();
        // Collect the indices of assigned devices, ignoring unassigned ones.
        let mut players: Vec<usize> = Vec::new();
        for i in 0..n
            invariant
                n == cs.len(),
                cs == self.controllers@,
                entries_distinct(cs),
                players@.no_duplicates(),
                players@.len() <= i,
                forall|j: int|
                    0 <= j < i ==> ((#[trigger] cs[j].index) matches Some(x)
                        ==> players@.contains(x)),
                forall|m: int|
                    0 <= m < players@.len() ==> entry_with_index(
                        cs,
                        i as int,
                        #[trigger] players@[m],
                    ),
        {
            let current = self.controllers[i].index;
            if let Some(ix) = current {
                proof {
                    assert(!players@.contains(ix)) by {
                        if players@.contains(ix) {
                            let m = choose|m: int|
                                0 <= m < players@.len() && players@[m] == ix;
                            assert(entry_with_index(cs, i as int, players@[m]));
                            let j = choose|j: int|
                                0 <= j < i && (#[trigger] cs[j].index) == Some(players@[m]);
                            assert(cs[j].index == cs[i as int].index);
                        }
                    }
                }
                let ghost pre_players = players@;
                players.push(ix);
                proof {
                    assert forall|j: int|
                        0 <= j < i + 1 implies ((#[trigger] cs[j].index) matches Some(y)
                        ==> players@.contains(y)) by {
                        if let Some(y) = cs[j].index {
                            if j < i {
                                let m = choose|m: int|
                                    0 <= m < pre_players.len() && pre_players[m] == y;
                                assert(players@[m] == y);
                            } else {
                                assert(players@[players@.len() - 1] == y);
                            }
                        }
                    }
                    assert forall|m: int| 0 <= m < players@.len() implies entry_with_index(
                        cs,
                        i + 1,
                        #[trigger] players@[m],
                    ) by {
                        if m < pre_players.len() {
                            assert(players@[m] == pre_players[m]);
                            lemma_entry_with_index_extend(cs, i as int, i + 1, players@[m]);
                        } else {
                            assert(cs[i as int].index == Some(players@[m]));
                        }
                    }
                }
            } else {
                proof {
                    assert forall|m: int| 0 <= m < players@.len() implies entry_with_index(
                        cs,
                        i + 1,
                        #[trigger] players@[m],
                    ) by {
                        lemma_entry_with_index_extend(cs, i as int, i + 1, players@[m]);
                    }
                }
            }
        }
        let ghost unsorted = players@;
        sort_player_indices(&mut players);
        proof {
            // Sorting permutes the collected indices, so both directions of
            // the correspondence with the enumeration survive it.
            assert forall|j: int|
                0 <= j < cs.len() implies ((#[trigger] cs[j].index) matches Some(x)
                ==> players@.contains(x)) by {
                if let Some(x) = cs[j].index {
                    assert(unsorted.contains(x));
                }
            }
            assert forall|m: int| 0 <= m < players@.len() implies entry_with_index(
                cs,
                cs.len() as int,
                #[trigger] players@[m],
            ) by {
                let x = players@[m];
                assert(players@.contains(x));
                assert(unsorted.contains(x));
                let m2 = choose|m2: int| 0 <= m2 < unsorted.len() && unsorted[m2] == x;
                assert(entry_with_index(cs, cs.len() as int, unsorted[m2]));
            }
        }
        // Scan the sorted list for the first gap.
        let mut i: usize = 0;
        while i < players.len()
            invariant
                sorted_ascending(players@),
                players@.no_duplicates(),
                players@.len() <= cs.len(),
                cs == self.controllers@,
                forall|j: int|
                    0 <= j < cs.len() ==> ((#[trigger] cs[j].index) matches Some(x)
                        ==> players@.contains(x)),
                forall|m: int|
                    0 <= m < players@.len() ==> entry_with_index(
                        cs,
                        cs.len() as int,
                        #[trigger] players@[m],
                    ),
                i <= players@.len(),
                forall|k: int| 0 <= k < i ==> players@[k] == k,
            decreases players@.len() - i,
        {
            if players[i] != i {
                proof {
                    lemma_scan_found_mex(players@, cs, i as int);
                }
                return i;
            }
            i += 1;
        }
        proof {
            lemma_scan_found_mex(players@, cs, players@.len() as int);
        }
        players.len()
    }
}

/// From a sorted, duplicate-free list that holds exactly the assigned
/// indices, the first position whose value differs from its rank is the
/// smallest free index; if none differs, the length is.
proof fn lemma_scan_found_mex(players: Seq<usize>, cs: Seq<ControllerEntry>, i: int)
    requires
        sorted_ascending(players),
        players.no_duplicates(),
        0 <= i <= players.len(),
        i < players.len() ==> players[i] != i,
        forall|j: int|
            0 <= j < cs.len() ==> ((#[trigger] cs[j].index) matches Some(x) ==> players.contains(
                x,
            )),
        forall|m: int|
            0 <= m < players.len() ==> entry_with_index(cs, cs.len() as int, #[trigger] players[m]),
        forall|k: int| 0 <= k < i ==> players[k] == k,
    ensures
        is_mex(seq_assigned(cs), i),
{
    let s = seq_assigned(cs);
    assert forall|k: int| 0 <= k < i implies s.contains(k) by {
        assert(players[k] == k);
        assert(entry_with_index(cs, cs.len() as int, players[k]));
    }
    assert(!s.contains(i)) by {
        if s.contains(i) {
            assert(entry_with_index(cs, cs.len() as int, i as usize));
            let j = choose|j: int|
                0 <= j < cs.len() && (#[trigger] cs[j].index) == Some(i as usize);
            assert(players.contains(i as usize));
            let m = choose|m: int| 0 <= m < players.len() && players[m] == i as usize;
            if m < i {
                assert(players[m] == m);
            } else if m > i {
                // The scan pinned the prefix to the identity, so the value at
                // position i exceeds i, and sortedness pushes every later
                // value above i as well.
                assert(i < players.len());
                if i > 0 {
                    assert(players[i - 1] == i - 1);
                    assert(players[i - 1] <= players[i]);
                    assert(players[i - 1] != players[i]);
                }
                assert(players[i] > i);
                assert(players[i] <= players[m]);
            }
        }
    }
}

/// The character for one decimal digit.
pub open spec fn dec_digit(d: nat) -> char {
    if d == 0 {
        '0'
    } else if d == 1 {
        '1'
    } else if d == 2 {
        '2'
    } else if d == 3 {
        '3'
    } else if d == 4 {
        '4'
    } else if d == 5 {
        '5'
    } else if d == 6 {
        '6'
    } else if d == 7 {
        '7'
    } else if d == 8 {
        '8'
    } else {
        '9'
    }
}

/// The decimal digits of `n`, most significant first, without leading zeros
/// (a single zero for `n == 0`).
pub open spec fn spec_dec_digits(n: nat) -> Seq<char>
    decreases n,
{
    if n < 10 {
        seq![dec_digit(n)]
    } else {
        spec_dec_digits(n / 10).push(dec_digit(n % 10))
    }
}

/// The name a connect event reports: the vendor label, a space and the
/// assigned player index.
pub open spec fn spec_connected_name(vendor: Seq<char>, index: nat) -> Seq<char> {
    vendor + seq![' '] + spec_dec_digits(index)
}

/// The vendor-reported name, or the fixed fallback label when the vendor
/// supplies none.
pub open spec fn spec_vendor_label(vendor_name: Option<String>) -> Seq<char> {
    match vendor_name {
        Some(v) => v@,
        None => "Unknown Apple Gamepad"@,
    }
}

/// The one-character string for a decimal digit.
fn digit_str(d: usize) -> (s: &'static str)
    requires
        d < 10,
    ensures
        s@ == seq![dec_digit(d as nat)],
{
    proof {
        reveal_strlit("0");
        reveal_strlit("1");
        reveal_strlit("2");
        reveal_strlit("3");
        reveal_strlit("4");
        reveal_strlit("5");
        reveal_strlit("6");
        reveal_strlit("7");
        reveal_strlit("8");
        reveal_strlit("9");
    }
    let s: &'static str = match d {
        0 => "0",
        1 => "1",
        2 => "2",
        3 => "3",
        4 => "4",
        5 => "5",
        6 => "6",
        7 => "7",
        8 => "8",
        _ => "9",
    };
    proof {
        assert(s@ =~= seq![dec_digit(d as nat)]);
    }
    s
}

/// The decimal rendering of a player index.
pub fn format_decimal(n: usize) -> (s: String)
    ensures
        s@ == spec_dec_digits(n as nat),
    decreases n,
{
    if n < 10 {
        digit_str(n).to_owned()
    } else {
        let mut s = format_decimal(n / 10);
        s.append(digit_str(n % 10));
        proof {
            assert(s@ =~= spec_dec_digits((n / 10) as nat).push(dec_digit((n % 10) as nat)));
        }
        s
    }
}

/// Combines the vendor label with the assigned player index.
pub fn connected_name(vendor: &str, index: usize) -> (s: String)
    ensures
        s@ == spec_connected_name(vendor@, index as nat),
{
    let mut s = vendor.to_owned();
    s.append(" ");
    let digits = format_decimal(index);
    s.append(digits.as_str());
    proof {
        reveal_strlit(" ");
        assert(" "@ =~= seq![' ']);
        assert(s@ =~= spec_connected_name(vendor@, index as nat));
    }
    s
}

impl AppleGameControllerPlatform {
    /// Resolves a connected device's profile from its native family,
    /// following the fixed priority chain. A device of the recognized but
    /// unimplemented Micro family is declined with a platform error — it is
    /// never silently treated as Generic.
    pub fn get_gamepad_profile(desc: &ControllerDesc) -> (r: Result<
        ApplePlatformProfile,
        GamepadError,
    >)
        ensures
            desc.family != DeviceFamily::Micro ==> r == Ok::<ApplePlatformProfile, GamepadError>(
                spec_profile_for(*desc),
            ),
            desc.family == DeviceFamily::Micro ==> (r matches Err(GamepadError::Platform(m))
                && m@ == "Unimplemented profile for Micro gamepad family"@),
    {
        match desc.family {
            DeviceFamily::DualSense => Ok(
                ApplePlatformProfile::DualSense(DualSenseProfile { elements: desc.elements }),
            ),
            DeviceFamily::DualShock => Ok(
                ApplePlatformProfile::DualShock(DualShockProfile { elements: desc.elements }),
            ),
            DeviceFamily::Xbox => Ok(
                ApplePlatformProfile::Xbox(XboxProfile { elements: desc.elements }),
            ),
            DeviceFamily::Micro => Err(
                GamepadError::Platform("Unimplemented profile for Micro gamepad family".to_owned()),
            ),
            DeviceFamily::Generic => Ok(
                ApplePlatformProfile::Generic(GenericProfile { elements: desc.elements }),
            ),
        }
    }
}

/// Whether a connect notification is rejected: its payload cannot be
/// unwrapped to a device with the extended-input capability, or the device
/// resolves to the unimplemented Micro family.
pub open spec fn connect_rejected(payload: ConnectPayload) -> bool {
    match payload {
        ConnectPayload::NoObject => true,
        ConnectPayload::NotAController => true,
        ConnectPayload::Controller(desc) => !desc.has_extended_gamepad || desc.family
            == DeviceFamily::Micro,
    }
}

/// The message of the error event a rejected connect notification yields,
/// naming the unwrap step that failed.
pub open spec fn connect_error_message(payload: ConnectPayload) -> Seq<char> {
    match payload {
        ConnectPayload::NoObject => "Failed to get object from NSNotification"@,
        ConnectPayload::NotAController => (
        "Failed to downcast to GCController from NSNotification object"@),
        ConnectPayload::Controller(desc) => if !desc.has_extended_gamepad {
            "Failed to get GCExtendedGamepad from GCController"@
        } else {
            "Unimplemented profile for Micro gamepad family"@
        },
    }
}

impl AppleGameControllerPlatform {
    /// Handles one native connect notification.
    ///
    /// A payload that cannot be unwrapped — or that resolves to the
    /// unimplemented Micro family — yields exactly one error event, leaves
    /// the enumeration untouched and consumes no player index. Otherwise the
    /// device is first recorded unassigned, then assigned the smallest free
    /// player index, its profile is resolved, and exactly one connect event
    /// is emitted whose name combines the vendor label with that index.
    pub fn process_connect(&mut self, payload: &ConnectPayload) -> (events: Vec<
        GamepadPlatformEvent,
    >)
        requires
            entries_distinct(old(self).controllers@),
            old(self).controllers@.len() < usize::MAX,
        ensures
            entries_distinct(final(self).controllers@),
            connect_rejected(*payload) ==> {
                &&& final(self).controllers@ == old(self).controllers@
                &&& events@.len() == 1
                &&& (events@[0] matches GamepadPlatformEvent::Error(GamepadError::Platform(m))
                    && m@ == connect_error_message(*payload))
            },
            !connect_rejected(*payload) ==> (*payload matches ConnectPayload::Controller(desc)
                && events@.len() == 1 && (events@[0] matches GamepadPlatformEvent::Connected {
                id,
                connection,
            } && {
                &&& is_mex(seq_assigned(old(self).controllers@), id as int)
                &&& (connection matches GamepadConnection::Connected {
                    name,
                    vendor_id,
                    product_id,
                } && name@ == spec_connected_name(spec_vendor_label(desc.vendor_name), id as nat)
                    && vendor_id is None && product_id is None)
                &&& final(self).controllers@ == old(self).controllers@.push(
                    (ControllerEntry { index: Some(id), profile: spec_profile_for(desc) }),
                )
                &&& seq_assigned(final(self).controllers@) =~= seq_assigned(
                    old(self).controllers@,
                ).insert(id as int)
            })),
    {
        let mut events: Vec<GamepadPlatformEvent> = Vec::new();
        let desc = match payload {
            ConnectPayload::NoObject => {
                events.push(
                    GamepadPlatformEvent::Error(
                        GamepadError::Platform(
                            "Failed to get object from NSNotification".to_owned(),
                        ),
                    ),
                );
                return events;
            },
            ConnectPayload::NotAController => {
                events.push(
                    GamepadPlatformEvent::Error(
                        GamepadError::Platform(
                            "Failed to downcast to GCController from NSNotification object".to_owned(),
                        ),
                    ),
                );
                return events;
            },
            ConnectPayload::Controller(desc) => desc,
        };
        if !desc.has_extended_gamepad {
            events.push(
                GamepadPlatformEvent::Error(
                    GamepadError::Platform(
                        "Failed to get GCExtendedGamepad from GCController".to_owned(),
                    ),
                ),
            );
            return events;
        }
        let profile = match Self::get_gamepad_profile(desc) {
            Ok(profile) => profile,
            Err(e) => {
                events.push(GamepadPlatformEvent::Error(e));
                return events;
            },
        };
        let ghost before = self.controllers@;
        // Record the device unassigned first — the native convention marks
        // it with player index -1 — so the scan for a free index skips it.
        self.controllers.push(ControllerEntry { index: None, profile });
        proof {
            lemma_push_unassigned_keeps_assigned(before, profile);
        }
        let idx = self.get_next_player_index();
        // Assign the index the scan found.
        let slot = self.controllers.len() - 1;
        self.controllers[slot] = ControllerEntry { index: Some(idx), profile };
        proof {
            assert(self.controllers@ =~= before.push(
                (ControllerEntry { index: Some(idx), profile }),
            ));
            lemma_push_assigned(before, profile, idx);
        }
        let vendor: String = match &desc.vendor_name {
            Some(v) => v.clone(),
            None => "Unknown Apple Gamepad".to_owned(),
        };
        let name = connected_name(vendor.as_str(), idx);
        events.push(
            GamepadPlatformEvent::Connected {
                id: idx,
                connection: GamepadConnection::Connected {
                    name,
                    vendor_id: None,
                    product_id: None,
                },
            },
        );
        events
    }

    /// Handles one native disconnect notification: the device leaves the
    /// enumeration — freeing its player index — and exactly one disconnect
    /// event is emitted. A payload without a controller is ignored.
    pub fn process_disconnect(&mut self, payload: &DisconnectPayload) -> (events: Vec<
        GamepadPlatformEvent,
    >)
        requires
            entries_distinct(old(self).controllers@),
        ensures
            entries_distinct(final(self).controllers@),
            *payload matches DisconnectPayload::Controller { index } ==> {
                &&& final(self).controllers@ == entries_without(old(self).controllers@, index)
                &&& events@.len() == 1
                &&& events@[0] == (GamepadPlatformEvent::Disconnected { id: index })
                &&& seq_assigned(final(self).controllers@) =~= seq_assigned(
                    old(self).controllers@,
                ).remove(index as int)
            },
            !(*payload matches DisconnectPayload::Controller { .. }) ==> {
                &&& final(self).controllers@ == old(self).controllers@
                &&& events@.len() == 0
            },
    {
        let mut events: Vec<GamepadPlatformEvent> = Vec::new();
        let index = match payload {
            DisconnectPayload::NoObject => {
                return events;
            },
            DisconnectPayload::NotAController => {
                return events;
            },
            DisconnectPayload::Controller { index } => *index,
        };
        let ghost before = self.controllers@;
        let mut kept: Vec<ControllerEntry> = Vec::new();
        let n = self.controllers.len();
        for i in 0..n
            invariant
                n == before.len(),
                before == self.controllers@,
                kept@ == entries_without(before.take(i as int), index),
        {
            let entry = self.controllers[i];
            let keep = match entry.index {
                Some(held) => held != index,
                None => true,
            };
            proof {
                assert(before.take(i + 1).drop_last() =~= before.take(i as int));
                assert(before.take(i + 1).last() == before[i as int]);
            }
            if keep {
                kept.push(entry);
            }
            proof {
                assert(kept@ == entries_without(before.take(i + 1), index));
            }
        }
        proof {
            assert(before.take(n as int) =~= before);
        }
        self.controllers = kept;
        events.push(GamepadPlatformEvent::Disconnected { id: index });
        proof {
            lemma_entries_without(before, index);
        }
        events
    }

    /// Handles one native per-element change notification for the device at
    /// player index `id`: if that device is connected and its profile maps
    /// the element, exactly one input-change event comes back; an element
    /// outside the canonical model, or an id no connected device holds — a
    /// change racing a disconnect — yields nothing.
    pub fn process_element_change(
        &self,
        id: GamepadId,
        element: &profiles::NativeElement,
    ) -> (event: Option<GamepadPlatformEvent>)
        requires
            entries_distinct(self.controllers@),
        ensures
            !entry_with_index(self.controllers@, self.controllers@.len() as int, id) ==> event
                is None,
            forall|j: int|
                0 <= j < self.controllers@.len() && (#[trigger] self.controllers@[j].index)
                    == Some(id) ==> event == match self.controllers@[j].profile.spec_element_changed(
                    *element,
                ) {
                    Some(change) => Some(GamepadPlatformEvent::InputChanged { id, change }),
                    None => None::<GamepadPlatformEvent>,
                },
    {
        let n = self.controllers.len();
        for i in 0..n
            invariant
                n == self.controllers@.len(),
                entries_distinct(self.controllers@),
                forall|j: int| 0 <= j < i ==> (#[trigger] self.controllers@[j].index) != Some(id),
        {
            let entry = self.controllers[i];
            if let Some(held) = entry.index {
                if held == id {
                    let event = match entry.profile.element_changed(element) {
                        Some(change) => Some(GamepadPlatformEvent::InputChanged { id, change }),
                        None => None,
                    };
                    proof {
                        assert forall|j: int|
                            0 <= j < self.controllers@.len()
                                && (#[trigger] self.controllers@[j].index) == Some(id) implies j
                            == i as int by {
                            if j != i as int {
                                assert(self.controllers@[j].index
                                    != self.controllers@[i as int].index);
                            }
                        }
                    }
                    return event;
                }
            }
        }
        None
    }
}

/// Publishes each event on the driver's outbound channel, in order. A
/// failed send — the consumer side is gone — is fatal to that event only:
/// it is dropped, the rest are still offered, and the caller never panics.
fn publish_events(
    tx: &crossbeam::channel::Sender<GamepadPlatformEvent>,
    events: Vec<GamepadPlatformEvent>,
) {
    let mut events = events;
    while events.len() > 0
        decreases events@.len(),
    {
        let event = events.remove(0);
        let _ = crate::channel::send_event(tx, event);
    }
}

impl AppleGameControllerPlatform {
    /// The connect-notification callback: processes the payload as
    /// [`Self::process_connect`] does and publishes the resulting events.
    pub fn connect_notification(
        &mut self,
        payload: &ConnectPayload,
        tx: &crossbeam::channel::Sender<GamepadPlatformEvent>,
    )
        requires
            entries_distinct(old(self).controllers@),
            old(self).controllers@.len() < usize::MAX,
        ensures
            entries_distinct(final(self).controllers@),
            connect_rejected(*payload) ==> final(self).controllers@ == old(self).controllers@,
            !connect_rejected(*payload) ==> seq_assigned(final(self).controllers@)
                =~= connect_step_set(seq_assigned(old(self).controllers@), *payload),
    {
        let ghost before = seq_assigned(self.controllers@);
        let events = self.process_connect(payload);
        proof {
            if !connect_rejected(*payload) {
                let id = events@[0]->Connected_id;
                assert(is_mex(before, mex_of(before))) by {
                    assert(is_mex(before, id as int));
                }
                lemma_mex_unique(before, mex_of(before), id as int);
            }
        }
        publish_events(tx, events);
    }

    /// The disconnect-notification callback: processes the payload as
    /// [`Self::process_disconnect`] does and publishes the resulting events.
    pub fn disconnect_notification(
        &mut self,
        payload: &DisconnectPayload,
        tx: &crossbeam::channel::Sender<GamepadPlatformEvent>,
    )
        requires
            entries_distinct(old(self).controllers@),
        ensures
            entries_distinct(final(self).controllers@),
            *payload matches DisconnectPayload::Controller { index } ==> {
                &&& final(self).controllers@ == entries_without(old(self).controllers@, index)
                &&& seq_assigned(final(self).controllers@) =~= seq_assigned(
                    old(self).controllers@,
                ).remove(index as int)
            },
            !(*payload matches DisconnectPayload::Controller { .. }) ==> final(self).controllers@
                == old(self).controllers@,
    {
        let events = self.process_disconnect(payload);
        publish_events(tx, events);
    }

    /// The per-element change callback: maps the element through the
    /// device's resolved profile as [`Self::process_element_change`] does
    /// and publishes the input change, if the element maps to one.
    pub fn element_change_notification(
        &self,
        id: GamepadId,
        element: &profiles::NativeElement,
        tx: &crossbeam::channel::Sender<GamepadPlatformEvent>,
    )
        requires
            entries_distinct(self.controllers@),
    {
        let event = self.process_element_change(id, element);
        if let Some(event) = event {
            let _ = crate::channel::send_event(tx, event);
        }
    }
}

/// Recording a device as unassigned consumes no player index.
proof fn lemma_push_unassigned_keeps_assigned(s: Seq<ControllerEntry>, profile: ApplePlatformProfile)
    ensures
        seq_assigned(s.push(ControllerEntry { index: None, profile })) =~= seq_assigned(s),
        entries_distinct(s) ==> entries_distinct(
            s.push(ControllerEntry { index: None, profile }),
        ),
{
    let t = s.push(ControllerEntry { index: None, profile });
    assert forall|k: int| seq_assigned(t).contains(k) implies seq_assigned(s).contains(k) by {
        let j = choose|j: int| 0 <= j < t.len() && (#[trigger] t[j].index) == Some(k as usize);
        assert(0 <= j < s.len() && s[j].index == Some(k as usize));
    }
    assert forall|k: int| seq_assigned(s).contains(k) implies seq_assigned(t).contains(k) by {
        let j = choose|j: int| 0 <= j < s.len() && (#[trigger] s[j].index) == Some(k as usize);
        assert(t[j].index == Some(k as usize));
    }
}

/// Assigning a fresh index to the new device extends the assigned set by
/// exactly that index and keeps the indices distinct.
proof fn lemma_push_assigned(s: Seq<ControllerEntry>, profile: ApplePlatformProfile, idx: usize)
    requires
        entries_distinct(s),
        !seq_assigned(s).contains(idx as int),
    ensures
        seq_assigned(s.push(ControllerEntry { index: Some(idx), profile })) =~= seq_assigned(
            s,
        ).insert(idx as int),
        entries_distinct(s.push(ControllerEntry { index: Some(idx), profile })),
{
    let t = s.push(ControllerEntry { index: Some(idx), profile });
    assert forall|k: int| seq_assigned(t).contains(k) implies seq_assigned(s).insert(
        idx as int,
    ).contains(k) by {
        let j = choose|j: int| 0 <= j < t.len() && (#[trigger] t[j].index) == Some(k as usize);
        if j < s.len() {
            assert(s[j].index == Some(k as usize));
        }
    }
    assert forall|k: int| seq_assigned(s).insert(idx as int).contains(k) implies seq_assigned(
        t,
    ).contains(k) by {
        if k == idx as int {
            assert(t[s.len() as int].index == Some(idx));
        } else {
            let j = choose|j: int| 0 <= j < s.len() && (#[trigger] s[j].index) == Some(k as usize);
            assert(t[j].index == Some(k as usize));
        }
    }
    assert forall|i: int, j: int|
        0 <= i < j < t.len() && t[i].index is Some && t[j].index is Some implies t[i].index != t[
        j
    ].index by {
        if j == s.len() as int {
            if t[i].index == t[j].index {
                assert(s[i].index == Some(idx));
                assert(seq_assigned(s).contains(idx as int));
            }
        }
    }
}

/// The enumeration with every entry that holds player index `index`
/// removed, order otherwise kept.
pub open spec fn entries_without(s: Seq<ControllerEntry>, index: usize) -> Seq<ControllerEntry>
    decreases s.len(),
{
    if s.len() == 0 {
        Seq::empty()
    } else {
        let rest = entries_without(s.drop_last(), index);
        if s.last().index != Some(index) {
            rest.push(s.last())
        } else {
            rest
        }
    }
}

/// Every entry that survives the removal comes from the enumeration.
proof fn lemma_entries_without_contains(s: Seq<ControllerEntry>, index: usize, x: ControllerEntry)
    requires
        entries_without(s, index).contains(x),
    ensures
        s.contains(x),
        x.index != Some(index),
    decreases s.len(),
{
    if s.len() > 0 {
        let t = entries_without(s, index);
        let rest = entries_without(s.drop_last(), index);
        if s.last().index != Some(index) && x == s.last() {
            assert(s[s.len() - 1] == x);
        } else {
            assert(rest.contains(x)) by {
                let j = choose|j: int| 0 <= j < t.len() && t[j] == x;
                if s.last().index != Some(index) {
                    if j < t.len() - 1 {
                        assert(rest[j] == x);
                    }
                }
            }
            lemma_entries_without_contains(s.drop_last(), index, x);
            let j2 = choose|j2: int| 0 <= j2 < s.drop_last().len() && s.drop_last()[j2] == x;
            assert(s[j2] == x);
        }
    }
}

/// Every entry of the enumeration that does not hold `index` survives.
proof fn lemma_entries_without_keeps(s: Seq<ControllerEntry>, index: usize, x: ControllerEntry)
    requires
        s.contains(x),
        x.index != Some(index),
    ensures
        entries_without(s, index).contains(x),
    decreases s.len(),
{
    if s.len() > 0 {
        let t = entries_without(s, index);
        let rest = entries_without(s.drop_last(), index);
        if x == s.last() {
            assert(t[t.len() - 1] == x);
        } else {
            assert(s.drop_last().contains(x)) by {
                let j = choose|j: int| 0 <= j < s.len() && s[j] == x;
                assert(s.drop_last()[j] == x);
            }
            lemma_entries_without_keeps(s.drop_last(), index, x);
            let j2 = choose|j2: int| 0 <= j2 < rest.len() && rest[j2] == x;
            if s.last().index != Some(index) {
                assert(t[j2] == x);
            }
        }
    }
}

/// Removing every entry that holds a player index keeps the remaining
/// indices distinct and frees exactly that index.
proof fn lemma_entries_without(s: Seq<ControllerEntry>, index: usize)
    requires
        entries_distinct(s),
    ensures
        entries_distinct(entries_without(s, index)),
        seq_assigned(entries_without(s, index)) =~= seq_assigned(s).remove(index as int),
    decreases s.len(),
{
    let t = entries_without(s, index);
    if s.len() == 0 {
        assert(seq_assigned(t) =~= seq_assigned(s).remove(index as int)) by {
            assert forall|k: int| !seq_assigned(s).contains(k) by {
                if seq_assigned(s).contains(k) {
                    let j = choose|j: int|
                        0 <= j < s.len() && (#[trigger] s[j].index) == Some(k as usize);
                }
            }
            assert forall|k: int| !seq_assigned(t).contains(k) by {
                if seq_assigned(t).contains(k) {
                    let j = choose|j: int|
                        0 <= j < t.len() && (#[trigger] t[j].index) == Some(k as usize);
                }
            }
        }
    } else {
        let dl = s.drop_last();
        assert(entries_distinct(dl)) by {
            assert forall|i: int, j: int|
                0 <= i < j < dl.len() && dl[i].index is Some && dl[j].index is Some implies dl[
                i
            ].index != dl[j].index by {
                assert(dl[i] == s[i] && dl[j] == s[j]);
            }
        }
        lemma_entries_without(dl, index);
        let rest = entries_without(dl, index);
        assert forall|i: int, j: int|
            0 <= i < j < t.len() && t[i].index is Some && t[j].index is Some implies t[i].index
            != t[j].index by {
            if s.last().index != Some(index) && j == t.len() - 1 {
                if t[i].index == t[j].index {
                    assert(rest[i] == t[i]);
                    assert(rest.contains(rest[i]));
                    lemma_entries_without_contains(dl, index, rest[i]);
                    let p = choose|p: int| 0 <= p < dl.len() && dl[p] == rest[i];
                    assert(s[p].index == s[s.len() - 1].index);
                }
            } else {
                assert(rest[i] == t[i] && rest[j] == t[j]);
            }
        }
        assert forall|k: int| seq_assigned(t).contains(k) implies seq_assigned(s).remove(
            index as int,
        ).contains(k) by {
            let j = choose|j: int| 0 <= j < t.len() && (#[trigger] t[j].index) == Some(k as usize);
            assert(t.contains(t[j]));
            lemma_entries_without_contains(s, index, t[j]);
            let p = choose|p: int| 0 <= p < s.len() && s[p] == t[j];
            assert(s[p].index == Some(k as usize));
        }
        assert forall|k: int| seq_assigned(s).remove(index as int).contains(k) implies seq_assigned(
            t,
        ).contains(k) by {
            let j = choose|j: int| 0 <= j < s.len() && (#[trigger] s[j].index) == Some(k as usize);
            assert(s.contains(s[j]));
            lemma_entries_without_keeps(s, index, s[j]);
            let p = choose|p: int| 0 <= p < t.len() && t[p] == s[j];
            assert(t[p].index == Some(k as usize));
        }
    }
}

/// The profile a device of each implemented family resolves to.
pub open spec fn spec_profile_for(desc: ControllerDesc) -> ApplePlatformProfile {
    match desc.family {
        DeviceFamily::DualSense => ApplePlatformProfile::DualSense(
            DualSenseProfile { elements: desc.elements },
        ),
        DeviceFamily::DualShock => ApplePlatformProfile::DualShock(
            DualShockProfile { elements: desc.elements },
        ),
        DeviceFamily::Xbox => ApplePlatformProfile::Xbox(XboxProfile { elements: desc.elements }),
        DeviceFamily::Micro => ApplePlatformProfile::Generic(
            GenericProfile { elements: desc.elements },
        ),
        DeviceFamily::Generic => ApplePlatformProfile::Generic(
            GenericProfile { elements: desc.elements },
        ),
    }
}

/// How one connect notification changes the set of assigned player
/// indices: a rejected one leaves it untouched, an accepted one adds the
/// smallest free index.
pub open spec fn connect_step_set(s: Set<int>, payload: ConnectPayload) -> Set<int> {
    if connect_rejected(payload) {
        s
    } else {
        s.insert(mex_of(s))
    }
}

/// The assigned player indices after a sequence of connect notifications
/// and no disconnects, starting with no devices.
pub open spec fn indices_after_connects(payloads: Seq<ConnectPayload>) -> Set<int>
    decreases payloads.len(),
{
    if payloads.len() == 0 {
        Set::empty()
    } else {
        connect_step_set(indices_after_connects(payloads.drop_last()), payloads.last())
    }
}

/// How many of the connect notifications are accepted.
pub open spec fn count_accepted(payloads: Seq<ConnectPayload>) -> nat
    decreases payloads.len(),
{
    if payloads.len() == 0 {
        0
    } else {
        count_accepted(payloads.drop_last()) + if connect_rejected(payloads.last()) {
            0nat
        } else {
            1nat
        }
    }
}

/// For every sequence of connect notifications with no disconnects, the
/// assigned indices are exactly `0..n`, where `n` counts the accepted
/// notifications: no duplicates and no gaps, whatever the arrival order.
pub proof fn lemma_connects_fill_contiguously(payloads: Seq<ConnectPayload>)
    ensures
        indices_after_connects(payloads) =~= set_int_range(0, count_accepted(payloads) as int),
    decreases payloads.len(),
{
    if payloads.len() == 0 {
    } else {
        let prev = indices_after_connects(payloads.drop_last());
        let c = count_accepted(payloads.drop_last()) as int;
        lemma_connects_fill_contiguously(payloads.drop_last());
        assert(prev == set_int_range(0, c));
        if !connect_rejected(payloads.last()) {
            assert(is_mex(prev, c));
            assert(is_mex(prev, mex_of(prev)));
            lemma_mex_unique(prev, mex_of(prev), c);
            assert(prev.insert(c) =~= set_int_range(0, c + 1));
        }
    }
}

/// Disconnecting the device at index `k` out of `0..n` and then connecting
/// a new device hands out index `k` again — the gap is refilled — not `n`.
pub proof fn lemma_gap_refilled(n: int, k: int)
    requires
        0 <= k < n,
    ensures
        is_mex(set_int_range(0, n).remove(k), k),
        mex_of(set_int_range(0, n).remove(k)) == k,
{
    let s = set_int_range(0, n).remove(k);
    assert(is_mex(s, k));
    lemma_mex_unique(s, mex_of(s), k);
}

/// Two devices connect back to back from an empty driver: whichever
/// notification is processed first, the accepted pair receives indices 0
/// and 1 — a permutation of `{0, 1}` with no repeats.
pub proof fn lemma_racing_connects(first: ConnectPayload, second: ConnectPayload)
    requires
        !connect_rejected(first),
        !connect_rejected(second),
    ensures
        mex_of(Set::<int>::empty()) == 0,
        mex_of(Set::<int>::empty().insert(0)) == 1,
        indices_after_connects(seq![first, second]) =~= set_int_range(0, 2),
{
    let e = Set::<int>::empty();
    assert(is_mex(e, 0));
    assert(is_mex(e, mex_of(e)));
    lemma_mex_unique(e, mex_of(e), 0);
    let one = e.insert(0);
    assert(is_mex(one, 1));
    assert(is_mex(one, mex_of(one)));
    lemma_mex_unique(one, mex_of(one), 1);
    lemma_connects_fill_contiguously(seq![first, second]);
    assert(count_accepted(seq![first, second]) == 2) by {
        let both = seq![first, second];
        let once = seq![first];
        assert(both.last() == second);
        assert(both.drop_last() =~= once);
        assert(once.last() == first);
        assert(once.drop_last() =~= Seq::<ConnectPayload>::empty());
        assert(count_accepted(once.drop_last()) == 0);
        assert(count_accepted(once) == 1);
        assert(count_accepted(both) == count_accepted(both.drop_last()) + 1);
    }
}

/// Insertion sort over the collected player indices.
fn sort_player_indices(v: &mut Vec<usize>)
    ensures
        sorted_ascending(final(v)@),
        final(v)@.to_multiset() == old(v)@.to_multiset(),
        final(v)@.no_duplicates() == old(v)@.no_duplicates(),
        forall|x: usize| final(v)@.contains(x) == old(v)@.contains(x),
        final(v)@.len() == old(v)@.len(),
{
    broadcast use vstd::seq_lib::group_to_multiset_ensures;
    broadcast use vstd::multiset::group_multiset_axioms;

    let ghost orig = v@;
    if v.len() <= 1 {
        return ;
    }
    let mut i: usize = 1;
    while i < v.len()
        invariant
            1 <= i <= v@.len(),
            v@.len() == orig.len(),
            v@.to_multiset() == orig.to_multiset(),
            sorted_ascending(v@.subrange(0, i as int)),
        decreases v@.len() - i,
    {
        proof {
            assert forall|a: int, b: int|
                0 <= a < b <= i && b != i implies v@[a] <= v@[b] by {
                assert(v@.subrange(0, i as int)[a] == v@[a]);
                assert(v@.subrange(0, i as int)[b] == v@[b]);
            }
        }
        let mut j: usize = i;
        while j > 0 && v[j - 1] > v[j]
            invariant
                0 < i < v@.len(),
                0 <= j <= i,
                v@.len() == orig.len(),
                v@.to_multiset() == orig.to_multiset(),
                forall|a: int, b: int|
                    0 <= a < b <= i && b != j ==> v@[a] <= v@[b],
            decreases j,
        {
            let bigger = v[j - 1];
            let smaller = v[j];
            let ghost pre = v@;
            v[j - 1] = smaller;
            v[j] = bigger;
            proof {
                // The two writes swap adjacent elements, so the contents are
                // unchanged as a multiset.
                let mid = pre.update(j as int - 1, smaller);
                assert(v@ == mid.update(j as int, bigger));
                vstd::seq_lib::to_multiset_update(pre, j as int - 1, smaller);
                assert(mid.to_multiset() == pre.to_multiset().insert(smaller).remove(bigger));
                assert(mid[j as int] == smaller);
                vstd::seq_lib::to_multiset_update(mid, j as int, bigger);
                assert(v@.to_multiset() == mid.to_multiset().insert(bigger).remove(smaller));
                assert(pre[j as int - 1] == bigger);
                assert(pre.contains(bigger));
                vstd::seq_lib::to_multiset_contains(pre, bigger);
                assert(pre.to_multiset().count(bigger) > 0);
                assert(v@.to_multiset() =~= pre.to_multiset());
            }
            j -= 1;
        }
        proof {
            assert forall|a: int, b: int| 0 <= a < b <= i implies v@[a] <= v@[b] by {
                if b == j {
                    assert(j > 0 ==> v@[j as int - 1] <= v@[j as int]);
                    if a < j as int - 1 {
                        assert(v@[a] <= v@[j as int - 1]);
                    }
                }
            }
            assert(sorted_ascending(v@.subrange(0, i + 1)));
        }
        i += 1;
    }
    proof {
        if v@.len() > 1 {
            assert(v@.subrange(0, v@.len() as int) =~= v@);
        }
        if orig.no_duplicates() {
            orig.lemma_multiset_has_no_duplicates();
            v@.lemma_multiset_has_no_duplicates_conv();
        }
        if v@.no_duplicates() {
            v@.lemma_multiset_has_no_duplicates();
            orig.lemma_multiset_has_no_duplicates_conv();
        }
        assert forall|x: usize| v@.contains(x) == orig.contains(x) by {
            assert(v@.to_multiset().contains(x) == v@.contains(x));
            assert(orig.to_multiset().contains(x) == orig.contains(x));
        }
    }
}

} // verus!
