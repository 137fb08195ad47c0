//! One key's debounce state machine, the actions a key can have, and the
//! events and messages that flow out of it.

use vstd::prelude::*;

use crate::matrix::LAYERS;

verus! {

/// HID keyboard usage "no event indicated": what an inactive position reports.
pub const NO_EVENT_INDICATED: u8 = 0x00;

/// HID keyboard usage "error undefined": what a position without an action reports.
pub const ERROR_UNDEFINED: u8 = 0x03;

/// What a key does on one layer. A key code is a HID keyboard usage ID.
#[derive(Debug, Clone, Copy, PartialEq, Eq, Structural)]
pub enum KeyAction {
    LayerShiftHold,
    KeyCode(u8),
    NoAction,
}

impl KeyAction {
    /// The usage ID this action puts in a host report while its key is held.
    pub open spec fn spec_symbol(self) -> u8 {
        match self {
            KeyAction::KeyCode(k) => k,
            KeyAction::LayerShiftHold => NO_EVENT_INDICATED,
            KeyAction::NoAction => ERROR_UNDEFINED,
        }
    }

    pub fn symbol(&self) -> (r: u8)
        ensures
            r == self.spec_symbol(),
    {
        match self {
            KeyAction::KeyCode(k) => *k,
            KeyAction::LayerShiftHold => NO_EVENT_INDICATED,
            KeyAction::NoAction => ERROR_UNDEFINED,
        }
    }
}

impl From<u8> for KeyAction {
    fn from(value: u8) -> (r: KeyAction)
        ensures
            r == KeyAction::KeyCode(value),
    {
        KeyAction::KeyCode(value)
    }
}

impl vstd::std_specs::convert::FromSpecImpl<u8> for KeyAction {
    open spec fn obeys_from_spec() -> bool {
        true
    }

    open spec fn from_spec(v: u8) -> KeyAction {
        KeyAction::KeyCode(v)
    }
}

impl From<KeyAction> for u8 {
    fn from(value: KeyAction) -> (r: u8)
        ensures
            r == value.spec_symbol(),
    {
        value.symbol()
    }
}

impl vstd::std_specs::convert::FromSpecImpl<KeyAction> for u8 {
    open spec fn obeys_from_spec() -> bool {
        true
    }

    open spec fn from_spec(v: KeyAction) -> u8 {
        v.spec_symbol()
    }
}


/// An event produced by a key's state machine, or carried over the link.
#[derive(Debug, Clone, Copy, PartialEq, Eq, Structural)]
pub enum StateChange {
    SetActive,
    SetInactive,
    DebounceTick,
    LayerUp,
    LayerDown,
    NoChange,
}

/// The ordinal of each event on the wire.
pub open spec fn spec_ordinal(sc: StateChange) -> u8 {
    match sc {
        StateChange::SetActive => 0,
        StateChange::SetInactive => 1,
        StateChange::DebounceTick => 2,
        StateChange::LayerUp => 3,
        StateChange::LayerDown => 4,
        StateChange::NoChange => 5,
    }
}

/// The event with a given wire ordinal, if there is one.
pub open spec fn spec_from_ordinal(value: u8) -> Option<StateChange> {
    if value == 0 {
        Some(StateChange::SetActive)
    } else if value == 1 {
        Some(StateChange::SetInactive)
    } else if value == 2 {
        Some(StateChange::DebounceTick)
    } else if value == 3 {
        Some(StateChange::LayerUp)
    } else if value == 4 {
        Some(StateChange::LayerDown)
    } else if value == 5 {
        Some(StateChange::NoChange)
    } else {
        None
    }
}

/// Reading a wire ordinal: the event it names, or the byte back as an error.
pub open spec fn spec_parse_ordinal(value: u8) -> Result<StateChange, UnknownOrdinal> {
    match spec_from_ordinal(value) {
        Some(sc) => Ok(sc),
        None => Err(UnknownOrdinal(value)),
    }
}

/// A byte that names no event.
#[derive(Debug, Clone, Copy, PartialEq, Eq, Structural)]
pub struct UnknownOrdinal(pub u8);

impl StateChange {
    /// The wire ordinal of this event.
    pub fn ordinal(self) -> (r: u8)
        ensures
            r == spec_ordinal(self),
            r < 6,
    {
        match self {
            StateChange::SetActive => 0,
            StateChange::SetInactive => 1,
            StateChange::DebounceTick => 2,
            StateChange::LayerUp => 3,
            StateChange::LayerDown => 4,
            StateChange::NoChange => 5,
        }
    }
}

impl TryFrom<u8> for StateChange {
    type Error = UnknownOrdinal;

    fn try_from(value: u8) -> (r: Result<StateChange, UnknownOrdinal>)
        ensures
            r == spec_parse_ordinal(value),
    {
        match value {
            0 => Ok(StateChange::SetActive),
            1 => Ok(StateChange::SetInactive),
            2 => Ok(StateChange::DebounceTick),
            3 => Ok(StateChange::LayerUp),
            4 => Ok(StateChange::LayerDown),
            5 => Ok(StateChange::NoChange),
            _ => Err(UnknownOrdinal(value)),
        }
    }
}

impl vstd::std_specs::convert::TryFromSpecImpl<u8> for StateChange {
    open spec fn obeys_try_from_spec() -> bool {
        true
    }

    open spec fn try_from_spec(v: u8) -> Result<StateChange, UnknownOrdinal> {
        spec_parse_ordinal(v)
    }
}

/// An event addressed to one grid position, as carried between the halves.
#[derive(Debug, Clone, Copy, PartialEq, Eq, Structural)]
pub struct Message {
    pub state_change: StateChange,
    pub row: usize,
    pub col: usize,
}

impl Message {
    pub fn new(state_change: StateChange, row: usize, col: usize) -> (r: Self)
        ensures
            r == (Message { state_change, row, col }),
    {
        Message { state_change, row, col }
    }
}


/// The event a key emits when it flips to `to_active` with `action` resolved
/// on the current layer: layer-shift keys move the layer instead of being reported.
pub open spec fn transition_event(action: KeyAction, to_active: bool) -> StateChange {
    if action is LayerShiftHold {
        if to_active {
            StateChange::LayerUp
        } else {
            StateChange::LayerDown
        }
    } else if to_active {
        StateChange::SetActive
    } else {
        StateChange::SetInactive
    }
}

/// One physical switch position: its action on each layer and its debounced state.
#[derive(Debug, Clone, Copy)]
pub struct Key {
    pub keycodes: [KeyAction; LAYERS],
    pub is_active: bool,
    pub debounce_count: u8,
}

impl Key {
    /// The counter after one tick: one less, floored at zero.
    pub open spec fn ticked_count(self) -> u8 {
        if self.debounce_count == 0 {
            0
        } else {
            (self.debounce_count - 1) as u8
        }
    }

    /// The key after one sample and the event it emits.
    ///
    /// While the counter is above zero the key is debouncing: the sample is
    /// ignored, the counter ticks down by one and a debounce tick is emitted.
    /// Otherwise a sample that differs from the debounced state is accepted:
    /// the state flips and a window of `debounce_limit` samples opens.
    pub open spec fn step(self, to_active: bool, debounce_limit: u8, active_layer: usize) -> (
        Key,
        Option<StateChange>,
    ) {
        if self.debounce_count > 0 {
            (Key { debounce_count: self.ticked_count(), ..self }, Some(StateChange::DebounceTick))
        } else if to_active == self.is_active {
            (self, None)
        } else {
            (
                Key { is_active: to_active, debounce_count: debounce_limit, ..self },
                Some(transition_event(self.keycodes[active_layer as int], to_active)),
            )
        }
    }

    /// Feeds one raw sample to the key's debounce state machine.
    pub fn sync_state(&mut self, to_active: bool, debounce_limit: u8, active_layer: usize) -> (r:
        Option<StateChange>)
        requires
            active_layer < LAYERS,
        ensures
            (*final(self), r) == old(self).step(to_active, debounce_limit, active_layer),
    {
        if self.debounce_count > 0 {
            self.tick_debounce();
            Some(StateChange::DebounceTick)
        } else if to_active {
            if self.is_active {
                None
            } else {
                self.set_active();
                self.set_debounce(debounce_limit);
                match self.keycodes[active_layer] {
                    KeyAction::LayerShiftHold => Some(StateChange::LayerUp),
                    _ => Some(StateChange::SetActive),
                }
            }
        } else if self.is_active {
            self.set_inactive();
            self.set_debounce(debounce_limit);
            match self.keycodes[active_layer] {
                KeyAction::LayerShiftHold => Some(StateChange::LayerDown),
                _ => Some(StateChange::SetInactive),
            }
        } else {
            None
        }
    }

    fn set_active(&mut self)
        ensures
            *final(self) == (Key { is_active: true, ..*old(self) }),
    {
        self.is_active = true;
    }

    fn set_inactive(&mut self)
        ensures
            *final(self) == (Key { is_active: false, ..*old(self) }),
    {
        self.is_active = false;
    }

    fn set_debounce(&mut self, count: u8)
        ensures
            *final(self) == (Key { debounce_count: count, ..*old(self) }),
    {
        self.debounce_count = count;
    }

    /// Ticks the debounce counter once, floored at zero.
    pub fn tick_debounce(&mut self)
        ensures
            *final(self) == (Key { debounce_count: old(self).ticked_count(), ..*old(self) }),
    {
        self.debounce_count = self.debounce_count.saturating_sub(1);
    }

    pub fn is_active(&self) -> (r: bool)
        ensures
            r == self.is_active,
    {
        self.is_active
    }
}


/// The key after a run of samples taken on one layer, and the events emitted.
pub open spec fn run(k: Key, samples: Seq<bool>, debounce_limit: u8, active_layer: usize) -> (
    Key,
    Seq<Option<StateChange>>,
)
    decreases samples.len(),
{
    if samples.len() == 0 {
        (k, Seq::empty())
    } else {
        let (next, e) = k.step(samples[0], debounce_limit, active_layer);
        let (last, rest) = run(next, samples.drop_first(), debounce_limit, active_layer);
        (last, seq![e] + rest)
    }
}

/// The debounced state only changes on a sample taken once the window opened by
/// the previous transition has run out (the counter is at zero), and only to
/// the state that sample asks for.
pub proof fn lemma_state_changes_only_after_window(
    k: Key,
    to_active: bool,
    debounce_limit: u8,
    active_layer: usize,
)
    ensures
        k.step(to_active, debounce_limit, active_layer).0.is_active != k.is_active ==> {
            &&& k.debounce_count == 0
            &&& k.step(to_active, debounce_limit, active_layer).0.is_active == to_active
            &&& k.step(to_active, debounce_limit, active_layer).0.debounce_count
                == debounce_limit
        },
{
}

/// Outside a debounce window, samples that agree with the debounced state emit
/// nothing and leave the key as it is, however many there are.
pub proof fn lemma_steady_samples_are_idempotent(
    k: Key,
    samples: Seq<bool>,
    debounce_limit: u8,
    active_layer: usize,
)
    requires
        k.debounce_count == 0,
        forall|i: int| 0 <= i < samples.len() ==> samples[i] == k.is_active,
    ensures
        run(k, samples, debounce_limit, active_layer).0 == k,
        run(k, samples, debounce_limit, active_layer).1.len() == samples.len(),
        forall|i: int|
            0 <= i < samples.len() ==> #[trigger] run(k, samples, debounce_limit, active_layer).1[i]
                is None,
    decreases samples.len(),
{
    if samples.len() > 0 {
        let rest = samples.drop_first();
        assert(k.step(samples[0], debounce_limit, active_layer) == (k, None::<StateChange>));
        lemma_steady_samples_are_idempotent(k, rest, debounce_limit, active_layer);
        let events = run(k, samples, debounce_limit, active_layer).1;
        assert forall|i: int| 0 <= i < samples.len() implies #[trigger] events[i] is None by {
            if i > 0 {
                assert(events[i] == run(k, rest, debounce_limit, active_layer).1[i - 1]);
            }
        }
    }
}

/// While the counter is above zero every sample, whatever it asks for,
/// emits a debounce tick, lowers the counter by one and leaves the debounced
/// state alone.
proof fn lemma_window_ticks(k: Key, samples: Seq<bool>, debounce_limit: u8, active_layer: usize)
    requires
        samples.len() <= k.debounce_count,
    ensures
        run(k, samples, debounce_limit, active_layer).0 == (Key {
            debounce_count: (k.debounce_count - samples.len()) as u8,
            ..k
        }),
        run(k, samples, debounce_limit, active_layer).1.len() == samples.len(),
        forall|i: int|
            0 <= i < samples.len() ==> #[trigger] run(k, samples, debounce_limit, active_layer).1[i]
                == Some(StateChange::DebounceTick),
    decreases samples.len(),
{
    if samples.len() > 0 {
        let rest = samples.drop_first();
        let (next, e) = k.step(samples[0], debounce_limit, active_layer);
        assert(e == Some(StateChange::DebounceTick));
        lemma_window_ticks(next, rest, debounce_limit, active_layer);
        let events = run(k, samples, debounce_limit, active_layer).1;
        assert forall|i: int| 0 <= i < samples.len() implies #[trigger] events[i] == Some(
            StateChange::DebounceTick,
        ) by {
            if i > 0 {
                assert(events[i] == run(next, rest, debounce_limit, active_layer).1[i - 1]);
            }
        }
    }
}

/// After an accepted transition with a window of `debounce_limit`, exactly
/// the next `debounce_limit` samples emit debounce ticks, whatever they ask
/// for, and leave the state alone; the sample after them is no longer held
/// back, and is accepted when it differs from the state.
pub proof fn lemma_debounce_window_length(
    k: Key,
    samples: Seq<bool>,
    to_active: bool,
    debounce_limit: u8,
    active_layer: usize,
)
    requires
        k.debounce_count == debounce_limit,
        samples.len() == debounce_limit,
    ensures
        ({
            let (held, events) = run(k, samples, debounce_limit, active_layer);
            &&& events.len() == debounce_limit
            &&& forall|i: int|
                0 <= i < events.len() ==> #[trigger] events[i] == Some(StateChange::DebounceTick)
            &&& held.is_active == k.is_active
            &&& held.debounce_count == 0
            &&& held.step(to_active, debounce_limit, active_layer).1 != Some(
                StateChange::DebounceTick,
            )
            &&& to_active != k.is_active ==> held.step(
                to_active,
                debounce_limit,
                active_layer,
            ).0.is_active == to_active
        }),
{
    lemma_window_ticks(k, samples, debounce_limit, active_layer);
}

/// A key whose action on the current layer is a layer shift never emits
/// `SetActive` or `SetInactive`: its transitions are `LayerUp` and `LayerDown`.
pub proof fn lemma_layer_shift_emits_only_layer_events(
    k: Key,
    to_active: bool,
    debounce_limit: u8,
    active_layer: usize,
)
    requires
        k.keycodes[active_layer as int] is LayerShiftHold,
    ensures
        ({
            let (next, e) = k.step(to_active, debounce_limit, active_layer);
            &&& e != Some(StateChange::SetActive)
            &&& e != Some(StateChange::SetInactive)
            &&& next.is_active != k.is_active ==> e == Some(
                if to_active {
                    StateChange::LayerUp
                } else {
                    StateChange::LayerDown
                },
            )
        }),
{
}

/// After an accepted transition with a window of `debounce_limit`, once the
/// window has gone by (the `debounce_limit` samples it holds back, then any
/// number of samples that agree with the state), a sample asking for the
/// other state is accepted: the state flips, a new window opens and the
/// transition's event is emitted.
pub proof fn lemma_accepted_after_window(
    k: Key,
    window: Seq<bool>,
    steady: Seq<bool>,
    debounce_limit: u8,
    active_layer: usize,
)
    requires
        k.debounce_count == debounce_limit,
        window.len() == debounce_limit,
        forall|i: int| 0 <= i < steady.len() ==> steady[i] == k.is_active,
    ensures
        ({
            let held = run(
                run(k, window, debounce_limit, active_layer).0,
                steady,
                debounce_limit,
                active_layer,
            ).0;
            let (next, e) = held.step(!k.is_active, debounce_limit, active_layer);
            &&& next.is_active == !k.is_active
            &&& next.debounce_count == debounce_limit
            &&& next.keycodes == k.keycodes
            &&& e == Some(transition_event(k.keycodes[active_layer as int], !k.is_active))
        }),
{
    lemma_window_ticks(k, window, debounce_limit, active_layer);
    let after = run(k, window, debounce_limit, active_layer).0;
    lemma_steady_samples_are_idempotent(after, steady, debounce_limit, active_layer);
}

} // verus!
