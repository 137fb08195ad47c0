//! The key grid: layer selection, sampling during a scan, messages from the
//! other half and the host report.

use vstd::prelude::*;

use crate::key::{Key, Message, StateChange, NO_EVENT_INDICATED};
use crate::layout::{default_binding, default_layout};
use crate::link::{serialize, spec_frame};

verus! {

/// Number of rows of the key grid.
pub const ROWS: usize = 6;

/// Number of columns of the key grid.
pub const COLS: usize = 12;

/// Number of layers each key has an action for.
pub const LAYERS: usize = 2;

/// Number of positions in the grid, and so of symbols in a report.
pub const KEYS: usize = ROWS * COLS;

/// The grid of keys, row by row.
pub type Layer = [[Key; COLS]; ROWS];

/// A host report: one HID usage ID per grid position, row by row.
pub type Report = heapless::Vec<u8, KEYS>;

/// heapless::Vec, a vector of fixed capacity; what a report holds is read
/// through `report_symbols`.
#[verifier::external_type_specification]
#[verifier::external_body]
#[verifier::reject_recursive_types(T)]
pub struct ExHeaplessVec<T, const N: usize>(heapless::Vec<T, N>);

/// The symbols a report holds, in order.
pub uninterp spec fn report_symbols(report: Report) -> Seq<u8>;

/// Relies on heapless::Vec::new: the vector starts empty.
#[verifier::external_body]
fn report_new() -> (r: Report)
    ensures
        report_symbols(r) == Seq::<u8>::empty(),
{
    heapless::Vec::new()
}

/// Relies on heapless::Vec::push: below the capacity `KEYS` the item is
/// appended; at capacity the vector is left alone and the item handed back.
#[verifier::external_body]
fn report_push(report: &mut Report, symbol: u8) -> (r: Result<(), u8>)
    ensures
        report_symbols(*old(report)).len() < KEYS ==> r is Ok,
        report_symbols(*old(report)).len() < KEYS ==> report_symbols(*final(report))
            == report_symbols(*old(report)).push(symbol),
        report_symbols(*old(report)).len() >= KEYS ==> r is Err && r->Err_0 == symbol,
        report_symbols(*old(report)).len() >= KEYS ==> report_symbols(*final(report))
            == report_symbols(*old(report)),
{
    report.push(symbol)
}

/// The layer after a layer-up request: one higher, held below `LAYERS`.
pub open spec fn layer_above(layer: usize) -> usize {
    if layer + 1 < LAYERS {
        (layer + 1) as usize
    } else {
        layer
    }
}

/// The layer after a layer-down request: one lower, held at zero.
pub open spec fn layer_below(layer: usize) -> usize {
    if layer == 0 {
        0
    } else {
        (layer - 1) as usize
    }
}

/// The layer after the primary half applies `event`: layer shifts move it,
/// every other event leaves it.
pub open spec fn layer_after_event(layer: usize, event: Option<StateChange>) -> usize {
    match event {
        Some(StateChange::LayerUp) => layer_above(layer),
        Some(StateChange::LayerDown) => layer_below(layer),
        _ => layer,
    }
}

/// The key grid and the layer its actions are currently read on.
pub struct Matrix {
    pub layout: Layer,
    pub active_layer: usize,
}

impl Matrix {
    /// The active layer is always one of the defined layers.
    pub open spec fn wf(self) -> bool {
        self.active_layer < LAYERS
    }

    pub open spec fn key_at(self, row: int, col: int) -> Key {
        self.layout[row][col]
    }

    /// `after` holds the same keys as `self` except possibly at `row`, `col`.
    pub open spec fn same_keys_except(self, after: Matrix, row: int, col: int) -> bool {
        forall|r: int, c: int|
            0 <= r < ROWS && 0 <= c < COLS && (r != row || c != col) ==> #[trigger] after.key_at(
                r,
                c,
            ) == self.key_at(r, c)
    }

    /// What the position at `row`, `col` reports: its action's symbol on the
    /// current layer while it is held, "no event" otherwise.
    pub open spec fn symbol_at(self, row: int, col: int) -> u8 {
        let k = self.key_at(row, col);
        if k.is_active {
            k.keycodes[self.active_layer as int].spec_symbol()
        } else {
            NO_EVENT_INDICATED
        }
    }

    /// The whole report, row by row.
    pub open spec fn spec_report(self) -> Seq<u8> {
        Seq::new(KEYS as nat, |i: int| self.symbol_at(i / COLS as int, i % COLS as int))
    }

    /// The key at `row`, `col` after it is handed `to_active`, and the event it emits.
    pub open spec fn sampled(self, row: int, col: int, to_active: bool, debounce_limit: u8) -> (
        Key,
        Option<StateChange>,
    ) {
        self.key_at(row, col).step(to_active, debounce_limit, self.active_layer)
    }

    /// A matrix on the default layout (`default_binding`), every key idle, on
    /// the first layer.
    pub fn new() -> (r: Matrix)
        ensures
            r.wf(),
            r.active_layer == 0,
            forall|row: int, col: int|
                0 <= row < ROWS && 0 <= col < COLS ==> (#[trigger] r.key_at(row, col)).keycodes[0]
                    == default_binding(row, col).0 && r.key_at(row, col).keycodes[1]
                    == default_binding(row, col).1 && !r.key_at(row, col).is_active && r.key_at(
                    row,
                    col,
                ).debounce_count == 0,
    {
        Matrix { layout: default_layout(), active_layer: 0 }
    }

    pub fn get_key(&self, row: usize, col: usize) -> (r: &Key)
        requires
            row < ROWS,
            col < COLS,
        ensures
            *r == self.key_at(row as int, col as int),
    {
        &self.layout[row][col]
    }

    pub fn get_key_mut(&mut self, row: usize, col: usize) -> (r: &mut Key)
        requires
            row < ROWS,
            col < COLS,
        ensures
            *r == old(self).key_at(row as int, col as int),
            final(self).key_at(row as int, col as int) == *final(r),
            old(self).same_keys_except(*final(self), row as int, col as int),
            final(self).active_layer == old(self).active_layer,
    {
        &mut self.layout[row][col]
    }

    pub fn increment_layer(&mut self)
        requires
            old(self).wf(),
        ensures
            final(self).wf(),
            final(self).layout == old(self).layout,
            final(self).active_layer == layer_above(old(self).active_layer),
    {
        if self.active_layer + 1 < LAYERS {
            self.active_layer += 1;
        }
    }

    pub fn decrement_layer(&mut self)
        requires
            old(self).wf(),
        ensures
            final(self).wf(),
            final(self).layout == old(self).layout,
            final(self).active_layer == layer_below(old(self).active_layer),
    {
        self.active_layer = self.active_layer.saturating_sub(1);
    }

    /// Selects a layer; a number that names no layer is ignored.
    pub fn set_active_layer(&mut self, layer_number: usize)
        ensures
            final(self).layout == old(self).layout,
            final(self).active_layer == if layer_number < LAYERS {
                layer_number
            } else {
                old(self).active_layer
            },
    {
        if layer_number < LAYERS {
            self.active_layer = layer_number;
        }
    }

    /// The symbols of every position, row by row, read on the current layer.
    pub fn report_active(&self) -> (r: Report)
        requires
            self.wf(),
        ensures
            report_symbols(r) == self.spec_report(),
    {
        let mut report = report_new();
        let mut row: usize = 0;
        while row < ROWS
            invariant
                self.wf(),
                row <= ROWS,
                report_symbols(report).len() == row * COLS,
                forall|i: int|
                    0 <= i < row * COLS ==> #[trigger] report_symbols(report)[i] == self.symbol_at(
                        i / COLS as int,
                        i % COLS as int,
                    ),
            decreases ROWS - row,
        {
            let mut col: usize = 0;
            while col < COLS
                invariant
                    self.wf(),
                    row < ROWS,
                    col <= COLS,
                    report_symbols(report).len() == row * COLS + col,
                    forall|i: int|
                        0 <= i < row * COLS + col ==> #[trigger] report_symbols(report)[i]
                            == self.symbol_at(i / COLS as int, i % COLS as int),
                decreases COLS - col,
            {
                let key = &self.layout[row][col];
                let symbol = if key.is_active {
                    key.keycodes[self.active_layer].symbol()
                } else {
                    NO_EVENT_INDICATED
                };
                let _ = report_push(&mut report, symbol);
                assert((row * COLS + col) / COLS as int == row as int && (row * COLS + col) % COLS as int == col as int) by (nonlinear_arith)
                    requires col < COLS;
                col += 1;
            }
            row += 1;
        }
        assert(report_symbols(report) =~= self.spec_report());
        report
    }

    /// Handles one sample taken by the scan at `row`, `col`.
    ///
    /// The key's state machine always runs. When this half is the primary
    /// one a layer shift moves the active layer here; otherwise the event is
    /// not applied to the layer and the frame to send to the primary half is
    /// returned instead.
    pub fn scan_key(
        &mut self,
        row: usize,
        col: usize,
        level: bool,
        debounce_limit: u8,
        is_primary: bool,
    ) -> (r: Option<[u8; 4]>)
        requires
            old(self).wf(),
            row < ROWS,
            col < COLS,
        ensures
            final(self).wf(),
            old(self).same_keys_except(*final(self), row as int, col as int),
            final(self).key_at(row as int, col as int) == old(self).sampled(
                row as int,
                col as int,
                level,
                debounce_limit,
            ).0,
            ({
                let e = old(self).sampled(row as int, col as int, level, debounce_limit).1;
                if is_primary {
                    &&& r is None
                    &&& final(self).active_layer == layer_after_event(old(self).active_layer, e)
                } else {
                    &&& final(self).active_layer == old(self).active_layer
                    &&& r is Some <==> e is Some
                    &&& e is Some ==> r->Some_0@ == spec_frame(e->Some_0, row, col)
                }
            }),
    {
        let layer = self.active_layer;
        let ghost before = *self;
        let event = self.get_key_mut(row, col).sync_state(level, debounce_limit, layer);
        let ghost sampled = *self;
        let mut frame: Option<[u8; 4]> = None;
        if let Some(sc) = event {
            if is_primary {
                match sc {
                    StateChange::LayerUp => self.increment_layer(),
                    StateChange::LayerDown => self.decrement_layer(),
                    _ => {},
                }
            } else {
                frame = Some(serialize(sc, row, col));
            }
        }
        assert forall|r: int, c: int|
            0 <= r < ROWS && 0 <= c < COLS && (r != row || c != col) implies #[trigger] self.key_at(
                r,
                c,
            ) == before.key_at(r, c) by {
            assert(sampled.key_at(r, c) == before.key_at(r, c));
        }
        frame
    }

    /// The layer in force when a sweep of column `col` reaches `row`: the
    /// primary half applies the layer shifts of the rows before it.
    pub open spec fn layer_at_row(
        self,
        col: int,
        levels: Seq<bool>,
        debounce_limit: u8,
        is_primary: bool,
        row: nat,
    ) -> usize
        decreases row,
    {
        if row == 0 {
            self.active_layer
        } else {
            let prev = self.layer_at_row(col, levels, debounce_limit, is_primary, (row - 1) as nat);
            let e = self.key_at(row - 1, col).step(levels[row - 1], debounce_limit, prev).1;
            if is_primary {
                layer_after_event(prev, e)
            } else {
                prev
            }
        }
    }

    /// The frames a sweep of column `col` sends over the first `row` rows: on
    /// the secondary half, one for each event, in row order.
    pub open spec fn line_frames(
        self,
        col: int,
        levels: Seq<bool>,
        debounce_limit: u8,
        is_primary: bool,
        row: nat,
    ) -> Seq<Seq<u8>>
        decreases row,
    {
        if row == 0 {
            Seq::empty()
        } else {
            let prev = self.line_frames(col, levels, debounce_limit, is_primary, (row - 1) as nat);
            let layer = self.layer_at_row(col, levels, debounce_limit, is_primary, (row - 1) as nat);
            let e = self.key_at(row - 1, col).step(levels[row - 1], debounce_limit, layer).1;
            if !is_primary && e is Some {
                prev.push(spec_frame(e->Some_0, (row - 1) as usize, col as usize))
            } else {
                prev
            }
        }
    }

    /// One strobe of the scan: column `col` is driven and `levels` holds what
    /// each row read. Every key of the column is sampled in row order, as
    /// `scan_key` does; the frames for the other half come back in that order.
    pub fn scan_line(
        &mut self,
        col: usize,
        levels: &[bool; ROWS],
        debounce_limit: u8,
        is_primary: bool,
    ) -> (r: Vec<[u8; 4]>)
        requires
            old(self).wf(),
            col < COLS,
        ensures
            final(self).wf(),
            final(self).active_layer == old(self).layer_at_row(
                col as int,
                levels@,
                debounce_limit,
                is_primary,
                ROWS as nat,
            ),
            forall|row: int|
                0 <= row < ROWS ==> #[trigger] final(self).key_at(row, col as int) == old(
                    self,
                ).key_at(row, col as int).step(
                    levels@[row],
                    debounce_limit,
                    old(self).layer_at_row(col as int, levels@, debounce_limit, is_primary, row as nat),
                ).0,
            forall|row: int, c: int|
                0 <= row < ROWS && 0 <= c < COLS && c != col ==> #[trigger] final(self).key_at(row, c)
                    == old(self).key_at(row, c),
            r@.map_values(|f: [u8; 4]| f@) == old(self).line_frames(
                col as int,
                levels@,
                debounce_limit,
                is_primary,
                ROWS as nat,
            ),
    {
        let ghost start = *self;
        let mut frames: Vec<[u8; 4]> = Vec::new();
        let mut row: usize = 0;
        while row < ROWS
            invariant
                self.wf(),
                start.wf(),
                col < COLS,
                row <= ROWS,
                self.active_layer == start.layer_at_row(
                    col as int,
                    levels@,
                    debounce_limit,
                    is_primary,
                    row as nat,
                ),
                forall|r: int|
                    0 <= r < row ==> #[trigger] self.key_at(r, col as int) == start.key_at(
                        r,
                        col as int,
                    ).step(
                        levels@[r],
                        debounce_limit,
                        start.layer_at_row(col as int, levels@, debounce_limit, is_primary, r as nat),
                    ).0,
                forall|r: int, c: int|
                    0 <= r < ROWS && 0 <= c < COLS && (c != col || r >= row) ==> #[trigger] self.key_at(
                        r,
                        c,
                    ) == start.key_at(r, c),
                frames@.map_values(|f: [u8; 4]| f@) == start.line_frames(
                    col as int,
                    levels@,
                    debounce_limit,
                    is_primary,
                    row as nat,
                ),
            decreases ROWS - row,
        {
            let ghost before = *self;
            let sent = self.scan_key(row, col, levels[row], debounce_limit, is_primary);
            if let Some(frame) = sent {
                frames.push(frame);
            }
            assert(frames@.map_values(|f: [u8; 4]| f@) =~= start.line_frames(
                col as int,
                levels@,
                debounce_limit,
                is_primary,
                (row + 1) as nat,
            ));
            assert forall|r: int, c: int|
                0 <= r < ROWS && 0 <= c < COLS && (c != col || r >= row + 1) implies #[trigger] self.key_at(
                    r,
                    c,
                ) == start.key_at(r, c) by {
                assert(before.key_at(r, c) == start.key_at(r, c));
            }
            assert forall|r: int| 0 <= r < row + 1 implies #[trigger] self.key_at(r, col as int)
                == start.key_at(r, col as int).step(
                levels@[r],
                debounce_limit,
                start.layer_at_row(col as int, levels@, debounce_limit, is_primary, r as nat),
            ).0 by {
                if r < row {
                    assert(before.key_at(r, col as int) == self.key_at(r, col as int));
                }
            }
            row += 1;
        }
        frames
    }

    /// Applies a message received from the other half.
    ///
    /// `SetActive` and `SetInactive` feed the targeted key a sample in that
    /// direction, `DebounceTick` ticks its counter; other events, and
    /// messages that name no position of the grid, change nothing.
    pub fn handle_message(&mut self, message: Message, debounce_limit: u8) -> (r: Option<
        StateChange,
    >)
        requires
            old(self).wf(),
        ensures
            final(self).wf(),
            final(self).active_layer == old(self).active_layer,
            ({
                let row = message.row as int;
                let col = message.col as int;
                if row < ROWS && col < COLS {
                    &&& old(self).same_keys_except(*final(self), row, col)
                    &&& match message.state_change {
                        StateChange::SetActive => (final(self).key_at(row, col), r) == old(
                            self,
                        ).sampled(row, col, true, debounce_limit),
                        StateChange::SetInactive => (final(self).key_at(row, col), r) == old(
                            self,
                        ).sampled(row, col, false, debounce_limit),
                        StateChange::DebounceTick => {
                            &&& final(self).key_at(row, col) == (Key {
                                debounce_count: old(self).key_at(row, col).ticked_count(),
                                ..old(self).key_at(row, col)
                            })
                            &&& r == Some(StateChange::DebounceTick)
                        },
                        _ => {
                            &&& *final(self) == *old(self)
                            &&& r is None
                        },
                    }
                } else {
                    &&& *final(self) == *old(self)
                    &&& r is None
                }
            }),
    {
        if message.row >= ROWS || message.col >= COLS {
            return None;
        }
        let layer = self.active_layer;
        match message.state_change {
            StateChange::SetActive => self.get_key_mut(message.row, message.col).sync_state(
                true,
                debounce_limit,
                layer,
            ),
            StateChange::SetInactive => self.get_key_mut(message.row, message.col).sync_state(
                false,
                debounce_limit,
                layer,
            ),
            StateChange::DebounceTick => {
                self.get_key_mut(message.row, message.col).tick_debounce();
                Some(StateChange::DebounceTick)
            },
            _ => None,
        }
    }
}

impl Default for Matrix {
    /// The same matrix as `Matrix::new`.
    fn default() -> (r: Matrix)
        ensures
            r.wf(),
            r.active_layer == 0,
            forall|row: int, col: int|
                0 <= row < ROWS && 0 <= col < COLS ==> (#[trigger] r.key_at(row, col)).keycodes[0]
                    == default_binding(row, col).0 && r.key_at(row, col).keycodes[1]
                    == default_binding(row, col).1 && !r.key_at(row, col).is_active && r.key_at(
                    row,
                    col,
                ).debounce_count == 0,
    {
        Matrix::new()
    }
}

/// The layer after `n` layer-up requests starting from `layer`.
pub open spec fn layer_after_ups(layer: usize, n: nat) -> usize
    decreases n,
{
    if n == 0 {
        layer
    } else {
        layer_above(layer_after_ups(layer, (n - 1) as nat))
    }
}

/// However many layer-up requests arrive, the layer stays a defined one:
/// from the first layer, `LAYERS` of them end on the last layer; and a
/// layer-down request on the first layer stays there.
pub proof fn lemma_layer_clamped(n: nat)
    ensures
        layer_after_ups(0, n) < LAYERS,
        layer_after_ups(0, LAYERS as nat) == LAYERS - 1,
        layer_below(0) == 0,
    decreases n,
{
    if n > 0 {
        lemma_layer_clamped((n - 1) as nat);
    }
    reveal_with_fuel(layer_after_ups, 3);
}

} // verus!
