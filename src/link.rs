//! The wire format between the two halves: four-byte frames, read through a
//! sliding window of the last four bytes received.

use vstd::prelude::*;

use crate::key::{spec_from_ordinal, spec_ordinal, Message, StateChange};

verus! {

/// The byte that ends every frame on the link.
pub const FRAME_TERMINATOR: u8 = 0x0A;

/// Length in bytes of one frame.
pub const FRAME_LEN: usize = 4;

/// The frame that carries `state_change` for the key at `row`, `col`:
/// ordinal, row, column (each cut to a byte) and the terminator.
pub open spec fn spec_frame(state_change: StateChange, row: usize, col: usize) -> Seq<u8> {
    seq![spec_ordinal(state_change), row as u8, col as u8, FRAME_TERMINATOR]
}

/// The message a four-byte window holds, if its first byte names an event.
pub open spec fn spec_decode(frame: Seq<u8>) -> Option<Message> {
    match spec_from_ordinal(frame[0]) {
        Some(sc) => Some(Message { state_change: sc, row: frame[1] as usize, col: frame[2] as usize }),
        None => None,
    }
}

/// The window after one more byte arrives: the oldest byte drops out.
pub open spec fn spec_shifted(window: Seq<u8>, byte: u8) -> Seq<u8> {
    window.drop_first().push(byte)
}

/// What the receiver makes of a window that has just taken a byte: a frame is
/// read only when that byte is the terminator.
pub open spec fn spec_received(window: Seq<u8>) -> Option<Message> {
    if window[3] == FRAME_TERMINATOR {
        spec_decode(window)
    } else {
        None
    }
}

/// Frames an event for the link.
pub fn serialize(state: StateChange, row: usize, col: usize) -> (r: [u8; 4])
    ensures
        r@ == spec_frame(state, row, col),
{
    let r = [state.ordinal(), row as u8, col as u8, FRAME_TERMINATOR];
    assert(r@ =~= spec_frame(state, row, col));
    r
}

/// Reads a frame back into a message; `None` when the ordinal names no event.
pub fn try_deserialize(message: &[u8; 4]) -> (r: Option<Message>)
    ensures
        r == spec_decode(message@),
{
    match StateChange::try_from(message[0]) {
        Ok(sc) => Some(Message::new(sc, message[1] as usize, message[2] as usize)),
        Err(_) => None,
    }
}

/// Takes one received byte into the sliding window and reports the message
/// that completes, if any.
pub fn receive_byte(window: &mut [u8; 4], byte: u8) -> (r: Option<Message>)
    ensures
        final(window)@ == spec_shifted(old(window)@, byte),
        r == spec_received(final(window)@),
{
    let shifted = [window[1], window[2], window[3], byte];
    assert(shifted@ =~= spec_shifted(window@, byte));
    *window = shifted;
    if byte == FRAME_TERMINATOR {
        try_deserialize(window)
    } else {
        None
    }
}


/// The window after the four bytes of `frame` arrive one by one.
pub open spec fn spec_feed_frame(window: Seq<u8>, frame: Seq<u8>) -> Seq<u8> {
    spec_shifted(
        spec_shifted(spec_shifted(spec_shifted(window, frame[0]), frame[1]), frame[2]),
        frame[3],
    )
}

/// Feeding a whole frame leaves exactly that frame in the window, whatever
/// the window held before.
pub proof fn lemma_feed_frame_fills_window(window: Seq<u8>, frame: Seq<u8>)
    requires
        window.len() == 4,
        frame.len() == 4,
    ensures
        spec_feed_frame(window, frame) == frame,
{
    assert(spec_feed_frame(window, frame) =~= frame);
}

/// A serialized event, received byte by byte after any earlier traffic, is
/// read back as the same event, row and column.
pub proof fn lemma_round_trip(window: Seq<u8>, state_change: StateChange, row: usize, col: usize)
    requires
        window.len() == 4,
        row < 256,
        col < 256,
    ensures
        spec_received(spec_feed_frame(window, spec_frame(state_change, row, col))) == Some(
            Message { state_change, row, col },
        ),
{
    lemma_feed_frame_fills_window(window, spec_frame(state_change, row, col));
    assert((row as u8) as usize == row);
    assert((col as u8) as usize == col);
}

/// A terminated frame whose first byte names no event is discarded, and the
/// receiver still reads the next valid frame that follows it.
pub proof fn lemma_bad_ordinal_discarded(
    window: Seq<u8>,
    ordinal: u8,
    row: u8,
    col: u8,
    state_change: StateChange,
    next_row: usize,
    next_col: usize,
)
    requires
        window.len() == 4,
        ordinal >= 6,
        next_row < 256,
        next_col < 256,
    ensures
        spec_received(spec_feed_frame(window, seq![ordinal, row, col, FRAME_TERMINATOR])) is None,
        spec_received(
            spec_feed_frame(
                spec_feed_frame(window, seq![ordinal, row, col, FRAME_TERMINATOR]),
                spec_frame(state_change, next_row, next_col),
            ),
        ) == Some(Message { state_change, row: next_row, col: next_col }),
{
    let bad = seq![ordinal, row, col, FRAME_TERMINATOR];
    lemma_feed_frame_fills_window(window, bad);
    lemma_round_trip(spec_feed_frame(window, bad), state_change, next_row, next_col);
}

} // verus!
