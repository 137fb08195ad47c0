use pinktyl::key::{Message, StateChange};
use pinktyl::link::{receive_byte, serialize, try_deserialize, FRAME_TERMINATOR};

#[test]
fn serialize_lays_out_frame() {
    assert_eq!(serialize(StateChange::LayerUp, 2, 3), [3, 2, 3, b'\n']);
    assert_eq!(serialize(StateChange::SetActive, 5, 11), [0, 5, 11, 0x0A]);
    assert_eq!(FRAME_TERMINATOR, b'\n');
}

#[test]
fn deserialize_reads_frame() {
    assert_eq!(
        try_deserialize(&[1, 4, 7, b'\n']),
        Some(Message::new(StateChange::SetInactive, 4, 7))
    );
    assert_eq!(try_deserialize(&[6, 4, 7, b'\n']), None);
}

#[test]
fn round_trip_every_event_and_position() {
    let all = [
        StateChange::SetActive,
        StateChange::SetInactive,
        StateChange::DebounceTick,
        StateChange::LayerUp,
        StateChange::LayerDown,
        StateChange::NoChange,
    ];
    let mut window = [0xFFu8, 0x0A, 0x0A, 0x00];
    for sc in all {
        for row in 0..6usize {
            for col in 0..12usize {
                let frame = serialize(sc, row, col);
                let mut last = None;
                for b in frame {
                    last = receive_byte(&mut window, b);
                }
                assert_eq!(last, Some(Message::new(sc, row, col)));
            }
        }
    }
}

#[test]
fn receive_shifts_window() {
    let mut window = [1u8, 2, 3, 4];
    assert_eq!(receive_byte(&mut window, 9), None);
    assert_eq!(window, [2, 3, 4, 9]);
}

#[test]
fn bad_ordinal_is_discarded_and_next_frame_read() {
    let mut window = [0u8; 4];
    let mut last = None;
    for b in [7u8, 1, 1, b'\n'] {
        last = receive_byte(&mut window, b);
    }
    assert_eq!(last, None);
    for b in serialize(StateChange::SetActive, 3, 9) {
        last = receive_byte(&mut window, b);
    }
    assert_eq!(last, Some(Message::new(StateChange::SetActive, 3, 9)));
}
