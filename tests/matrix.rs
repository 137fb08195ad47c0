use pinktyl::key::{KeyAction, Message, StateChange};
use pinktyl::layout;
use pinktyl::link::serialize;
use pinktyl::matrix::{Matrix, COLS, KEYS, LAYERS, ROWS};
use usbd_human_interface_device::page::Keyboard;

#[test]
fn report_of_idle_grid_is_all_no_event() {
    let matrix = Matrix::new();
    let report = matrix.report_active();
    assert_eq!(report.len(), 72);
    assert_eq!(KEYS, ROWS * COLS);
    assert!(report.iter().all(|s| *s == Keyboard::NoEventIndicated as u8));
}

#[test]
fn report_reads_current_layer() {
    let mut matrix = Matrix::new();
    matrix.get_key_mut(0, 1).sync_state(true, 3, 0);
    matrix.get_key_mut(5, 0).sync_state(true, 3, 0);
    let report = matrix.report_active();
    assert_eq!(report[1], Keyboard::Keyboard1 as u8);
    assert_eq!(report[60], Keyboard::ErrorUndefine as u8);
    assert_eq!(report.iter().filter(|s| **s != 0).count(), 2);
    matrix.increment_layer();
    let report = matrix.report_active();
    assert_eq!(report[1], Keyboard::F1 as u8);
}

#[test]
fn layer_is_clamped() {
    let mut matrix = Matrix::default();
    for _ in 0..LAYERS {
        matrix.increment_layer();
        assert!(matrix.active_layer < LAYERS);
    }
    assert_eq!(matrix.active_layer, LAYERS - 1);
    matrix.decrement_layer();
    matrix.decrement_layer();
    assert_eq!(matrix.active_layer, 0);
    matrix.set_active_layer(5);
    assert_eq!(matrix.active_layer, 0);
    matrix.set_active_layer(1);
    assert_eq!(matrix.active_layer, 1);
}

#[test]
fn default_layout_bindings() {
    let grid = layout::default_layout();
    assert_eq!(grid[0][0].keycodes, [KeyAction::KeyCode(Keyboard::Grave as u8), KeyAction::NoAction]);
    assert_eq!(grid[1][8].keycodes[1], KeyAction::KeyCode(Keyboard::UpArrow as u8));
    assert_eq!(grid[2][9].keycodes[0], KeyAction::KeyCode(Keyboard::L as u8));
    assert_eq!(grid[3][10].keycodes[0], KeyAction::KeyCode(Keyboard::ForwardSlash as u8));
    assert_eq!(grid[4][5].keycodes, [KeyAction::LayerShiftHold, KeyAction::LayerShiftHold]);
    assert_eq!(grid[4][6].keycodes[0], KeyAction::KeyCode(Keyboard::RightGUI as u8));
    assert_eq!(grid[5][7].keycodes[0], KeyAction::KeyCode(Keyboard::DeleteForward as u8));
    assert_eq!(layout::PAGE_DOWN, Keyboard::PageDown as u8);
    assert_eq!(layout::KEYBOARD_0, Keyboard::Keyboard0 as u8);
    assert_eq!(layout::RETURN_ENTER, Keyboard::ReturnEnter as u8);
    for row in grid.iter() {
        for key in row.iter() {
            assert!(!key.is_active);
            assert_eq!(key.debounce_count, 0);
        }
    }
}

#[test]
fn primary_applies_layer_shift() {
    let mut matrix = Matrix::new();
    assert_eq!(matrix.scan_key(4, 5, true, 3, true), None);
    assert_eq!(matrix.active_layer, 1);
    assert!(matrix.get_key(4, 5).is_active);
    for _ in 0..3 {
        assert_eq!(matrix.scan_key(4, 5, false, 3, true), None);
    }
    assert_eq!(matrix.active_layer, 1);
    assert_eq!(matrix.scan_key(4, 5, false, 3, true), None);
    assert_eq!(matrix.active_layer, 0);
}

#[test]
fn secondary_forwards_frames() {
    let mut matrix = Matrix::new();
    assert_eq!(matrix.scan_key(4, 5, true, 3, false), Some(serialize(StateChange::LayerUp, 4, 5)));
    assert_eq!(matrix.active_layer, 0);
    assert_eq!(
        matrix.scan_key(4, 5, true, 3, false),
        Some(serialize(StateChange::DebounceTick, 4, 5))
    );
    assert_eq!(matrix.scan_key(0, 0, false, 3, false), None);
}

#[test]
fn scan_line_samples_a_column() {
    let mut matrix = Matrix::new();
    let levels = [true, false, true, false, false, false];
    let frames = matrix.scan_line(2, &levels, 3, false);
    assert_eq!(
        frames,
        vec![serialize(StateChange::SetActive, 0, 2), serialize(StateChange::SetActive, 2, 2)]
    );
    assert!(matrix.get_key(0, 2).is_active);
    assert!(!matrix.get_key(1, 2).is_active);
    assert!(matrix.get_key(2, 2).is_active);
    assert!(!matrix.get_key(0, 3).is_active);
}

#[test]
fn scan_line_primary_shift_applies_to_later_rows() {
    let mut matrix = Matrix::new();
    let levels = [false, false, false, false, true, true];
    let frames = matrix.scan_line(5, &levels, 3, true);
    assert!(frames.is_empty());
    assert_eq!(matrix.active_layer, 1);
    assert!(matrix.get_key(5, 5).is_active);
    assert_eq!(matrix.report_active()[65], Keyboard::LeftAlt as u8);
}

#[test]
fn handle_message_dispatch() {
    let mut matrix = Matrix::new();
    assert_eq!(
        matrix.handle_message(Message::new(StateChange::SetActive, 1, 1), 3),
        Some(StateChange::SetActive)
    );
    assert!(matrix.get_key(1, 1).is_active);
    assert_eq!(
        matrix.handle_message(Message::new(StateChange::DebounceTick, 1, 1), 3),
        Some(StateChange::DebounceTick)
    );
    assert_eq!(matrix.get_key(1, 1).debounce_count, 2);
    assert_eq!(matrix.handle_message(Message::new(StateChange::LayerUp, 4, 5), 3), None);
    assert_eq!(matrix.active_layer, 0);
    assert_eq!(matrix.handle_message(Message::new(StateChange::SetActive, 6, 0), 3), None);
    assert_eq!(matrix.handle_message(Message::new(StateChange::SetActive, 0, 12), 3), None);
    matrix.get_key_mut(1, 1).debounce_count = 0;
    assert_eq!(
        matrix.handle_message(Message::new(StateChange::SetInactive, 1, 1), 3),
        Some(StateChange::SetInactive)
    );
    assert!(!matrix.get_key(1, 1).is_active);
}

#[test]
fn new_and_default_load_the_default_layout() {
    let grid = layout::default_layout();
    let fresh = Matrix::new();
    let other = Matrix::default();
    assert_eq!(fresh.active_layer, 0);
    assert_eq!(other.active_layer, 0);
    for row in 0..ROWS {
        for col in 0..COLS {
            assert_eq!(fresh.get_key(row, col).keycodes, grid[row][col].keycodes);
            assert_eq!(other.get_key(row, col).keycodes, grid[row][col].keycodes);
            assert!(!fresh.get_key(row, col).is_active);
            assert_eq!(fresh.get_key(row, col).debounce_count, 0);
        }
    }
    assert_eq!(fresh.get_key(2, 3).keycodes, [KeyAction::KeyCode(Keyboard::D as u8), KeyAction::NoAction]);
}

#[test]
fn report_symbol_follows_layer_at_report_time() {
    let mut matrix = Matrix::new();
    assert_eq!(matrix.get_key_mut(2, 3).sync_state(true, 3, 0), Some(StateChange::SetActive));
    assert_eq!(matrix.get_key(2, 3).debounce_count, 3);
    let first = matrix.report_active();
    assert_eq!(first[27], Keyboard::D as u8);
    matrix.set_active_layer(1);
    let second = matrix.report_active();
    assert_eq!(second[27], Keyboard::ErrorUndefine as u8);
    for (i, s) in second.iter().enumerate() {
        if i != 27 {
            assert_eq!(*s, Keyboard::NoEventIndicated as u8);
        }
    }
}
