use pinktyl::key::{Key, KeyAction, Message, StateChange, UnknownOrdinal, ERROR_UNDEFINED, NO_EVENT_INDICATED};
use usbd_human_interface_device::page::Keyboard;

fn idle(base: KeyAction, shifted: KeyAction) -> Key {
    Key { keycodes: [base, shifted], is_active: false, debounce_count: 0 }
}

#[test]
fn debounce_scenario_row2_col3() {
    let mut matrix = pinktyl::matrix::Matrix::new();
    let layer = matrix.active_layer;
    let mut events = Vec::new();
    for _ in 0..6 {
        events.push(matrix.get_key_mut(2, 3).sync_state(true, 3, layer));
    }
    assert_eq!(
        events,
        vec![
            Some(StateChange::SetActive),
            Some(StateChange::DebounceTick),
            Some(StateChange::DebounceTick),
            Some(StateChange::DebounceTick),
            None,
            None,
        ]
    );
    assert!(matrix.get_key(2, 3).is_active());
}

#[test]
fn samples_in_window_are_ignored_whatever_they_ask() {
    let mut key = idle(KeyAction::KeyCode(Keyboard::A as u8), KeyAction::NoAction);
    assert_eq!(key.sync_state(true, 3, 0), Some(StateChange::SetActive));
    assert_eq!(key.debounce_count, 3);
    for remaining in [2u8, 1, 0] {
        assert_eq!(key.sync_state(false, 3, 0), Some(StateChange::DebounceTick));
        assert_eq!(key.debounce_count, remaining);
        assert!(key.is_active());
    }
    assert_eq!(key.sync_state(false, 3, 0), Some(StateChange::SetInactive));
    assert!(!key.is_active());
    assert_eq!(key.debounce_count, 3);
}

#[test]
fn steady_samples_change_nothing() {
    let mut key = idle(KeyAction::KeyCode(Keyboard::B as u8), KeyAction::NoAction);
    for _ in 0..10 {
        assert_eq!(key.sync_state(false, 5, 1), None);
        assert!(!key.is_active);
        assert_eq!(key.debounce_count, 0);
    }
}

#[test]
fn zero_limit_accepts_every_edge() {
    let mut key = idle(KeyAction::KeyCode(Keyboard::C as u8), KeyAction::NoAction);
    assert_eq!(key.sync_state(true, 0, 0), Some(StateChange::SetActive));
    assert_eq!(key.sync_state(false, 0, 0), Some(StateChange::SetInactive));
    assert_eq!(key.sync_state(true, 0, 0), Some(StateChange::SetActive));
}

#[test]
fn layer_shift_key_emits_layer_events() {
    let mut key = idle(KeyAction::LayerShiftHold, KeyAction::LayerShiftHold);
    assert_eq!(key.sync_state(true, 1, 0), Some(StateChange::LayerUp));
    assert_eq!(key.sync_state(false, 1, 1), Some(StateChange::DebounceTick));
    assert_eq!(key.sync_state(false, 1, 1), Some(StateChange::LayerDown));
    assert!(!key.is_active());
}

#[test]
fn action_is_resolved_on_the_given_layer() {
    let mut key = idle(KeyAction::KeyCode(Keyboard::J as u8), KeyAction::LayerShiftHold);
    assert_eq!(key.sync_state(true, 0, 1), Some(StateChange::LayerUp));
    assert_eq!(key.sync_state(false, 0, 0), Some(StateChange::SetInactive));
}

#[test]
fn counter_at_one_still_holds_back_opposite_sample() {
    let mut key = idle(KeyAction::KeyCode(Keyboard::E as u8), KeyAction::NoAction);
    key.debounce_count = 1;
    assert_eq!(key.sync_state(true, 3, 0), Some(StateChange::DebounceTick));
    assert!(!key.is_active);
    assert_eq!(key.debounce_count, 0);
    assert_eq!(key.sync_state(true, 3, 0), Some(StateChange::SetActive));
}

#[test]
fn tick_debounce_floors_at_zero() {
    let mut key = idle(KeyAction::NoAction, KeyAction::NoAction);
    key.debounce_count = 2;
    key.tick_debounce();
    assert_eq!(key.debounce_count, 1);
    key.tick_debounce();
    key.tick_debounce();
    assert_eq!(key.debounce_count, 0);
}

#[test]
fn action_symbols() {
    assert_eq!(KeyAction::KeyCode(Keyboard::Q as u8).symbol(), Keyboard::Q as u8);
    assert_eq!(KeyAction::LayerShiftHold.symbol(), Keyboard::NoEventIndicated as u8);
    assert_eq!(KeyAction::NoAction.symbol(), Keyboard::ErrorUndefine as u8);
    assert_eq!(NO_EVENT_INDICATED, Keyboard::NoEventIndicated as u8);
    assert_eq!(ERROR_UNDEFINED, Keyboard::ErrorUndefine as u8);
    assert_eq!(KeyAction::from(Keyboard::Z as u8), KeyAction::KeyCode(0x1D));
    assert_eq!(u8::from(KeyAction::KeyCode(0x2C)), 0x2C);
    assert_eq!(u8::from(KeyAction::NoAction), 0x03);
}

#[test]
fn ordinals_round_trip() {
    let all = [
        StateChange::SetActive,
        StateChange::SetInactive,
        StateChange::DebounceTick,
        StateChange::LayerUp,
        StateChange::LayerDown,
        StateChange::NoChange,
    ];
    for (i, sc) in all.iter().enumerate() {
        assert_eq!(sc.ordinal(), i as u8);
        assert_eq!(StateChange::try_from(i as u8), Ok(*sc));
    }
}

#[test]
fn unknown_ordinal_is_an_error() {
    assert_eq!(StateChange::try_from(6), Err(UnknownOrdinal(6)));
    assert_eq!(StateChange::try_from(255), Err(UnknownOrdinal(255)));
}

#[test]
fn message_new_keeps_fields() {
    let m = Message::new(StateChange::LayerDown, 4, 11);
    assert_eq!(m.state_change, StateChange::LayerDown);
    assert_eq!(m.row, 4);
    assert_eq!(m.col, 11);
}

#[test]
fn opposite_sample_accepted_after_window_and_steady_samples() {
    for limit in 0u8..6 {
        let mut key = idle(KeyAction::KeyCode(Keyboard::K as u8), KeyAction::NoAction);
        assert_eq!(key.sync_state(true, limit, 0), Some(StateChange::SetActive));
        for _ in 0..limit {
            assert_eq!(key.sync_state(true, limit, 0), Some(StateChange::DebounceTick));
        }
        assert_eq!(key.sync_state(true, limit, 0), None);
        assert_eq!(key.sync_state(false, limit, 0), Some(StateChange::SetInactive));
        assert!(!key.is_active);
        assert_eq!(key.debounce_count, limit);
    }
}
