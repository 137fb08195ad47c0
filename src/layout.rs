//! The default key layout.

use vstd::prelude::*;

use crate::key::{Key, KeyAction};
use crate::key::KeyAction::{KeyCode, LayerShiftHold, NoAction};
use crate::matrix::{Layer, COLS, ROWS};

verus! {

// HID keyboard usage IDs of the keys the default layout binds.
pub const GRAVE: u8 = 0x35;
pub const KEYBOARD_1: u8 = 0x1E;
pub const F1: u8 = 0x3A;
pub const KEYBOARD_2: u8 = 0x1F;
pub const F2: u8 = 0x3B;
pub const KEYBOARD_3: u8 = 0x20;
pub const F3: u8 = 0x3C;
pub const KEYBOARD_4: u8 = 0x21;
pub const F4: u8 = 0x3D;
pub const KEYBOARD_5: u8 = 0x22;
pub const F5: u8 = 0x3E;
pub const KEYBOARD_6: u8 = 0x23;
pub const F6: u8 = 0x3F;
pub const KEYBOARD_7: u8 = 0x24;
pub const F7: u8 = 0x40;
pub const KEYBOARD_8: u8 = 0x25;
pub const F8: u8 = 0x41;
pub const KEYBOARD_9: u8 = 0x26;
pub const F9: u8 = 0x42;
pub const KEYBOARD_0: u8 = 0x27;
pub const F10: u8 = 0x43;
pub const MINUS: u8 = 0x2D;
pub const F11: u8 = 0x44;
pub const TAB: u8 = 0x2B;
pub const Q: u8 = 0x14;
pub const W: u8 = 0x1A;
pub const E: u8 = 0x08;
pub const R: u8 = 0x15;
pub const T: u8 = 0x17;
pub const Y: u8 = 0x1C;
pub const U: u8 = 0x18;
pub const I: u8 = 0x0C;
pub const UP_ARROW: u8 = 0x52;
pub const O: u8 = 0x12;
pub const P: u8 = 0x13;
pub const EQUAL: u8 = 0x2E;
pub const F12: u8 = 0x45;
pub const ESCAPE: u8 = 0x29;
pub const A: u8 = 0x04;
pub const S: u8 = 0x16;
pub const D: u8 = 0x07;
pub const F: u8 = 0x09;
pub const G: u8 = 0x0A;
pub const H: u8 = 0x0B;
pub const J: u8 = 0x0D;
pub const LEFT_ARROW: u8 = 0x50;
pub const K: u8 = 0x0E;
pub const DOWN_ARROW: u8 = 0x51;
pub const L: u8 = 0x0F;
pub const RIGHT_ARROW: u8 = 0x4F;
pub const SEMICOLON: u8 = 0x33;
pub const APOSTROPHE: u8 = 0x34;
pub const CAPS_LOCK: u8 = 0x39;
pub const Z: u8 = 0x1D;
pub const X: u8 = 0x1B;
pub const C: u8 = 0x06;
pub const V: u8 = 0x19;
pub const B: u8 = 0x05;
pub const N: u8 = 0x11;
pub const M: u8 = 0x10;
pub const COMMA: u8 = 0x36;
pub const DOT: u8 = 0x37;
pub const FORWARD_SLASH: u8 = 0x38;
pub const BACKSLASH: u8 = 0x31;
pub const PAGE_DOWN: u8 = 0x4E;
pub const END: u8 = 0x4D;
pub const PAGE_UP: u8 = 0x4B;
pub const HOME: u8 = 0x4A;
pub const LEFT_SHIFT: u8 = 0xE1;
pub const SPACE: u8 = 0x2C;
pub const LEFT_CONTROL: u8 = 0xE0;
pub const RIGHT_GUI: u8 = 0xE7;
pub const RIGHT_CONTROL: u8 = 0xE4;
pub const RETURN_ENTER: u8 = 0x28;
pub const RIGHT_SHIFT: u8 = 0xE5;
pub const LEFT_BRACE: u8 = 0x2F;
pub const RIGHT_BRACE: u8 = 0x30;
pub const DELETE_BACKSPACE: u8 = 0x2A;
pub const LEFT_ALT: u8 = 0xE2;
pub const RIGHT_ALT: u8 = 0xE6;
pub const DELETE_FORWARD: u8 = 0x4C;

/// The bindings of row 0, by column, on the first and second layer.
pub open spec fn row_0_binding(col: int) -> (KeyAction, KeyAction) {
    if col == 0 {
        (KeyCode(GRAVE), NoAction)
    } else if col == 1 {
        (KeyCode(KEYBOARD_1), KeyCode(F1))
    } else if col == 2 {
        (KeyCode(KEYBOARD_2), KeyCode(F2))
    } else if col == 3 {
        (KeyCode(KEYBOARD_3), KeyCode(F3))
    } else if col == 4 {
        (KeyCode(KEYBOARD_4), KeyCode(F4))
    } else if col == 5 {
        (KeyCode(KEYBOARD_5), KeyCode(F5))
    } else if col == 6 {
        (KeyCode(KEYBOARD_6), KeyCode(F6))
    } else if col == 7 {
        (KeyCode(KEYBOARD_7), KeyCode(F7))
    } else if col == 8 {
        (KeyCode(KEYBOARD_8), KeyCode(F8))
    } else if col == 9 {
        (KeyCode(KEYBOARD_9), KeyCode(F9))
    } else if col == 10 {
        (KeyCode(KEYBOARD_0), KeyCode(F10))
    } else {
        (KeyCode(MINUS), KeyCode(F11))
    }
}

/// The bindings of row 1, by column, on the first and second layer.
pub open spec fn row_1_binding(col: int) -> (KeyAction, KeyAction) {
    if col == 0 {
        (KeyCode(TAB), NoAction)
    } else if col == 1 {
        (KeyCode(Q), NoAction)
    } else if col == 2 {
        (KeyCode(W), NoAction)
    } else if col == 3 {
        (KeyCode(E), NoAction)
    } else if col == 4 {
        (KeyCode(R), NoAction)
    } else if col == 5 {
        (KeyCode(T), NoAction)
    } else if col == 6 {
        (KeyCode(Y), NoAction)
    } else if col == 7 {
        (KeyCode(U), NoAction)
    } else if col == 8 {
        (KeyCode(I), KeyCode(UP_ARROW))
    } else if col == 9 {
        (KeyCode(O), NoAction)
    } else if col == 10 {
        (KeyCode(P), NoAction)
    } else {
        (KeyCode(EQUAL), KeyCode(F12))
    }
}

/// The bindings of row 2, by column, on the first and second layer.
pub open spec fn row_2_binding(col: int) -> (KeyAction, KeyAction) {
    if col == 0 {
        (KeyCode(ESCAPE), NoAction)
    } else if col == 1 {
        (KeyCode(A), NoAction)
    } else if col == 2 {
        (KeyCode(S), NoAction)
    } else if col == 3 {
        (KeyCode(D), NoAction)
    } else if col == 4 {
        (KeyCode(F), NoAction)
    } else if col == 5 {
        (KeyCode(G), NoAction)
    } else if col == 6 {
        (KeyCode(H), NoAction)
    } else if col == 7 {
        (KeyCode(J), KeyCode(LEFT_ARROW))
    } else if col == 8 {
        (KeyCode(K), KeyCode(DOWN_ARROW))
    } else if col == 9 {
        (KeyCode(L), KeyCode(RIGHT_ARROW))
    } else if col == 10 {
        (KeyCode(SEMICOLON), NoAction)
    } else {
        (KeyCode(APOSTROPHE), NoAction)
    }
}

/// The bindings of row 3, by column, on the first and second layer.
pub open spec fn row_3_binding(col: int) -> (KeyAction, KeyAction) {
    if col == 0 {
        (KeyCode(CAPS_LOCK), NoAction)
    } else if col == 1 {
        (KeyCode(Z), NoAction)
    } else if col == 2 {
        (KeyCode(X), NoAction)
    } else if col == 3 {
        (KeyCode(C), NoAction)
    } else if col == 4 {
        (KeyCode(V), NoAction)
    } else if col == 5 {
        (KeyCode(B), NoAction)
    } else if col == 6 {
        (KeyCode(N), NoAction)
    } else if col == 7 {
        (KeyCode(M), NoAction)
    } else if col == 8 {
        (KeyCode(COMMA), NoAction)
    } else if col == 9 {
        (KeyCode(DOT), NoAction)
    } else if col == 10 {
        (KeyCode(FORWARD_SLASH), NoAction)
    } else {
        (KeyCode(BACKSLASH), NoAction)
    }
}

/// The bindings of row 4, by column, on the first and second layer.
pub open spec fn row_4_binding(col: int) -> (KeyAction, KeyAction) {
    if col == 0 {
        (KeyCode(PAGE_DOWN), KeyCode(END))
    } else if col == 1 {
        (KeyCode(PAGE_UP), KeyCode(HOME))
    } else if col == 2 {
        (KeyCode(LEFT_SHIFT), KeyCode(LEFT_SHIFT))
    } else if col == 3 {
        (KeyCode(SPACE), NoAction)
    } else if col == 4 {
        (KeyCode(LEFT_CONTROL), KeyCode(LEFT_CONTROL))
    } else if col == 5 {
        (LayerShiftHold, LayerShiftHold)
    } else if col == 6 {
        (KeyCode(RIGHT_GUI), KeyCode(RIGHT_GUI))
    } else if col == 7 {
        (KeyCode(RIGHT_CONTROL), KeyCode(RIGHT_CONTROL))
    } else if col == 8 {
        (KeyCode(RETURN_ENTER), NoAction)
    } else if col == 9 {
        (KeyCode(RIGHT_SHIFT), KeyCode(RIGHT_SHIFT))
    } else if col == 10 {
        (KeyCode(LEFT_BRACE), NoAction)
    } else {
        (KeyCode(RIGHT_BRACE), NoAction)
    }
}

/// The bindings of row 5, by column, on the first and second layer.
pub open spec fn row_5_binding(col: int) -> (KeyAction, KeyAction) {
    if col == 0 {
        (NoAction, NoAction)
    } else if col == 1 {
        (NoAction, NoAction)
    } else if col == 2 {
        (NoAction, NoAction)
    } else if col == 3 {
        (NoAction, NoAction)
    } else if col == 4 {
        (KeyCode(DELETE_BACKSPACE), NoAction)
    } else if col == 5 {
        (KeyCode(LEFT_ALT), KeyCode(LEFT_ALT))
    } else if col == 6 {
        (KeyCode(RIGHT_ALT), NoAction)
    } else if col == 7 {
        (KeyCode(DELETE_FORWARD), NoAction)
    } else if col == 8 {
        (NoAction, NoAction)
    } else if col == 9 {
        (NoAction, NoAction)
    } else if col == 10 {
        (NoAction, NoAction)
    } else {
        (NoAction, NoAction)
    }
}

/// The actions the default layout binds at `row`, `col`, on the first and
/// second layer.
pub open spec fn default_binding(row: int, col: int) -> (KeyAction, KeyAction) {
    if row == 0 {
        row_0_binding(col)
    } else if row == 1 {
        row_1_binding(col)
    } else if row == 2 {
        row_2_binding(col)
    } else if row == 3 {
        row_3_binding(col)
    } else if row == 4 {
        row_4_binding(col)
    } else {
        row_5_binding(col)
    }
}

/// An idle key bound to `base` on the first layer and `shifted` on the second.
fn key(base: KeyAction, shifted: KeyAction) -> (r: Key)
    ensures
        r.keycodes[0] == base,
        r.keycodes[1] == shifted,
        !r.is_active,
        r.debounce_count == 0,
{
    Key { keycodes: [base, shifted], is_active: false, debounce_count: 0 }
}

/// The default layout: each position bound as `default_binding` says, every
/// key idle.
pub fn default_layout() -> (r: Layer)
    ensures
        forall|row: int, col: int|
            0 <= row < ROWS && 0 <= col < COLS ==> (#[trigger] r[row][col]).keycodes[0]
                == default_binding(row, col).0 && r[row][col].keycodes[1] == default_binding(
                row,
                col,
            ).1 && !r[row][col].is_active && r[row][col].debounce_count == 0,
{
    [
        [
            key(KeyCode(GRAVE), NoAction),
            key(KeyCode(KEYBOARD_1), KeyCode(F1)),
            key(KeyCode(KEYBOARD_2), KeyCode(F2)),
            key(KeyCode(KEYBOARD_3), KeyCode(F3)),
            key(KeyCode(KEYBOARD_4), KeyCode(F4)),
            key(KeyCode(KEYBOARD_5), KeyCode(F5)),
            key(KeyCode(KEYBOARD_6), KeyCode(F6)),
            key(KeyCode(KEYBOARD_7), KeyCode(F7)),
            key(KeyCode(KEYBOARD_8), KeyCode(F8)),
            key(KeyCode(KEYBOARD_9), KeyCode(F9)),
            key(KeyCode(KEYBOARD_0), KeyCode(F10)),
            key(KeyCode(MINUS), KeyCode(F11)),
        ],
        [
            key(KeyCode(TAB), NoAction),
            key(KeyCode(Q), NoAction),
            key(KeyCode(W), NoAction),
            key(KeyCode(E), NoAction),
            key(KeyCode(R), NoAction),
            key(KeyCode(T), NoAction),
            key(KeyCode(Y), NoAction),
            key(KeyCode(U), NoAction),
            key(KeyCode(I), KeyCode(UP_ARROW)),
            key(KeyCode(O), NoAction),
            key(KeyCode(P), NoAction),
            key(KeyCode(EQUAL), KeyCode(F12)),
        ],
        [
            key(KeyCode(ESCAPE), NoAction),
            key(KeyCode(A), NoAction),
            key(KeyCode(S), NoAction),
            key(KeyCode(D), NoAction),
            key(KeyCode(F), NoAction),
            key(KeyCode(G), NoAction),
            key(KeyCode(H), NoAction),
            key(KeyCode(J), KeyCode(LEFT_ARROW)),
            key(KeyCode(K), KeyCode(DOWN_ARROW)),
            key(KeyCode(L), KeyCode(RIGHT_ARROW)),
            key(KeyCode(SEMICOLON), NoAction),
            key(KeyCode(APOSTROPHE), NoAction),
        ],
        [
            key(KeyCode(CAPS_LOCK), NoAction),
            key(KeyCode(Z), NoAction),
            key(KeyCode(X), NoAction),
            key(KeyCode(C), NoAction),
            key(KeyCode(V), NoAction),
            key(KeyCode(B), NoAction),
            key(KeyCode(N), NoAction),
            key(KeyCode(M), NoAction),
            key(KeyCode(COMMA), NoAction),
            key(KeyCode(DOT), NoAction),
            key(KeyCode(FORWARD_SLASH), NoAction),
            key(KeyCode(BACKSLASH), NoAction),
        ],
        [
            key(KeyCode(PAGE_DOWN), KeyCode(END)),
            key(KeyCode(PAGE_UP), KeyCode(HOME)),
            key(KeyCode(LEFT_SHIFT), KeyCode(LEFT_SHIFT)),
            key(KeyCode(SPACE), NoAction),
            key(KeyCode(LEFT_CONTROL), KeyCode(LEFT_CONTROL)),
            key(LayerShiftHold, LayerShiftHold),
            key(KeyCode(RIGHT_GUI), KeyCode(RIGHT_GUI)),
            key(KeyCode(RIGHT_CONTROL), KeyCode(RIGHT_CONTROL)),
            key(KeyCode(RETURN_ENTER), NoAction),
            key(KeyCode(RIGHT_SHIFT), KeyCode(RIGHT_SHIFT)),
            key(KeyCode(LEFT_BRACE), NoAction),
            key(KeyCode(RIGHT_BRACE), NoAction),
        ],
        [
            key(NoAction, NoAction),
            key(NoAction, NoAction),
            key(NoAction, NoAction),
            key(NoAction, NoAction),
            key(KeyCode(DELETE_BACKSPACE), NoAction),
            key(KeyCode(LEFT_ALT), KeyCode(LEFT_ALT)),
            key(KeyCode(RIGHT_ALT), NoAction),
            key(KeyCode(DELETE_FORWARD), NoAction),
            key(NoAction, NoAction),
            key(NoAction, NoAction),
            key(NoAction, NoAction),
            key(NoAction, NoAction),
        ],
    ]
}

} // verus!
