//! Key-matrix scanning, debouncing and FN-key remapping.
//!
//! [`Keys`] collects all keys from the key matrix and debounces them: the
//! changes of the last few milliseconds are tracked, and a key whose state
//! changed recently is frozen at its previous debounced value until it has
//! been quiet for the whole window. FN-key combinations are translated to
//! function pseudo-codes before a change is reported.
//!
//! The asynchronous driver loop around this type polls at a configured
//! interval, drains commands between polls through
//! [`Keys::handle_in_event`], and forwards the returned events.

use vstd::prelude::*;

use crate::key_state::Bitmap;
use crate::key_state::KeyState;
use crate::scancode::ScanCode;
use crate::PowerLevel;

verus! {

/// Capability contract of the key-matrix hardware. Implementations live
/// with the hardware drivers; `read_row` selects the rows given in
/// `row_bitmap` and returns the sampled 16-bit column bitmap.
pub trait KeyMatrixHardware {
    /// Enables power to the key matrix; may block until it is ready.
    fn enable(&mut self);

    /// Disables the key matrix and removes power from it.
    fn disable(&mut self);

    /// Selects the rows of `row_bitmap`, then reads the column inputs.
    fn read_row(&mut self, row_bitmap: u8) -> u16;
}

/// Capability contract of an attached numpad; connection handling is not
/// implemented yet.
pub trait NumpadConnection {
}

/// Commands accepted by the key handling task.
#[derive(Debug, PartialEq, Clone)]
pub enum KeysInEvent {
    NumlockLed(bool),
    PowerTransition(PowerLevel),
}

/// Notifications produced by the key handling task.
#[derive(Debug, PartialEq, Clone)]
pub enum KeysOutEvent {
    KeysChanged(KeyState),
    PowerTransition(PowerLevel),
    PowerTransitionDone(PowerLevel),
}

/// Number of matrix rows.
pub const ROWS: usize = 6;

/// Number of matrix columns.
pub const COLUMNS: usize = 16;

/// The key at a matrix position.
pub open spec fn spec_matrix_location(row: int, column: int) -> ScanCode {
    if row == 0 {
        if column == 0 { ScanCode::Insert }
        else if column == 1 { ScanCode::Delete }
        else if column == 2 { ScanCode::Equal }
        else if column == 3 { ScanCode::Backspace }
        else if column == 4 { ScanCode::Minus }
        else if column == 5 { ScanCode::Digit0 }
        else if column == 6 { ScanCode::Digit8 }
        else if column == 7 { ScanCode::Digit9 }
        else if column == 8 { ScanCode::Digit7 }
        else if column == 9 { ScanCode::Digit6 }
        else if column == 10 { ScanCode::Digit5 }
        else if column == 11 { ScanCode::Digit4 }
        else if column == 12 { ScanCode::Digit3 }
        else if column == 13 { ScanCode::Digit2 }
        else if column == 14 { ScanCode::Backtick }
        else { ScanCode::Digit1 }
    } else if row == 1 {
        if column == 0 { ScanCode::Pause }
        else if column == 1 { ScanCode::ScrollLock }
        else if column == 2 { ScanCode::F12 }
        else if column == 3 { ScanCode::Print }
        else if column == 4 { ScanCode::F11 }
        else if column == 5 { ScanCode::F10 }
        else if column == 6 { ScanCode::F8 }
        else if column == 7 { ScanCode::F9 }
        else if column == 8 { ScanCode::F7 }
        else if column == 9 { ScanCode::F6 }
        else if column == 10 { ScanCode::F5 }
        else if column == 11 { ScanCode::F4 }
        else if column == 12 { ScanCode::F3 }
        else if column == 13 { ScanCode::F2 }
        else if column == 14 { ScanCode::Escape }
        else { ScanCode::F1 }
    } else if row == 2 {
        if column == 0 { ScanCode::Invalid }
        else if column == 1 { ScanCode::Invalid }
        else if column == 2 { ScanCode::RightBracket }
        else if column == 3 { ScanCode::Return }
        else if column == 4 { ScanCode::LeftBracket }
        else if column == 5 { ScanCode::P }
        else if column == 6 { ScanCode::I }
        else if column == 7 { ScanCode::O }
        else if column == 8 { ScanCode::U }
        else if column == 9 { ScanCode::Y }
        else if column == 10 { ScanCode::T }
        else if column == 11 { ScanCode::R }
        else if column == 12 { ScanCode::E }
        else if column == 13 { ScanCode::W }
        else if column == 14 { ScanCode::Tab }
        else { ScanCode::Q }
    } else if row == 3 {
        if column == 0 { ScanCode::PageUp }
        else if column == 1 { ScanCode::Invalid }
        else if column == 2 { ScanCode::Backslash }
        else if column == 3 { ScanCode::Invalid }
        else if column == 4 { ScanCode::Quote }
        else if column == 5 { ScanCode::Semicolon }
        else if column == 6 { ScanCode::K }
        else if column == 7 { ScanCode::L }
        else if column == 8 { ScanCode::J }
        else if column == 9 { ScanCode::H }
        else if column == 10 { ScanCode::G }
        else if column == 11 { ScanCode::F }
        else if column == 12 { ScanCode::D }
        else if column == 13 { ScanCode::S }
        else if column == 14 { ScanCode::CapsLock }
        else { ScanCode::A }
    } else if row == 4 {
        if column == 0 { ScanCode::Right }
        else if column == 1 { ScanCode::Down }
        else if column == 2 { ScanCode::RightControl }
        else if column == 3 { ScanCode::Left }
        else if column == 4 { ScanCode::LeftMeta }
        else if column == 5 { ScanCode::RightAlt }
        else if column == 6 { ScanCode::Invalid }
        else if column == 7 { ScanCode::Invalid }
        else if column == 8 { ScanCode::Invalid }
        else if column == 9 { ScanCode::Space }
        else if column == 10 { ScanCode::Invalid }
        else if column == 11 { ScanCode::Invalid }
        else if column == 12 { ScanCode::Invalid }
        else if column == 13 { ScanCode::LeftAlt }
        else if column == 14 { ScanCode::LeftControl }
        else { ScanCode::LeftMeta }
    } else {
        if column == 0 { ScanCode::PageDown }
        else if column == 1 { ScanCode::Up }
        else if column == 2 { ScanCode::RightShift }
        else if column == 3 { ScanCode::Invalid }
        else if column == 4 { ScanCode::Slash }
        else if column == 5 { ScanCode::Period }
        else if column == 6 { ScanCode::M }
        else if column == 7 { ScanCode::Comma }
        else if column == 8 { ScanCode::N }
        else if column == 9 { ScanCode::B }
        else if column == 10 { ScanCode::V }
        else if column == 11 { ScanCode::C }
        else if column == 12 { ScanCode::X }
        else if column == 13 { ScanCode::Z }
        else if column == 14 { ScanCode::LeftShift }
        else { ScanCode::Function }
    }
}

/// The key at a matrix position.
pub fn matrix_location(row: usize, column: usize) -> (r: ScanCode)
    requires
        row < 6,
        column < 16,
    ensures
        r == spec_matrix_location(row as int, column as int),
{
    if row == 0 {
        if column == 0 { ScanCode::Insert }
        else if column == 1 { ScanCode::Delete }
        else if column == 2 { ScanCode::Equal }
        else if column == 3 { ScanCode::Backspace }
        else if column == 4 { ScanCode::Minus }
        else if column == 5 { ScanCode::Digit0 }
        else if column == 6 { ScanCode::Digit8 }
        else if column == 7 { ScanCode::Digit9 }
        else if column == 8 { ScanCode::Digit7 }
        else if column == 9 { ScanCode::Digit6 }
        else if column == 10 { ScanCode::Digit5 }
        else if column == 11 { ScanCode::Digit4 }
        else if column == 12 { ScanCode::Digit3 }
        else if column == 13 { ScanCode::Digit2 }
        else if column == 14 { ScanCode::Backtick }
        else { ScanCode::Digit1 }
    } else if row == 1 {
        if column == 0 { ScanCode::Pause }
        else if column == 1 { ScanCode::ScrollLock }
        else if column == 2 { ScanCode::F12 }
        else if column == 3 { ScanCode::Print }
        else if column == 4 { ScanCode::F11 }
        else if column == 5 { ScanCode::F10 }
        else if column == 6 { ScanCode::F8 }
        else if column == 7 { ScanCode::F9 }
        else if column == 8 { ScanCode::F7 }
        else if column == 9 { ScanCode::F6 }
        else if column == 10 { ScanCode::F5 }
        else if column == 11 { ScanCode::F4 }
        else if column == 12 { ScanCode::F3 }
        else if column == 13 { ScanCode::F2 }
        else if column == 14 { ScanCode::Escape }
        else { ScanCode::F1 }
    } else if row == 2 {
        if column == 0 { ScanCode::Invalid }
        else if column == 1 { ScanCode::Invalid }
        else if column == 2 { ScanCode::RightBracket }
        else if column == 3 { ScanCode::Return }
        else if column == 4 { ScanCode::LeftBracket }
        else if column == 5 { ScanCode::P }
        else if column == 6 { ScanCode::I }
        else if column == 7 { ScanCode::O }
        else if column == 8 { ScanCode::U }
        else if column == 9 { ScanCode::Y }
        else if column == 10 { ScanCode::T }
        else if column == 11 { ScanCode::R }
        else if column == 12 { ScanCode::E }
        else if column == 13 { ScanCode::W }
        else if column == 14 { ScanCode::Tab }
        else { ScanCode::Q }
    } else if row == 3 {
        if column == 0 { ScanCode::PageUp }
        else if column == 1 { ScanCode::Invalid }
        else if column == 2 { ScanCode::Backslash }
        else if column == 3 { ScanCode::Invalid }
        else if column == 4 { ScanCode::Quote }
        else if column == 5 { ScanCode::Semicolon }
        else if column == 6 { ScanCode::K }
        else if column == 7 { ScanCode::L }
        else if column == 8 { ScanCode::J }
        else if column == 9 { ScanCode::H }
        else if column == 10 { ScanCode::G }
        else if column == 11 { ScanCode::F }
        else if column == 12 { ScanCode::D }
        else if column == 13 { ScanCode::S }
        else if column == 14 { ScanCode::CapsLock }
        else { ScanCode::A }
    } else if row == 4 {
        if column == 0 { ScanCode::Right }
        else if column == 1 { ScanCode::Down }
        else if column == 2 { ScanCode::RightControl }
        else if column == 3 { ScanCode::Left }
        else if column == 4 { ScanCode::LeftMeta }
        else if column == 5 { ScanCode::RightAlt }
        else if column == 6 { ScanCode::Invalid }
        else if column == 7 { ScanCode::Invalid }
        else if column == 8 { ScanCode::Invalid }
        else if column == 9 { ScanCode::Space }
        else if column == 10 { ScanCode::Invalid }
        else if column == 11 { ScanCode::Invalid }
        else if column == 12 { ScanCode::Invalid }
        else if column == 13 { ScanCode::LeftAlt }
        else if column == 14 { ScanCode::LeftControl }
        else { ScanCode::LeftMeta }
    } else {
        if column == 0 { ScanCode::PageDown }
        else if column == 1 { ScanCode::Up }
        else if column == 2 { ScanCode::RightShift }
        else if column == 3 { ScanCode::Invalid }
        else if column == 4 { ScanCode::Slash }
        else if column == 5 { ScanCode::Period }
        else if column == 6 { ScanCode::M }
        else if column == 7 { ScanCode::Comma }
        else if column == 8 { ScanCode::N }
        else if column == 9 { ScanCode::B }
        else if column == 10 { ScanCode::V }
        else if column == 11 { ScanCode::C }
        else if column == 12 { ScanCode::X }
        else if column == 13 { ScanCode::Z }
        else if column == 14 { ScanCode::LeftShift }
        else { ScanCode::Function }
    }
}

/// The pseudo-code that FN plus the F-key with index `k` (zero for F1)
/// produces.
pub open spec fn spec_fn_mapping(k: int) -> ScanCode {
    if k == 0 { ScanCode::FunctionPair }
    else if k == 1 { ScanCode::FunctionBluetooth }
    else if k == 2 { ScanCode::FunctionUnifying }
    else if k == 3 { ScanCode::FunctionUnpairAll }
    else if k == 4 { ScanCode::F4 }
    else if k == 5 { ScanCode::F5 }
    else if k == 6 { ScanCode::F6 }
    else if k == 7 { ScanCode::F7 }
    else if k == 8 { ScanCode::FunctionToggleGameMode }
    else if k == 9 { ScanCode::Mute }
    else if k == 10 { ScanCode::VolumeUp }
    else { ScanCode::VolumeDown }
}

/// The pseudo-code that FN plus the F-key with index `k` produces.
pub fn fn_mapping(k: usize) -> (r: ScanCode)
    requires
        k < 12,
    ensures
        r == spec_fn_mapping(k as int),
{
    if k == 0 { ScanCode::FunctionPair }
    else if k == 1 { ScanCode::FunctionBluetooth }
    else if k == 2 { ScanCode::FunctionUnifying }
    else if k == 3 { ScanCode::FunctionUnpairAll }
    else if k == 4 { ScanCode::F4 }
    else if k == 5 { ScanCode::F5 }
    else if k == 6 { ScanCode::F6 }
    else if k == 7 { ScanCode::F7 }
    else if k == 8 { ScanCode::FunctionToggleGameMode }
    else if k == 9 { ScanCode::Mute }
    else if k == 10 { ScanCode::VolumeUp }
    else { ScanCode::VolumeDown }
}

/// The F-key with index `k` (zero for F1).
fn f_key(k: usize) -> (r: ScanCode)
    requires
        k < 12,
    ensures
        r.spec_code() == ScanCode::F1.spec_code() + k,
{
    if k == 0 { ScanCode::F1 }
    else if k == 1 { ScanCode::F2 }
    else if k == 2 { ScanCode::F3 }
    else if k == 3 { ScanCode::F4 }
    else if k == 4 { ScanCode::F5 }
    else if k == 5 { ScanCode::F6 }
    else if k == 6 { ScanCode::F7 }
    else if k == 7 { ScanCode::F8 }
    else if k == 8 { ScanCode::F9 }
    else if k == 9 { ScanCode::F10 }
    else if k == 10 { ScanCode::F11 }
    else { ScanCode::F12 }
}

/// The key state that is reported for the debounced state `s`: the FN
/// key itself and `Invalid` are always absent; while FN is held, each of
/// the twelve F-keys is replaced by its mapped pseudo-code, and every
/// other key passes through unchanged.
/// Whether some pressed F-key maps to the pseudo-code `i` under FN.
pub open spec fn spec_fn_target_pressed(s: KeyState, i: int) -> bool {
    exists|k: int|
        0 <= k < 12 && #[trigger] spec_fn_mapping(k).spec_code() == i && s.spec_bit(
            ScanCode::F1.spec_code() + k,
        )
}

pub open spec fn spec_remapped_bit(s: KeyState, i: int) -> bool {
    if i == ScanCode::Invalid.spec_code() || i == ScanCode::Function.spec_code() {
        false
    } else if !s.spec_key(ScanCode::Function) {
        s.spec_bit(i)
    } else if ScanCode::F1.spec_code() <= i <= ScanCode::F12.spec_code() {
        spec_fn_target_pressed(s, i)
    } else {
        s.spec_bit(i) || spec_fn_target_pressed(s, i)
    }
}

/// The partially remapped key state after the F-keys with index below `k`
/// have been processed, FN already cleared.
spec fn spec_partial_remap(s: KeyState, k: int, i: int) -> bool {
    if i == ScanCode::Function.spec_code() {
        false
    } else if ScanCode::F1.spec_code() <= i <= ScanCode::F12.spec_code() && i
        - ScanCode::F1.spec_code() < k {
        exists|k2: int|
            0 <= k2 < k && #[trigger] spec_fn_mapping(k2).spec_code() == i && s.spec_bit(
                ScanCode::F1.spec_code() + k2,
            )
    } else {
        s.spec_bit(i) || exists|k2: int|
            0 <= k2 < k && #[trigger] spec_fn_mapping(k2).spec_code() == i && s.spec_bit(
                ScanCode::F1.spec_code() + k2,
            )
    }
}

/// Applies the FN-key mapping and removes keys that are never reported.
fn remap(state: &KeyState) -> (r: KeyState)
    ensures
        forall|i: int| #[trigger] r.spec_bit(i) == spec_remapped_bit(*state, i),
{
    let mut mapped = state.clone();
    if mapped.key_is_set(ScanCode::Function) {
        mapped.clear_key(ScanCode::Function);
        assert forall|i: int| #[trigger] mapped.spec_bit(i) == spec_partial_remap(
            *state,
            0,
            i,
        ) by {}
        let mut k: usize = 0;
        while k < 12
            invariant
                k <= 12,
                state.spec_key(ScanCode::Function),
                forall|i: int| #[trigger] mapped.spec_bit(i) == spec_partial_remap(
                    *state,
                    k as int,
                    i,
                ),
            decreases 12 - k,
        {
            let key = f_key(k);
            let ghost pre = mapped;
            if mapped.key_is_set(key) {
                mapped.clear_key(key);
                mapped.set_key(fn_mapping(k));
            }
            proof {
                let ki = k as int;
                let f1 = ScanCode::F1.spec_code() as int;
                assert(pre.spec_bit(f1 + ki) == state.spec_bit(f1 + ki)) by {
                    assert(pre.spec_bit(f1 + ki) == spec_partial_remap(*state, ki, f1 + ki));
                }
                assert forall|i: int| #[trigger] mapped.spec_bit(i) == spec_partial_remap(
                    *state,
                    ki + 1,
                    i,
                ) by {
                    if mapped.spec_bit(i) {
                        if pre.spec_bit(i) && !(i == f1 + ki && state.spec_bit(f1 + ki)) {
                            assert(spec_partial_remap(*state, ki, i));
                            if !(f1 <= i <= ScanCode::F12.spec_code() && i - f1 < ki)
                                && !state.spec_bit(i) {
                                let k2 = choose|k2: int|
                                    0 <= k2 < ki && #[trigger] spec_fn_mapping(k2).spec_code() == i
                                        && state.spec_bit(f1 + k2);
                                assert(0 <= k2 < ki + 1 && spec_fn_mapping(k2).spec_code() == i
                                    && state.spec_bit(f1 + k2));
                            }
                        } else {
                            assert(state.spec_bit(f1 + ki) && i == spec_fn_mapping(
                                ki,
                            ).spec_code());
                            assert(0 <= ki < ki + 1 && spec_fn_mapping(ki).spec_code() == i
                                && state.spec_bit(f1 + ki));
                        }
                    } else {
                        if spec_partial_remap(*state, ki + 1, i) {
                            if i == ScanCode::Function.spec_code() {
                            } else if f1 <= i <= ScanCode::F12.spec_code() && i - f1 < ki + 1 {
                                let k2 = choose|k2: int|
                                    0 <= k2 < ki + 1 && #[trigger] spec_fn_mapping(
                                        k2,
                                    ).spec_code() == i && state.spec_bit(f1 + k2);
                                if k2 < ki {
                                    assert(spec_partial_remap(*state, ki, i));
                                    assert(pre.spec_bit(i));
                                } else {
                                    assert(i == spec_fn_mapping(ki).spec_code());
                                    assert(state.spec_bit(f1 + ki));
                                }
                            } else {
                                if state.spec_bit(i) {
                                    assert(spec_partial_remap(*state, ki, i));
                                    assert(pre.spec_bit(i));
                                } else {
                                    let k2 = choose|k2: int|
                                        0 <= k2 < ki + 1 && #[trigger] spec_fn_mapping(
                                            k2,
                                        ).spec_code() == i && state.spec_bit(f1 + k2);
                                    if k2 < ki {
                                        assert(spec_partial_remap(*state, ki, i));
                                        assert(pre.spec_bit(i));
                                    } else {
                                        assert(i == spec_fn_mapping(ki).spec_code());
                                        assert(state.spec_bit(f1 + ki));
                                    }
                                }
                            }
                            assert(false);
                        }
                    }
                }
            }
            k = k + 1;
        }
        mapped.clear_key(ScanCode::Invalid);
        proof {
            assert forall|i: int| #[trigger] mapped.spec_bit(i) == spec_remapped_bit(
                *state,
                i,
            ) by {
                if i != ScanCode::Invalid.spec_code() && i != ScanCode::Function.spec_code() {
                    assert(mapped.spec_bit(i) == spec_partial_remap(*state, 12, i));
                }
            }
        }
    } else {
        mapped.clear_key(ScanCode::Invalid);
    }
    mapped
}

/// Whether column `j` of the sampled row word `w` reads as pressed.
pub open spec fn col_bit(w: u16, j: u16) -> bool {
    (w >> j) & 1 == 1
}

/// Builds the raw key state from one full matrix sample, mapping each
/// pressed matrix position to its key.
pub fn matrix_to_key_state(rows: &[u16; 6]) -> (r: KeyState)
    ensures
        forall|c: int|
            #[trigger] r.spec_bit(c) == exists|row: int, col: int|
                0 <= row < 6 && 0 <= col < 16 && #[trigger] col_bit(rows[row], col as u16)
                    && spec_matrix_location(row, col).spec_code() == c,
{
    let mut key_state = KeyState::new();
    let mut row: usize = 0;
    while row < 6
        invariant
            row <= 6,
            forall|c: int|
                #[trigger] key_state.spec_bit(c) == exists|r0: int, c0: int|
                    0 <= r0 < row && 0 <= c0 < 16 && #[trigger] col_bit(rows[r0], c0 as u16)
                        && spec_matrix_location(r0, c0).spec_code() == c,
        decreases 6 - row,
    {
        let row_data = rows[row];
        let mut column: usize = 0;
        while column < 16
            invariant
                row < 6,
                column <= 16,
                row_data == rows[row as int],
                forall|c: int|
                    #[trigger] key_state.spec_bit(c) == exists|r0: int, c0: int|
                        0 <= r0 < 6 && 0 <= c0 < 16 && (r0 < row || (r0 == row && c0 < column))
                            && #[trigger] col_bit(rows[r0], c0 as u16) && spec_matrix_location(
                            r0,
                            c0,
                        ).spec_code() == c,
            decreases 16 - column,
        {
            let pressed = (row_data >> (column as u16)) & 1 == 1;
            let loc = matrix_location(row, column);
            let ghost pre = key_state;
            if pressed {
                key_state.set_key(loc);
            }
            proof {
                let r1 = row as int;
                let c1 = column as int;
                assert forall|c: int|
                    #[trigger] key_state.spec_bit(c) == exists|r0: int, c0: int|
                        0 <= r0 < 6 && 0 <= c0 < 16 && (r0 < r1 || (r0 == r1 && c0 < c1 + 1))
                            && #[trigger] col_bit(rows[r0], c0 as u16) && spec_matrix_location(
                            r0,
                            c0,
                        ).spec_code() == c by {
                    if key_state.spec_bit(c) {
                        if pre.spec_bit(c) {
                            let (r0, c0) = choose|r0: int, c0: int|
                                0 <= r0 < 6 && 0 <= c0 < 16 && (r0 < r1 || (r0 == r1 && c0 < c1))
                                    && #[trigger] col_bit(rows[r0], c0 as u16)
                                    && spec_matrix_location(r0, c0).spec_code() == c;
                            assert(0 <= r0 < 6 && 0 <= c0 < 16 && (r0 < r1 || (r0 == r1 && c0 < c1
                                + 1)) && col_bit(rows[r0], c0 as u16) && spec_matrix_location(
                                r0,
                                c0,
                            ).spec_code() == c);
                        } else {
                            assert(pressed && c == loc.spec_code());
                            assert(0 <= r1 < 6 && 0 <= c1 < 16 && (r1 < r1 || (r1 == r1 && c1 < c1
                                + 1)) && col_bit(rows[r1], c1 as u16) && spec_matrix_location(
                                r1,
                                c1,
                            ).spec_code() == c);
                        }
                    } else {
                        if exists|r0: int, c0: int|
                            0 <= r0 < 6 && 0 <= c0 < 16 && (r0 < r1 || (r0 == r1 && c0 < c1 + 1))
                                && #[trigger] col_bit(rows[r0], c0 as u16) && spec_matrix_location(
                                r0,
                                c0,
                            ).spec_code() == c {
                            let (r0, c0) = choose|r0: int, c0: int|
                                0 <= r0 < 6 && 0 <= c0 < 16 && (r0 < r1 || (r0 == r1 && c0 < c1
                                    + 1)) && #[trigger] col_bit(rows[r0], c0 as u16)
                                    && spec_matrix_location(r0, c0).spec_code() == c;
                            if r0 < r1 || (r0 == r1 && c0 < c1) {
                                assert(pre.spec_bit(c));
                            } else {
                                assert(r0 == r1 && c0 == c1);
                                assert(pressed && c == loc.spec_code());
                            }
                            assert(false);
                        }
                    }
                }
            }
            column = column + 1;
        }
        row = row + 1;
    }
    key_state
}

/// The debounce-relevant state of one key bit: its debounced value and
/// the five history slots of "changed this tick" flags, most recent
/// first.
#[derive(PartialEq, Eq, Structural)]
#[verifier::ext_equal]
pub struct KeyBitState {
    pub deb: bool,
    pub h0: bool,
    pub h1: bool,
    pub h2: bool,
    pub h3: bool,
    pub h4: bool,
}

/// One shift of the history slots: the oldest flag drops out and an empty
/// slot enters.
pub open spec fn bit_shift(s: KeyBitState) -> KeyBitState {
    KeyBitState { deb: s.deb, h0: false, h1: s.h0, h2: s.h1, h3: s.h2, h4: s.h3 }
}

/// `t` shifts of the history slots.
pub open spec fn bit_shift_n(s: KeyBitState, t: int) -> KeyBitState
    decreases t,
{
    if t <= 0 {
        s
    } else {
        bit_shift(bit_shift_n(s, t - 1))
    }
}

/// One debounce step of a single key bit for a poll `interval_ms`
/// milliseconds after the previous one: the history is shifted by
/// `min(interval_ms, 5)`, the bit is frozen at its previous debounced
/// value if any of the shifted slots one to four records a recent change,
/// taken from the raw sample otherwise, and the resulting transition is
/// recorded in slot zero.
pub open spec fn bit_step(s: KeyBitState, raw: bool, interval_ms: int) -> KeyBitState {
    let sh = bit_shift_n(
        s,
        if interval_ms >= 5 {
            5
        } else {
            interval_ms
        },
    );
    let frozen = sh.h1 || sh.h2 || sh.h3 || sh.h4;
    let deb = if frozen {
        s.deb
    } else {
        raw
    };
    KeyBitState { deb, h0: deb != s.deb, h1: sh.h1, h2: sh.h2, h3: sh.h3, h4: sh.h4 }
}

/// Key state collection and debouncing.
///
/// This type collects all keys from the main key matrix, applies the
/// debounce window, and interprets FN key combinations. The driver loop
/// around it polls at the interval chosen by the last power transition.
pub struct Keys<KeyMatrix: KeyMatrixHardware> {
    pub key_matrix: KeyMatrix,
    pub bitmap_debounced: KeyState,
    pub key_changes: [Bitmap; 5],
    pub reported: KeyState,
}

/// Everything one debounce step does, relating the state before
/// (`pre`), the raw matrix sample, and the poll interval to the state
/// after (`post`) and the emitted event: every key bit advances by
/// [`bit_step`], and a change event carrying the remapped state is
/// emitted exactly when some bit changed this step and the remapped
/// state differs from the last reported one.
pub open spec fn debounce_rel<KeyMatrix: KeyMatrixHardware>(
    pre: Keys<KeyMatrix>,
    raw: KeyState,
    interval_ms: u32,
    post: Keys<KeyMatrix>,
    r: Option<KeysOutEvent>,
) -> bool {
    &&& forall|i: int|
        #[trigger] post.spec_bit_state(i) == bit_step(
            pre.spec_bit_state(i),
            raw.spec_bit(i),
            interval_ms as int,
        )
    &&& if (exists|i: int| #[trigger] post.key_changes[0].spec_bit(i)) && (exists|i: int|
        #[trigger] post.reported_differs_at(pre, i)) {
        &&& forall|i: int|
            #[trigger] post.reported.spec_bit(i) == spec_remapped_bit(post.bitmap_debounced, i)
        &&& r matches Some(ev) && ev matches KeysOutEvent::KeysChanged(ks) && forall|i: int|
            #[trigger] ks.spec_bit(i) == spec_remapped_bit(post.bitmap_debounced, i)
    } else {
        &&& post.reported == pre.reported
        &&& r is None
    }
}

impl<KeyMatrix: KeyMatrixHardware> Keys<KeyMatrix> {
    /// The per-bit debounce state of key bit `i`.
    pub open spec fn spec_bit_state(self, i: int) -> KeyBitState {
        KeyBitState {
            deb: self.bitmap_debounced.spec_bit(i),
            h0: self.key_changes[0].spec_bit(i),
            h1: self.key_changes[1].spec_bit(i),
            h2: self.key_changes[2].spec_bit(i),
            h3: self.key_changes[3].spec_bit(i),
            h4: self.key_changes[4].spec_bit(i),
        }
    }

    /// Whether the remapped form of the new debounced state differs from
    /// the state last reported before the step.
    pub open spec fn reported_differs_at(self, pre: Self, i: int) -> bool {
        spec_remapped_bit(self.bitmap_debounced, i) != pre.reported.spec_bit(i)
    }

    /// Creates the key handler and enables the key matrix; returns with
    /// no key pressed, no change recorded, and nothing reported yet.
    pub fn new(key_matrix: KeyMatrix) -> (r: Keys<KeyMatrix>)
        ensures
            forall|i: int| !r.bitmap_debounced.spec_bit(i),
            forall|i: int| !r.reported.spec_bit(i),
            forall|k: int, i: int| 0 <= k < 5 ==> !(#[trigger] r.key_changes[k].spec_bit(i)),
    {
        let mut key_matrix = key_matrix;
        key_matrix.enable();
        Keys {
            key_matrix,
            bitmap_debounced: KeyState::new(),
            key_changes: [Bitmap::new(), Bitmap::new(), Bitmap::new(), Bitmap::new(), Bitmap::new()],
            reported: KeyState::new(),
        }
    }

    /// Applies one debounce step to a raw matrix sample taken
    /// `interval_ms` milliseconds after the previous poll, and returns
    /// the change event to publish, if any.
    pub fn debounce_step(&mut self, key_state_bouncy: &KeyState, interval_ms: u32) -> (r: Option<
        KeysOutEvent,
    >)
        ensures
            final (self).key_matrix == old(self).key_matrix,
            debounce_rel(*old(self), *key_state_bouncy, interval_ms, *final (self), r),
    {
        let bitmap_debounced_old = self.bitmap_debounced;

        // Shift the change history by one slot per elapsed millisecond,
        // up to the full window.
        let times_to_shift = if interval_ms >= 5 {
            5
        } else {
            interval_ms
        };
        let mut t: u32 = 0;
        while t < times_to_shift
            invariant
                t <= times_to_shift <= 5,
                self.key_matrix == old(self).key_matrix,
                self.bitmap_debounced == old(self).bitmap_debounced,
                self.reported == old(self).reported,
                forall|i: int|
                    #[trigger] self.spec_bit_state(i) == bit_shift_n(
                        old(self).spec_bit_state(i),
                        t as int,
                    ),
            decreases times_to_shift - t,
        {
            let ghost mid = *self;
            self.key_changes = [
                Bitmap::new(),
                self.key_changes[0],
                self.key_changes[1],
                self.key_changes[2],
                self.key_changes[3],
            ];
            proof {
                assert forall|i: int|
                    #[trigger] self.spec_bit_state(i) == bit_shift_n(
                        old(self).spec_bit_state(i),
                        t as int + 1,
                    ) by {
                    assert(self.spec_bit_state(i) =~= bit_shift(mid.spec_bit_state(i)));
                }
            }
            t = t + 1;
        }
        let ghost shifted = *self;
        let ghost tts = (if interval_ms >= 5 {
            5u32
        } else {
            interval_ms
        }) as int;

        // A bit that changed within the window (excluding the slot just
        // vacated for this tick) is frozen at its previous debounced
        // value; quiet bits take the raw sample.
        let changed = self.key_changes[1].or(&self.key_changes[2]).or(&self.key_changes[3]).or(
            &self.key_changes[4],
        );
        self.bitmap_debounced = KeyState::select(
            &changed,
            key_state_bouncy,
            &bitmap_debounced_old,
        );
        self.key_changes[0] = self.bitmap_debounced.get_changes(&bitmap_debounced_old);
        proof {
            assert forall|i: int|
                #[trigger] self.spec_bit_state(i) == bit_step(
                    old(self).spec_bit_state(i),
                    key_state_bouncy.spec_bit(i),
                    interval_ms as int,
                ) by {
                let s0 = old(self).spec_bit_state(i);
                let sh = bit_shift_n(s0, tts);
                assert(shifted.spec_bit_state(i) == sh);
                assert(changed.spec_bit(i) == (sh.h1 || sh.h2 || sh.h3 || sh.h4));
                assert(self.bitmap_debounced.spec_bit(i) == (if changed.spec_bit(i) {
                    s0.deb
                } else {
                    key_state_bouncy.spec_bit(i)
                }));
                assert(self.key_changes[0].spec_bit(i) == (self.bitmap_debounced.spec_bit(i)
                    != s0.deb));
                assert(self.spec_bit_state(i) =~= bit_step(
                    s0,
                    key_state_bouncy.spec_bit(i),
                    interval_ms as int,
                ));
            }
        }
        let ghost stepped = *self;

        // If any bit changed, report the remapped state, unless the
        // remapping hides the change (an FN-only transition).
        if self.key_changes[0].any_bit_set() {
            let mapped = remap(&self.bitmap_debounced);
            let diff = self.reported.get_changes(&mapped);
            if diff.any_bit_set() {
                proof {
                    let w = choose|i: int| diff.spec_bit(i);
                    assert(stepped.reported_differs_at(*old(self), w));
                }
                self.reported = mapped;
                proof {
                    assert forall|i: int|
                        #[trigger] self.spec_bit_state(i) == bit_step(
                            old(self).spec_bit_state(i),
                            key_state_bouncy.spec_bit(i),
                            interval_ms as int,
                        ) by {
                        assert(self.spec_bit_state(i) =~= stepped.spec_bit_state(i));
                    }
                    assert(self.key_changes[0] == stepped.key_changes[0]);
                    assert(exists|i: int| #[trigger] self.key_changes[0].spec_bit(i)) by {
                        let w0 = choose|i: int| stepped.key_changes[0].spec_bit(i);
                        assert(self.key_changes[0].spec_bit(w0));
                    }
                    assert(exists|i: int| #[trigger] self.reported_differs_at(*old(self), i)) by {
                        let w = choose|i: int| stepped.reported_differs_at(*old(self), i);
                        assert(self.reported_differs_at(*old(self), w));
                    }
                }
                return Some(KeysOutEvent::KeysChanged(mapped));
            }
            proof {
                assert forall|i: int| !(#[trigger] self.reported_differs_at(*old(self), i)) by {
                    assert(!diff.spec_bit(i));
                }
            }
        }
        None
    }

    /// Reads all six matrix rows, one row-select pattern at a time.
    /// What the hardware answers is not modeled; the caller learns only
    /// that the debounce state is untouched.
    fn scan_matrix(&mut self) -> (rows: [u16; 6])
        ensures
            final (self).bitmap_debounced == old(self).bitmap_debounced,
            final (self).key_changes == old(self).key_changes,
            final (self).reported == old(self).reported,
    {
        let mut rows = [0u16; 6];
        let mut row: usize = 0;
        while row < 6
            invariant
                row <= 6,
                self.bitmap_debounced == old(self).bitmap_debounced,
                self.key_changes == old(self).key_changes,
                self.reported == old(self).reported,
            decreases 6 - row,
        {
            let row_pattern = 1u8 << row;
            rows[row] = self.key_matrix.read_row(row_pattern);
            row = row + 1;
        }
        rows
    }

    /// Polls all keys and applies one debounce step.
    ///
    /// `interval_ms` must contain the milliseconds since the last call.
    /// Whatever raw sample the matrix hardware produced, the state
    /// advances and the event is emitted exactly as [`debounce_rel`]
    /// prescribes for that sample.
    pub fn poll(&mut self, interval_ms: u32) -> (r: Option<KeysOutEvent>)
        ensures
            exists|raw: KeyState|
                #[trigger] debounce_rel(*old(self), raw, interval_ms, *final (self), r),
    {
        let rows = self.scan_matrix();
        let ghost mid = *self;
        let raw = matrix_to_key_state(&rows);
        let r = self.debounce_step(&raw, interval_ms);
        proof {
            lemma_debounce_rel_state_only(mid, *old(self), raw, interval_ms, *self, r);
        }
        r
    }

    /// Applies one command from the dispatcher between polls: power
    /// transitions adjust the poll interval, are acknowledged, and on
    /// shutdown disable the matrix and stop the task; the numlock LED is
    /// accepted but not actionable yet.
    pub fn handle_in_event(&mut self, event: &KeysInEvent, poll_interval_ms: &mut u32) -> (r: (
        Option<KeysOutEvent>,
        bool,
    ))
        ensures
            final (self).bitmap_debounced == old(self).bitmap_debounced,
            final (self).key_changes == old(self).key_changes,
            final (self).reported == old(self).reported,
            match *event {
                KeysInEvent::PowerTransition(level) => match level {
                    PowerLevel::Normal => *final (poll_interval_ms) == 1 && r == (
                        Some(KeysOutEvent::PowerTransitionDone(PowerLevel::Normal)),
                        false,
                    ) && final (self).key_matrix == old(self).key_matrix,
                    PowerLevel::LowPower => *final (poll_interval_ms) == 10 && r == (
                        Some(KeysOutEvent::PowerTransitionDone(PowerLevel::LowPower)),
                        false,
                    ) && final (self).key_matrix == old(self).key_matrix,
                    PowerLevel::Shutdown => *final (poll_interval_ms) == *old(poll_interval_ms)
                        && r == (
                        Some(KeysOutEvent::PowerTransitionDone(PowerLevel::Shutdown)),
                        true,
                    ),
                },
                KeysInEvent::NumlockLed(_) => *final (poll_interval_ms) == *old(poll_interval_ms)
                    && r == (None::<KeysOutEvent>, false) && final (self).key_matrix == old(
                    self,
                ).key_matrix,
            },
    {
        match event {
            KeysInEvent::PowerTransition(power_level) => match power_level {
                PowerLevel::Normal => {
                    *poll_interval_ms = 1;
                    (Some(KeysOutEvent::PowerTransitionDone(PowerLevel::Normal)), false)
                },
                PowerLevel::LowPower => {
                    *poll_interval_ms = 10;
                    (Some(KeysOutEvent::PowerTransitionDone(PowerLevel::LowPower)), false)
                },
                PowerLevel::Shutdown => {
                    self.key_matrix.disable();
                    (Some(KeysOutEvent::PowerTransitionDone(PowerLevel::Shutdown)), true)
                },
            },
            KeysInEvent::NumlockLed(_numlock) => {
                // Forwarding to an attached numpad is not implemented.
                (None, false)
            },
        }
    }
}

/// A key whose change was just recorded is frozen for the following four
/// one-millisecond polls: however the raw signal toggles within that
/// window, the debounced value does not move and no further change is
/// recorded; and when the raw signal has toggled back to the debounced
/// value by the fifth poll, that poll records no change either. A bounce
/// away and back inside the window therefore never reaches the reported
/// state.
pub proof fn lemma_bounce_in_window_suppressed(
    s: KeyBitState,
    r1: bool,
    r2: bool,
    r3: bool,
    r4: bool,
    r5: bool,
)
    requires
        s.h0,
        !s.h1,
        !s.h2,
        !s.h3,
        !s.h4,
        r5 == s.deb,
    ensures
        ({
            let s1 = bit_step(s, r1, 1);
            let s2 = bit_step(s1, r2, 1);
            let s3 = bit_step(s2, r3, 1);
            let s4 = bit_step(s3, r4, 1);
            let s5 = bit_step(s4, r5, 1);
            &&& s1.deb == s.deb
            &&& s2.deb == s.deb
            &&& s3.deb == s.deb
            &&& s4.deb == s.deb
            &&& s5.deb == s.deb
            &&& !s1.h0
            &&& !s2.h0
            &&& !s3.h0
            &&& !s4.h0
            &&& !s5.h0
        }),
{
    reveal_with_fuel(bit_shift_n, 3);
}

/// Whatever the key's history, once the raw signal holds one value for
/// five consecutive one-millisecond polls, the debounced value has
/// settled on it, and the change was recorded in exactly one of those
/// polls if the debounced value had to move, and in none otherwise: a
/// settled key is reported exactly once, with the post-settle value.
pub proof fn lemma_stable_value_recorded_once(s: KeyBitState, v: bool)
    ensures
        ({
            let s1 = bit_step(s, v, 1);
            let s2 = bit_step(s1, v, 1);
            let s3 = bit_step(s2, v, 1);
            let s4 = bit_step(s3, v, 1);
            let s5 = bit_step(s4, v, 1);
            &&& s5.deb == v
            &&& (if s1.h0 {
                1int
            } else {
                0int
            }) + (if s2.h0 {
                1int
            } else {
                0int
            }) + (if s3.h0 {
                1int
            } else {
                0int
            }) + (if s4.h0 {
                1int
            } else {
                0int
            }) + (if s5.h0 {
                1int
            } else {
                0int
            }) == (if s.deb == v {
                0int
            } else {
                1int
            })
        }),
{
    reveal_with_fuel(bit_shift_n, 3);
}

/// Once the debounced value agrees with a steady raw signal, a poll at
/// any interval leaves it in place and records no change, whatever the
/// history window still holds.
pub proof fn lemma_settled_key_quiet(s: KeyBitState, v: bool, interval_ms: int)
    requires
        s.deb == v,
    ensures
        bit_step(s, v, interval_ms).deb == v,
        !bit_step(s, v, interval_ms).h0,
{
    reveal_with_fuel(bit_shift_n, 7);
}

/// The FN remapping law. While FN is held: FN itself and `Invalid` are
/// never reported; every pressed F-key contributes exactly its mapped
/// pseudo-code; an F-key code appears raw only where the mapping itself
/// re-targets it (F5 to F8 map down to F4 to F7); and every key outside
/// FN, `Invalid`, the F-row and the mapping's targets passes through
/// unchanged. In particular FN plus a mapped F-key yields the pseudo-code
/// and never the raw F-key, and FN plus an ordinary key yields that key
/// with FN absent.
pub proof fn lemma_fn_remapping(s: KeyState)
    requires
        s.spec_key(ScanCode::Function),
    ensures
        !spec_remapped_bit(s, ScanCode::Function.spec_code() as int),
        !spec_remapped_bit(s, ScanCode::Invalid.spec_code() as int),
        forall|k: int|
            0 <= k < 12 && s.spec_bit(ScanCode::F1.spec_code() + k)
                ==> spec_remapped_bit(s, #[trigger] spec_fn_mapping(k).spec_code() as int),
        forall|i: int|
            ScanCode::F1.spec_code() <= i <= ScanCode::F12.spec_code()
                ==> #[trigger] spec_remapped_bit(s, i) == spec_fn_target_pressed(s, i),
        forall|i: int|
            i != ScanCode::Function.spec_code() && i != ScanCode::Invalid.spec_code() && !(
            ScanCode::F1.spec_code() <= i <= ScanCode::F12.spec_code()) && !spec_fn_target_pressed(
                s,
                i,
            ) ==> #[trigger] spec_remapped_bit(s, i) == s.spec_bit(i),
{
    assert forall|k: int| 0 <= k < 12 && s.spec_bit(ScanCode::F1.spec_code() + k) implies
        spec_remapped_bit(s, #[trigger] spec_fn_mapping(k).spec_code() as int) by {
        let i = spec_fn_mapping(k).spec_code() as int;
        assert(spec_fn_target_pressed(s, i));
        assert(i != ScanCode::Invalid.spec_code() && i != ScanCode::Function.spec_code());
    }
}

/// Pressing FN alone reports nothing: the remapped state is empty, so no
/// change event is produced for an FN-only press.
pub proof fn lemma_fn_alone_silent(s: KeyState)
    requires
        s.spec_key(ScanCode::Function),
        forall|i: int| i != ScanCode::Function.spec_code() ==> !s.spec_bit(i),
    ensures
        forall|i: int| !spec_remapped_bit(s, i),
{
    assert forall|i: int| !spec_remapped_bit(s, i) by {
        if spec_remapped_bit(s, i) {
            if i != ScanCode::Invalid.spec_code() && i != ScanCode::Function.spec_code() {
                if spec_fn_target_pressed(s, i) {
                    let k = choose|k: int|
                        0 <= k < 12 && #[trigger] spec_fn_mapping(k).spec_code() == i
                            && s.spec_bit(ScanCode::F1.spec_code() + k);
                    assert(!s.spec_bit(ScanCode::F1.spec_code() + k));
                }
            }
        }
    }
}

/// [`debounce_rel`] does not depend on the hardware half of the key
/// handler: two pre-states with the same debounce fields admit the same
/// steps.
proof fn lemma_debounce_rel_state_only<KeyMatrix: KeyMatrixHardware>(
    pre1: Keys<KeyMatrix>,
    pre2: Keys<KeyMatrix>,
    raw: KeyState,
    interval_ms: u32,
    post: Keys<KeyMatrix>,
    r: Option<KeysOutEvent>,
)
    requires
        debounce_rel(pre1, raw, interval_ms, post, r),
        pre2.bitmap_debounced == pre1.bitmap_debounced,
        pre2.key_changes == pre1.key_changes,
        pre2.reported == pre1.reported,
    ensures
        debounce_rel(pre2, raw, interval_ms, post, r),
{
    assert forall|i: int| #[trigger] pre2.spec_bit_state(i) == pre1.spec_bit_state(i) by {
        assert(pre2.spec_bit_state(i) =~= pre1.spec_bit_state(i));
    }
    let d1 = exists|i: int| #[trigger] post.reported_differs_at(pre1, i);
    let d2 = exists|i: int| #[trigger] post.reported_differs_at(pre2, i);
    assert(d1 == d2) by {
        if d1 {
            let w = choose|i: int| #[trigger] post.reported_differs_at(pre1, i);
            assert(post.reported_differs_at(pre2, w));
        }
        if d2 {
            let w = choose|i: int| #[trigger] post.reported_differs_at(pre2, i);
            assert(post.reported_differs_at(pre1, w));
        }
    }
}

} // verus!
