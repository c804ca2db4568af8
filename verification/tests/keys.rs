use keyboard::keys::matrix_location;
use keyboard::keys::KeyMatrixHardware;
use keyboard::keys::Keys;
use keyboard::keys::KeysInEvent;
use keyboard::keys::KeysOutEvent;
use keyboard::scancode::ScanCode;
use keyboard::PowerLevel;

/// Artificial key matrix which allows setting the key state as part of
/// tests.
struct MockKeyMatrix {
    enabled: bool,
    matrix_state: [u16; 6],
}

impl MockKeyMatrix {
    fn new() -> MockKeyMatrix {
        MockKeyMatrix {
            enabled: false,
            matrix_state: [0; 6],
        }
    }
}

impl KeyMatrixHardware for MockKeyMatrix {
    fn enable(&mut self) {
        self.enabled = true;
    }

    fn disable(&mut self) {
        self.enabled = false;
    }

    fn read_row(&mut self, row_bitmap: u8) -> u16 {
        assert!(self.enabled, "select_row() on inactive matrix");
        assert!(row_bitmap.count_ones() == 1, "not exactly one row selected");
        let selected_row = row_bitmap.trailing_zeros() as usize;
        self.matrix_state[selected_row]
    }
}

fn set_single_key(keys: &mut Keys<MockKeyMatrix>, row: usize, column: u16) {
    keys.key_matrix.matrix_state = [0; 6];
    keys.key_matrix.matrix_state[row] = 1 << column;
}

fn set_two_keys(keys: &mut Keys<MockKeyMatrix>, row1: usize, column1: u16, row2: usize, column2: u16) {
    keys.key_matrix.matrix_state = [0; 6];
    keys.key_matrix.matrix_state[row1] = 1 << column1;
    keys.key_matrix.matrix_state[row2] = 1 << column2;
}

fn set_key(keys: &mut Keys<MockKeyMatrix>, row: usize, column: u16) {
    keys.key_matrix.matrix_state[row] |= 1 << column;
}

fn clear_matrix(keys: &mut Keys<MockKeyMatrix>) {
    keys.key_matrix.matrix_state = [0; 6];
}

fn pressed_keys(state: &keyboard::key_state::KeyState) -> Vec<ScanCode> {
    let mut result = Vec::new();
    let mut iter = state.iter();
    while let Some(key) = iter.next() {
        result.push(key);
    }
    result
}

fn expect_no_key_event(event: Option<KeysOutEvent>) {
    if event.is_some() {
        panic!("received key state change event, but no key changed");
    }
}

fn expect_key_event(event: Option<KeysOutEvent>, keys: &[ScanCode]) {
    let event = event.expect("did not generate key change event");
    if let KeysOutEvent::KeysChanged(key_state) = event {
        assert_eq!(&pressed_keys(&key_state), keys, "wrong keys received");
    } else {
        panic!("wrong event received");
    }
}

#[test]
fn test_key_mapping() {
    for row in 0..6 {
        for column in 0..16 {
            let scan_code = matrix_location(row, column);
            let mut keys = Keys::new(MockKeyMatrix::new());
            set_single_key(&mut keys, row, column as u16);

            let event = keys.poll(1);
            if scan_code == ScanCode::Function || scan_code == ScanCode::Invalid {
                // Not reported.
                expect_no_key_event(event);
            } else {
                expect_key_event(event, &[scan_code]);
            }
        }
    }
}

#[test]
fn keys_test_debouncing() {
    let row = 2;
    let column = 5;
    let scan_code = matrix_location(row, column as usize);
    let row2 = 3;
    let column2 = 7;
    let scan_code2 = matrix_location(row2, column2 as usize);

    let mut keys = Keys::new(MockKeyMatrix::new());

    expect_no_key_event(keys.poll(1));

    // Correct timing when keys are changed with more than 5ms
    // inbetween changes.
    set_single_key(&mut keys, row, column);
    expect_key_event(keys.poll(1), &[scan_code]);
    for _ in 0..4 {
        expect_no_key_event(keys.poll(1));
    }
    clear_matrix(&mut keys);
    expect_key_event(keys.poll(1), &[]);
    for _ in 0..4 {
        expect_no_key_event(keys.poll(1));
    }
    set_single_key(&mut keys, row, column);

    // Longer intervals.
    expect_key_event(keys.poll(1), &[scan_code]);
    clear_matrix(&mut keys);
    expect_key_event(keys.poll(5), &[]);
    set_single_key(&mut keys, row, column);
    expect_key_event(keys.poll(6), &[scan_code]);

    // Test whether bouncing is ignored.
    clear_matrix(&mut keys);
    expect_no_key_event(keys.poll(1));
    expect_no_key_event(keys.poll(1));
    expect_no_key_event(keys.poll(1));
    expect_no_key_event(keys.poll(1));
    expect_key_event(keys.poll(1), &[]);

    set_single_key(&mut keys, row, column);
    expect_no_key_event(keys.poll(1));
    clear_matrix(&mut keys);
    expect_no_key_event(keys.poll(1));
    set_single_key(&mut keys, row, column);
    expect_no_key_event(keys.poll(1));
    expect_no_key_event(keys.poll(1));
    expect_key_event(keys.poll(1), &[scan_code]);

    // Test whether bouncing is ignored for multiple keys.
    set_two_keys(&mut keys, row, column, row2, column2);
    expect_key_event(keys.poll(2), &[scan_code2, scan_code]);
    clear_matrix(&mut keys);
    expect_no_key_event(keys.poll(2));
    expect_key_event(keys.poll(2), &[scan_code2]);
    expect_key_event(keys.poll(1), &[]);
}

#[test]
fn test_fn_combinations() {
    // Test mapping of all FN key combinations.
    let f_row = 1;
    let f_columns = [15, 13, 12, 11, 10, 9, 8, 6, 7, 5, 4, 2];
    let fn_row = 5;
    let fn_column = 15;
    for i in 0..12 {
        let mut keys = Keys::new(MockKeyMatrix::new());
        set_two_keys(&mut keys, fn_row, fn_column, f_row, f_columns[i]);

        let event = keys.poll(1);
        let mapped = keyboard::keys::fn_mapping(i);
        if mapped == ScanCode::Invalid {
            // Not reported.
            expect_no_key_event(event);
        } else {
            expect_key_event(event, &[mapped]);
        }
    }

    // If multiple keys are pressed while FN is pressed, only the F
    // keys are translated.
    let a_row = 3;
    let a_column = 15;
    let mut keys = Keys::new(MockKeyMatrix::new());
    clear_matrix(&mut keys);
    set_key(&mut keys, fn_row, fn_column);
    set_key(&mut keys, f_row, f_columns[0]);
    set_key(&mut keys, a_row, a_column);

    let event = keys.poll(1);
    expect_key_event(event, &[ScanCode::A, keyboard::keys::fn_mapping(0)]);
}

#[test]
fn fn_alone_is_silent() {
    let fn_row = 5;
    let fn_column = 15;
    let mut keys = Keys::new(MockKeyMatrix::new());
    set_single_key(&mut keys, fn_row, fn_column);
    // FN alone remaps to nothing observable, so no event is emitted.
    expect_no_key_event(keys.poll(1));
}

#[test]
fn test_run() {
    // The driver loop alternates polls, command draining, and sleeps of
    // the current interval; this exercises the same decisions
    // synchronously.
    let mut keys = Keys::new(MockKeyMatrix::new());
    assert!(keys.key_matrix.enabled, "matrix not enabled by construction");
    let mut interval: u32 = 1;

    // Key state updates are emitted from polls.
    let a_row = 3;
    let a_column = 15;
    set_single_key(&mut keys, a_row, a_column as u16);
    expect_key_event(keys.poll(1), &[ScanCode::A]);

    // Power transitions adjust the poll interval and are acknowledged.
    let (event, stop) = keys.handle_in_event(
        &KeysInEvent::PowerTransition(PowerLevel::LowPower),
        &mut interval,
    );
    assert_eq!(
        event,
        Some(KeysOutEvent::PowerTransitionDone(PowerLevel::LowPower)),
        "expected power transition done event"
    );
    assert!(!stop);
    assert_eq!(interval, 10);

    let (event, stop) = keys.handle_in_event(
        &KeysInEvent::PowerTransition(PowerLevel::Normal),
        &mut interval,
    );
    assert_eq!(
        event,
        Some(KeysOutEvent::PowerTransitionDone(PowerLevel::Normal)),
        "expected power transition done event"
    );
    assert!(!stop);
    assert_eq!(interval, 1);

    // The numlock LED is accepted but not actionable.
    let (event, stop) = keys.handle_in_event(&KeysInEvent::NumlockLed(true), &mut interval);
    assert_eq!(event, None);
    assert!(!stop);

    // Shutdown disables the key matrix, acknowledges, and stops the task.
    let (event, stop) = keys.handle_in_event(
        &KeysInEvent::PowerTransition(PowerLevel::Shutdown),
        &mut interval,
    );
    assert_eq!(
        event,
        Some(KeysOutEvent::PowerTransitionDone(PowerLevel::Shutdown)),
        "expected power transition done event"
    );
    assert!(stop);
    assert_eq!(keys.key_matrix.enabled, false, "key matrix not disabled");
}
