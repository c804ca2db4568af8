use keyboard::key_state::Bitmap;
use keyboard::key_state::KeyState;
use keyboard::scancode::ScanCode;

fn collect_bits(bitmap: &Bitmap) -> Vec<usize> {
    let mut bits = Vec::new();
    let mut iter = bitmap.iter();
    while let Some(bit) = iter.next() {
        bits.push(bit);
    }
    bits
}

#[test]
fn test_bitmap() {
    // Test the initial state.
    let mut bitmap = Bitmap::new();

    assert_eq!(bitmap.data, [0; 8], "bitmap is initially empty");
    assert_eq!(
        collect_bits(&bitmap),
        vec![],
        "iterating over empty bitmap failed"
    );

    // Test setting bits.
    bitmap.set(0);
    bitmap.set(29);
    bitmap.set(31);
    bitmap.set(33);
    bitmap.set(255);
    bitmap.set(256);
    bitmap.set(100000);
    let good = [0xa0000001, 0x2, 0x0, 0x0, 0x0, 0x0, 0x0, 0x80000000];
    assert_eq!(bitmap.data, good, "correct bits are set");

    // Test iterating over bits.
    let good = vec![0, 29, 31, 33, 255];
    let bits_set = collect_bits(&bitmap);
    assert_eq!(bits_set, good, "iterating over bitmap failed");

    // Test bit_is_set().
    assert_eq!(bitmap.bit_is_set(0), true, "bit_is_set failed");
    assert_eq!(bitmap.bit_is_set(1), false, "bit_is_set failed");
    assert_eq!(bitmap.bit_is_set(29), true, "bit_is_set failed");
    assert_eq!(bitmap.bit_is_set(30), false, "bit_is_set failed");
    assert_eq!(bitmap.bit_is_set(31), true, "bit_is_set failed");
    assert_eq!(bitmap.bit_is_set(32), false, "bit_is_set failed");
    assert_eq!(bitmap.bit_is_set(33), true, "bit_is_set failed");
    assert_eq!(bitmap.bit_is_set(255), true, "bit_is_set failed");
    assert_eq!(bitmap.bit_is_set(256), false, "bit_is_set failed");

    // Test clearing bits.
    bitmap.clear(255);
    assert_eq!(bitmap.data[7], 0, "correct bit was cleared");
    assert_eq!(
        collect_bits(&bitmap),
        vec![0, 29, 31, 33],
        "iterating over bitmap failed after clearing"
    );
    bitmap.data[1] = 0xdeadc0de;
    bitmap.clear(35);
    assert_eq!(bitmap.data[1], 0xdeadc0d6, "correct bit was cleared");
    bitmap.clear(29);
    assert_eq!(bitmap.data[0], 0x80000001, "correct bit was cleared");
    bitmap.clear(100000);
}

#[test]
fn six_key_set_test() {
    // Test that keys are correctly collected from a bitmap.
    let mut bitmap = KeyState::new();
    let six_keys = bitmap.to_6kro();
    let mut good = [0, 0, 0, 0, 0, 0, 0, 0];
    assert_eq!(six_keys, good, "empty bitmap produced wrong SixKeySet");
    bitmap.set_key(ScanCode::X);
    let six_keys = bitmap.to_6kro();
    good[2] = ScanCode::X.code();
    assert_eq!(six_keys, good, "single key produced wrong SixKeySet",);
    bitmap.set_key(ScanCode::Escape);
    bitmap.set_key(ScanCode::A);
    bitmap.set_key(ScanCode::C);
    let six_keys = bitmap.to_6kro();
    good[2] = ScanCode::A.code();
    good[3] = ScanCode::C.code();
    good[4] = ScanCode::X.code();
    good[5] = ScanCode::Escape.code();
    assert_eq!(six_keys, good, "multiple keys produced wrong SixKeySet",);
    bitmap.clear_key(ScanCode::A);
    bitmap.set_key(ScanCode::D);
    bitmap.set_key(ScanCode::E);
    bitmap.set_key(ScanCode::F);
    let six_keys = bitmap.to_6kro();
    good[2] = ScanCode::C.code();
    good[3] = ScanCode::D.code();
    good[4] = ScanCode::E.code();
    good[5] = ScanCode::F.code();
    good[6] = ScanCode::X.code();
    good[7] = ScanCode::Escape.code();
    assert_eq!(six_keys, good, "6 keys produced wrong SixKeySet",);
    bitmap.set_key(ScanCode::G);
    let six_keys = bitmap.to_6kro();
    good[6] = ScanCode::G.code();
    good[7] = ScanCode::X.code();
    assert_eq!(six_keys, good, "7 keysproduced wrong SixKeySet",);
    bitmap.clear_key(ScanCode::D);
    bitmap.clear_key(ScanCode::E);
    bitmap.clear_key(ScanCode::F);
    let six_keys = bitmap.to_6kro();
    good[2] = ScanCode::C.code();
    good[3] = ScanCode::G.code();
    good[4] = ScanCode::X.code();
    good[5] = ScanCode::Escape.code();
    good[6] = 0;
    good[7] = 0;
    assert_eq!(six_keys, good, "4 keys produced wrong SixKeySet",);

    // Test that modifier keys are only collected as part of the
    // modifier byte.
    bitmap.set_key(ScanCode::LeftControl);
    let six_keys = bitmap.to_6kro();
    good[0] = 0x1;
    assert_eq!(six_keys, good, "left control produced wrong SixKeySet",);
    bitmap.set_key(ScanCode::RightAlt);
    let six_keys = bitmap.to_6kro();
    good[0] = 0x41;
    assert_eq!(six_keys, good, "lctrl+alt produced wrong SixKeySet",);
    bitmap.set_key(ScanCode::RightMeta);
    let six_keys = bitmap.to_6kro();
    good[0] = 0xC1;
    assert_eq!(six_keys, good, "lctrl+alt+rmeta produced wrong SixKeySet",);
    bitmap.clear_key(ScanCode::RightMeta);
    bitmap.clear_key(ScanCode::RightAlt);
    bitmap.clear_key(ScanCode::LeftControl);
    let six_keys = bitmap.to_6kro();
    good[0] = 0x0;
    assert_eq!(
        six_keys, good,
        "empty control byte produced wrong SixKeySet",
    );
}

#[test]
fn six_key_report_ignores_press_order() {
    let keys = [ScanCode::Q, ScanCode::A, ScanCode::Z, ScanCode::M, ScanCode::LeftShift];
    let mut forward = KeyState::new();
    for key in keys.iter() {
        forward.set_key(*key);
    }
    let mut backward = KeyState::new();
    for key in keys.iter().rev() {
        backward.set_key(*key);
    }
    assert_eq!(forward, backward, "press order changed the key state");
    assert_eq!(
        forward.to_6kro(),
        backward.to_6kro(),
        "press order changed the report"
    );
    // Re-serializing an unchanged state reproduces the report.
    assert_eq!(forward.to_6kro(), forward.to_6kro());
}

#[test]
fn six_key_report_keeps_modifiers_out_of_slots() {
    let mut state = KeyState::new();
    state.set_key(ScanCode::LeftShift);
    state.set_key(ScanCode::RightControl);
    state.set_key(ScanCode::B);
    let report = state.to_6kro();
    assert_eq!(report[0], 0x12, "modifier byte wrong");
    assert_eq!(report[1], 0, "reserved byte must stay zero");
    assert_eq!(report[2], ScanCode::B.code());
    for slot in 3..8 {
        assert_eq!(report[slot], 0, "unused slot not zero-filled");
    }
}

#[test]
fn scan_code_roundtrip() {
    let keys = [
        ScanCode::A,
        ScanCode::Z,
        ScanCode::Digit1,
        ScanCode::Escape,
        ScanCode::F1,
        ScanCode::F12,
        ScanCode::LeftControl,
        ScanCode::RightMeta,
        ScanCode::Function,
        ScanCode::FunctionPair,
        ScanCode::VolumeDown,
    ];
    for key in keys.iter() {
        assert_eq!(ScanCode::from_code(key.code()), *key, "code roundtrip failed");
    }
    assert_eq!(ScanCode::A.code(), 0x04);
    assert_eq!(ScanCode::LeftControl.code(), 0xe0);
    assert_eq!(ScanCode::Invalid.code(), 0x00);
    assert_eq!(ScanCode::from_code(0x99), ScanCode::Invalid);
}
