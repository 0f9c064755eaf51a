use chip8_vm::chip8::Chip8;
use chip8_vm::keypad::{handle_key, pad_key, KEY_PAUSE};

#[test]
fn keyboard_rows_lie_on_the_pad_rows() {
    let rows: [(&str, [usize; 4]); 4] = [
        ("1234", [0x1, 0x2, 0x3, 0xC]),
        ("qwer", [0x4, 0x5, 0x6, 0xD]),
        ("asdf", [0x7, 0x8, 0x9, 0xE]),
        ("zxcv", [0xA, 0x0, 0xB, 0xF]),
    ];
    for (keys, pad) in rows {
        for (key, expected) in keys.chars().zip(pad) {
            assert_eq!(pad_key(key as i32), Some(expected));
        }
    }
}

#[test]
fn other_keys_lie_on_no_pad_key() {
    let on_pad = "1234qwerasdfzxcv";
    for code in -300..300i32 {
        let is_on_pad = (0..128).contains(&code) && on_pad.contains(code as u8 as char);
        assert_eq!(pad_key(code).is_some(), is_on_pad);
    }
    assert_eq!(pad_key(i32::MAX), None);
    assert_eq!(pad_key(i32::MIN), None);
}

#[test]
fn key_events_set_and_clear_pad_keys() {
    let mut pad = [false; 16];
    let mut m = Chip8::new();
    handle_key(&mut pad, &mut m, 'w' as i32, true);
    handle_key(&mut pad, &mut m, '4' as i32, true);
    let mut expected = [false; 16];
    expected[0x5] = true;
    expected[0xC] = true;
    assert_eq!(pad, expected);
    handle_key(&mut pad, &mut m, 'w' as i32, false);
    expected[0x5] = false;
    assert_eq!(pad, expected);
    handle_key(&mut pad, &mut m, 'k' as i32, true);
    assert_eq!(pad, expected);
    assert!(!m.interrupted);
    assert_eq!(m.keys, [false; 16]);
}

#[test]
fn pause_key_toggles_on_press_only() {
    let mut pad = [false; 16];
    let mut m = Chip8::new();
    assert_eq!(KEY_PAUSE, 'p' as i32);
    handle_key(&mut pad, &mut m, KEY_PAUSE, true);
    assert!(m.interrupted);
    handle_key(&mut pad, &mut m, KEY_PAUSE, false);
    assert!(m.interrupted);
    handle_key(&mut pad, &mut m, KEY_PAUSE, true);
    assert!(!m.interrupted);
    assert_eq!(pad, [false; 16]);
}
