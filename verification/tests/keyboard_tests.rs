use kakapo::keyboard::{
    batch_outcome, create_key_input, encode_utf16, enter_key_batch, is_line_break_char,
    key_batches_for_char, unicode_char_batches, KeyBatch, KeyInput, KeystrokeError,
    EVENTS_PER_BATCH, KEYEVENTF_KEYUP, KEYEVENTF_UNICODE, VK_RETURN,
};

#[test]
fn key_input_flags_follow_press_release_and_kind() {
    assert_eq!(
        create_key_input(0x41, false, false),
        KeyInput { virtual_key: 0, scan_code: 0x41, flags: 0x0004 }
    );
    assert_eq!(
        create_key_input(0x41, true, false),
        KeyInput { virtual_key: 0, scan_code: 0x41, flags: 0x0006 }
    );
    assert_eq!(
        create_key_input(0, false, true),
        KeyInput { virtual_key: 0x0D, scan_code: 0, flags: 0 }
    );
    assert_eq!(
        create_key_input(0, true, true),
        KeyInput { virtual_key: 0x0D, scan_code: 0, flags: 0x0002 }
    );
    assert_eq!(KEYEVENTF_UNICODE | KEYEVENTF_KEYUP, 6);
    assert_eq!(VK_RETURN, 13);
}

#[test]
fn utf16_encoding_matches_std() {
    for ch in ['a', '\n', 'é', '€', '\u{FFFF}', '\u{10000}', '😀', '\u{10FFFF}', '\u{D7FF}', '\u{E000}'] {
        let mut buf = [0u16; 2];
        let expected: Vec<u16> = ch.encode_utf16(&mut buf).to_vec();
        assert_eq!(encode_utf16(ch), expected, "char {:?}", ch);
    }
    assert_eq!(encode_utf16('😀'), vec![0xD83D, 0xDE00]);
    assert_eq!(encode_utf16('A'), vec![0x41]);
}

#[test]
fn line_breaks_type_the_enter_key() {
    let enter = enter_key_batch();
    assert_eq!(enter.press, KeyInput { virtual_key: 0x0D, scan_code: 0, flags: 0 });
    assert_eq!(enter.release, KeyInput { virtual_key: 0x0D, scan_code: 0, flags: 2 });
    assert_eq!(key_batches_for_char('\n'), vec![enter]);
    assert_eq!(key_batches_for_char('\r'), vec![enter]);
    assert!(is_line_break_char('\n'));
    assert!(is_line_break_char('\r'));
    assert!(!is_line_break_char('\t'));
}

#[test]
fn characters_type_their_code_units() {
    let a = key_batches_for_char('a');
    assert_eq!(
        a,
        vec![KeyBatch {
            press: KeyInput { virtual_key: 0, scan_code: 0x61, flags: 4 },
            release: KeyInput { virtual_key: 0, scan_code: 0x61, flags: 6 },
        }]
    );
    let emoji = unicode_char_batches('😀');
    assert_eq!(emoji.len(), 2);
    assert_eq!(emoji[0].press.scan_code, 0xD83D);
    assert_eq!(emoji[1].press.scan_code, 0xDE00);
    assert_eq!(key_batches_for_char('😀'), emoji);
}

#[test]
fn every_batch_presses_then_releases_the_same_key() {
    for ch in ['x', '\r', 'ß', '𝄞', '\n', ' '] {
        for batch in key_batches_for_char(ch) {
            assert_eq!(batch.press.scan_code, batch.release.scan_code);
            assert_eq!(batch.press.virtual_key, batch.release.virtual_key);
            assert_eq!(batch.release.flags, batch.press.flags | KEYEVENTF_KEYUP);
            assert_eq!(batch.press.flags & KEYEVENTF_KEYUP, 0);
        }
    }
}

#[test]
fn distinct_characters_type_distinct_batches() {
    let chars = ['a', 'b', 'é', '😀', '😁', '\u{FFFF}', '\u{10000}', '\n'];
    for (i, x) in chars.iter().enumerate() {
        for (j, y) in chars.iter().enumerate() {
            if i != j {
                assert_ne!(key_batches_for_char(*x), key_batches_for_char(*y));
            }
        }
    }
}

#[test]
fn batch_outcome_accepts_exactly_two_events() {
    assert_eq!(EVENTS_PER_BATCH, 2);
    assert_eq!(batch_outcome('a', 2), Ok(()));
    assert_eq!(batch_outcome('\n', 2), Ok(()));
    assert_eq!(batch_outcome('\n', 1), Err(KeystrokeError::EnterKey { sent: 1 }));
    assert_eq!(batch_outcome('\r', 0), Err(KeystrokeError::EnterKey { sent: 0 }));
    assert_eq!(batch_outcome('x', 0), Err(KeystrokeError::Character { ch: 'x', sent: 0 }));
    assert_eq!(batch_outcome('😀', 3), Err(KeystrokeError::Character { ch: '😀', sent: 3 }));
}

#[test]
fn flag_values_match_the_win32_definitions() {
    assert_eq!(windows::Win32::UI::Input::KeyboardAndMouse::KEYEVENTF_KEYUP.0, KEYEVENTF_KEYUP);
    assert_eq!(windows::Win32::UI::Input::KeyboardAndMouse::KEYEVENTF_UNICODE.0, KEYEVENTF_UNICODE);
    assert_eq!(windows::Win32::UI::Input::KeyboardAndMouse::VK_RETURN.0, VK_RETURN);
}
