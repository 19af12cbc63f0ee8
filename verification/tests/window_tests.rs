use kakapo::ui::{refresh_due, WindowListState, REFRESH_INTERVAL_NANOS};
use kakapo::window_manager::{listed_window, window_entry, WindowInfo};

fn buffer_with(title: &str) -> ([u16; 512], i32) {
    let mut buffer = [0u16; 512];
    let units: Vec<u16> = title.encode_utf16().collect();
    buffer[..units.len()].copy_from_slice(&units);
    (buffer, units.len() as i32)
}

fn window(title: &str, hwnd: isize) -> WindowInfo {
    WindowInfo { title: title.to_string(), hwnd }
}

#[test]
fn visible_titled_window_is_listed() {
    let (buffer, len) = buffer_with("Notepad – Untitled");
    let entry = window_entry(0x1234, true, &buffer, len).expect("listed");
    assert_eq!(entry.title, "Notepad – Untitled");
    assert_eq!(entry.hwnd, 0x1234);
}

#[test]
fn hidden_or_untitled_windows_are_skipped() {
    let (buffer, len) = buffer_with("Hidden");
    assert!(window_entry(1, false, &buffer, len).is_none());
    assert!(window_entry(1, true, &buffer, 0).is_none());
    assert!(window_entry(1, true, &buffer, -1).is_none());
}

#[test]
fn title_is_decoded_lossily() {
    let mut buffer = [0u16; 512];
    buffer[0] = 0xD800;
    buffer[1] = 0x41;
    let entry = window_entry(7, true, &buffer, 2).expect("listed");
    assert_eq!(entry.title, "\u{FFFD}A");
}

#[test]
fn empty_title_is_not_listed() {
    assert!(listed_window(3, String::new()).is_none());
    let w = listed_window(3, "x".to_string()).expect("listed");
    assert_eq!((w.title.as_str(), w.hwnd), ("x", 3));
}

#[test]
fn refresh_is_due_after_one_second() {
    assert_eq!(REFRESH_INTERVAL_NANOS, 1_000_000_000);
    assert!(!refresh_due(0));
    assert!(!refresh_due(1_000_000_000));
    assert!(refresh_due(1_000_000_001));
}

#[test]
fn nothing_selected_sends_nothing() {
    let state = WindowListState::new(vec![window("A", 1), window("B", 2)]);
    assert!(state.selected_window().is_none());
    assert_eq!(state.send_target("hello"), None);
    let panel = state.panel_state("hello", true);
    assert!(!panel.send_enabled);
    assert_eq!(panel.selected_title, None);
    assert!(panel.rows.iter().all(|r| !r.is_selected));
}

#[test]
fn selected_window_is_the_target() {
    let mut state = WindowListState::new(vec![window("A", 1), window("B", 2), window("C", 3)]);
    state.select_window(window("B", 2));
    assert_eq!(state.send_target("hello"), Some(2));
    assert_eq!(state.send_target(""), None);
    let panel = state.panel_state("hello", false);
    assert!(panel.send_enabled);
    assert_eq!(panel.selected_title.as_deref(), Some("B"));
    assert!(!panel.jitter_enabled);
    let numbers: Vec<usize> = panel.rows.iter().map(|r| r.number).collect();
    assert_eq!(numbers, vec![1, 2, 3]);
    let selected: Vec<bool> = panel.rows.iter().map(|r| r.is_selected).collect();
    assert_eq!(selected, vec![false, true, false]);
    assert_eq!(panel.rows[2].title, "C");
    assert_eq!(panel.rows[2].hwnd, 3);
}

#[test]
fn send_button_matches_send_target() {
    let mut state = WindowListState::new(vec![window("A", 1)]);
    for text in ["", "x"] {
        assert_eq!(state.panel_state(text, true).send_enabled, state.send_target(text).is_some());
    }
    state.select_window(window("A", 1));
    for text in ["", "x"] {
        assert_eq!(state.panel_state(text, true).send_enabled, state.send_target(text).is_some());
    }
    assert!(!state.panel_state("", true).send_enabled);
}

#[test]
fn refresh_keeps_the_selection() {
    let mut state = WindowListState::new(vec![window("A", 1)]);
    state.select_window(window("A", 1));
    state.refresh_windows(vec![window("Z", 9)]);
    assert_eq!(state.selected_window().map(|w| w.hwnd), Some(1));
    assert_eq!(state.windows().len(), 1);
    assert_eq!(state.windows()[0].hwnd, 9);
    assert!(!state.panel_state("t", true).rows[0].is_selected);
}

#[test]
fn every_character_can_be_sent() {
    let state = WindowListState::new(Vec::new());
    assert!(state.get_invalid_chars("any text ✓ 😀\n").is_empty());
    let panel = state.panel_state("abc", true);
    assert!(panel.invalid_chars.is_empty());
    assert!(!panel.show_invalid_warning);
    assert!(panel.show_all_sendable);
    assert!(!state.panel_state("", true).show_all_sendable);
}

fn decode(units: &[u16]) -> Option<String> {
    let mut buffer = [0u16; 512];
    buffer[..units.len()].copy_from_slice(units);
    window_entry(1, true, &buffer, units.len() as i32).map(|w| w.title)
}

#[test]
fn unpaired_surrogates_become_replacement_characters() {
    let units = [0xD834, 0xDD1E, 0x6d, 0x75, 0x73, 0xDD1E, 0x69, 0x63, 0xD834];
    assert_eq!(decode(&units).as_deref(), Some("𝄞mus\u{FFFD}ic\u{FFFD}"));
    assert_eq!(decode(&[0xD800, 0xD800, 0x41]).as_deref(), Some("\u{FFFD}\u{FFFD}A"));
    assert_eq!(decode(&[0xDC00]).as_deref(), Some("\u{FFFD}"));
    assert_eq!(decode(&[0xD83D, 0xDE00]).as_deref(), Some("😀"));
}

#[test]
fn any_titled_visible_window_is_listed() {
    for units in [&[0xDC00u16][..], &[0xD800], &[0x20], &[0]] {
        assert!(decode(units).is_some());
    }
}

#[test]
fn decoding_the_typed_units_gives_the_character_back() {
    for ch in ['a', 'é', '€', '\u{FFFF}', '\u{10000}', '😀', '\u{10FFFF}'] {
        let units = kakapo::keyboard::encode_utf16(ch);
        assert_eq!(decode(&units), Some(ch.to_string()));
    }
}
