use vstd::prelude::*;

verus! {

/// `KEYEVENTF_KEYUP`: the event releases the key.
pub const KEYEVENTF_KEYUP: u32 = 0x0002;

/// `KEYEVENTF_UNICODE`: the event carries a UTF-16 code unit in its scan code.
pub const KEYEVENTF_UNICODE: u32 = 0x0004;

/// `VK_RETURN`: the virtual-key code of the Enter key.
pub const VK_RETURN: u16 = 0x000D;

/// How many events a batch holds, and so how many the system must accept for it.
pub const EVENTS_PER_BATCH: u32 = 2;

/// One keyboard input event: the part of a Win32 `KEYBDINPUT` that this library decides.
#[derive(Clone, Copy, Debug, PartialEq, Eq, Structural)]
pub struct KeyInput {
    /// Virtual-key code (`wVk`); zero for a Unicode event.
    pub virtual_key: u16,
    /// Scan code (`wScan`); for a Unicode event, the UTF-16 code unit.
    pub scan_code: u16,
    /// Event flags (`dwFlags`).
    pub flags: u32,
}

/// A key press followed by its release: what one call of `SendInput` delivers.
#[derive(Clone, Copy, Debug, PartialEq, Eq, Structural)]
pub struct KeyBatch {
    pub press: KeyInput,
    pub release: KeyInput,
}

/// Why typing stopped: the system accepted fewer events than a batch holds.
#[derive(Clone, Copy, Debug, PartialEq, Eq, Structural)]
pub enum KeystrokeError {
    /// The Enter key (sent for a line break) was not fully delivered.
    EnterKey { sent: u32 },
    /// A code unit of the character `ch` was not fully delivered.
    Character { ch: char, sent: u32 },
}

/// The flags of an event: Unicode events carry `KEYEVENTF_UNICODE`,
/// releases carry `KEYEVENTF_KEYUP`.
pub open spec fn key_event_flags(is_key_up: bool, is_virtual_key: bool) -> u32 {
    if is_key_up {
        if is_virtual_key {
            KEYEVENTF_KEYUP
        } else {
            KEYEVENTF_UNICODE | KEYEVENTF_KEYUP
        }
    } else if is_virtual_key {
        0
    } else {
        KEYEVENTF_UNICODE
    }
}

/// The event for a scan code; a virtual-key event is always the Enter key.
pub open spec fn key_input(scan_code: u16, is_key_up: bool, is_virtual_key: bool) -> KeyInput {
    KeyInput {
        virtual_key: if is_virtual_key { VK_RETURN } else { 0 },
        scan_code,
        flags: key_event_flags(is_key_up, is_virtual_key),
    }
}

/// Press and release of one UTF-16 code unit.
pub open spec fn unicode_batch(unit: u16) -> KeyBatch {
    KeyBatch { press: key_input(unit, false, false), release: key_input(unit, true, false) }
}

/// Press and release of the Enter key.
pub open spec fn enter_batch() -> KeyBatch {
    KeyBatch { press: key_input(0, false, true), release: key_input(0, true, true) }
}

/// The UTF-16 encoding of a character: one unit below U+10000, else a surrogate pair.
pub open spec fn utf16_units(ch: char) -> Seq<u16> {
    let c = ch as int;
    if c < 0x10000 {
        seq![c as u16]
    } else {
        seq![(0xD800 + (c - 0x10000) / 0x400) as u16, (0xDC00 + (c - 0x10000) % 0x400) as u16]
    }
}

/// Line feed and carriage return are typed as the Enter key.
pub open spec fn is_line_break(ch: char) -> bool {
    ch == '\n' || ch == '\r'
}

/// The batches that type one character.
pub open spec fn char_batches(ch: char) -> Seq<KeyBatch> {
    if is_line_break(ch) {
        seq![enter_batch()]
    } else {
        utf16_units(ch).map_values(|unit: u16| unicode_batch(unit))
    }
}

/// The batches that type a whole text, character after character.
pub open spec fn text_batches(chars: Seq<char>) -> Seq<KeyBatch>
    decreases chars.len(),
{
    if chars.len() == 0 {
        Seq::empty()
    } else {
        text_batches(chars.drop_last()) + char_batches(chars.last())
    }
}

/// The error for a batch of `ch` of which only `sent` events were accepted.
pub open spec fn keystroke_error(ch: char, sent: u32) -> KeystrokeError {
    if is_line_break(ch) {
        KeystrokeError::EnterKey { sent }
    } else {
        KeystrokeError::Character { ch, sent }
    }
}

/// Every batch presses a key and then releases the same key: the release differs
/// from the press only by `KEYEVENTF_KEYUP`, which the press does not carry.
pub proof fn lemma_batches_press_then_release(ch: char)
    ensures
        forall|i: int|
            #![trigger char_batches(ch)[i]]
            0 <= i < char_batches(ch).len() ==> {
                let b = char_batches(ch)[i];
                &&& b.release.scan_code == b.press.scan_code
                &&& b.release.virtual_key == b.press.virtual_key
                &&& b.release.flags == b.press.flags | KEYEVENTF_KEYUP
                &&& b.press.flags & KEYEVENTF_KEYUP == 0
            },
{
    assert((4u32 | 2u32) == 6u32) by (bit_vector);
    assert((0u32 | 2u32) == 2u32) by (bit_vector);
    assert((4u32 | 2u32) | 2u32 == 6u32) by (bit_vector);
    assert(0u32 & 2u32 == 0u32) by (bit_vector);
    assert(4u32 & 2u32 == 0u32) by (bit_vector);
}

/// The UTF-16 encoding is one-to-one: equal code units come from equal characters.
pub proof fn lemma_utf16_injective(a: char, b: char)
    requires
        utf16_units(a) == utf16_units(b),
    ensures
        a == b,
{
    let x = a as int;
    let y = b as int;
    if x < 0x10000 && y < 0x10000 {
        assert(utf16_units(a) == seq![x as u16]);
        assert(utf16_units(b) == seq![y as u16]);
        assert(seq![x as u16][0] == x as u16);
        assert(seq![y as u16][0] == y as u16);
        assert((x as u16) as int == x);
        assert((y as u16) as int == y);
        assert(x == y);
    } else if x >= 0x10000 && y >= 0x10000 {
        let v = x - 0x10000;
        let w = y - 0x10000;
        assert(utf16_units(a)[0] == utf16_units(b)[0]);
        assert(utf16_units(a)[1] == utf16_units(b)[1]);
        assert(v / 0x400 == w / 0x400);
        assert(v % 0x400 == w % 0x400);
        vstd::arithmetic::div_mod::lemma_fundamental_div_mod(v, 0x400);
        vstd::arithmetic::div_mod::lemma_fundamental_div_mod(w, 0x400);
        assert(v == w);
    } else {
        assert(utf16_units(a).len() != utf16_units(b).len());
    }
    assert(x == y);
    assert(a as u32 == b as u32);
    assert((a as u32) as char == a);
    assert((b as u32) as char == b);
}

/// Characters are told apart by their keystrokes: two characters typed with the
/// same batches are equal, unless both are line breaks (both type Enter).
pub proof fn lemma_char_batches_injective(a: char, b: char)
    requires
        char_batches(a) == char_batches(b),
        !(is_line_break(a) && is_line_break(b)),
    ensures
        a == b,
{
    if is_line_break(a) {
        assert(char_batches(b)[0].press.virtual_key == VK_RETURN);
    } else if is_line_break(b) {
        assert(char_batches(a)[0].press.virtual_key == VK_RETURN);
    } else {
        let ua = utf16_units(a);
        let ub = utf16_units(b);
        assert(char_batches(a).len() == ua.len());
        assert(char_batches(b).len() == ub.len());
        assert forall|i: int| 0 <= i < ua.len() implies ua[i] == ub[i] by {
            assert(char_batches(a)[i].press.scan_code == ua[i]);
            assert(char_batches(b)[i].press.scan_code == ub[i]);
        }
        assert(ua =~= ub);
        lemma_utf16_injective(a, b);
    }
}

/// Typing two texts one after the other sends the batches of their concatenation.
pub proof fn lemma_text_batches_append(s: Seq<char>, t: Seq<char>)
    ensures
        text_batches(s + t) == text_batches(s) + text_batches(t),
    decreases t.len(),
{
    if t.len() == 0 {
        assert(s + t =~= s);
        assert(text_batches(s) + text_batches(t) =~= text_batches(s));
    } else {
        lemma_text_batches_append(s, t.drop_last());
        assert((s + t).drop_last() =~= s + t.drop_last());
        assert((s + t).last() == t.last());
        assert(text_batches(s) + text_batches(t) =~= text_batches(s) + text_batches(t.drop_last())
            + char_batches(t.last()));
    }
}

/// Every character is typed with at least one batch, and with at most two.
pub proof fn lemma_char_batches_nonempty(ch: char)
    ensures
        1 <= char_batches(ch).len() <= 2,
{
}

/// Only line feed and carriage return type the Enter key (virtual key 0x0D, pressed with
/// no flags, released with `KEYEVENTF_KEYUP`). Every other character is typed as Unicode
/// input: each batch presses a code unit with `KEYEVENTF_UNICODE` and releases the same
/// unit with `KEYEVENTF_UNICODE | KEYEVENTF_KEYUP`, and the pressed code units, decoded
/// as UTF-16, give the character back.
pub proof fn lemma_char_keystrokes(ch: char)
    ensures
        (ch == '\n' || ch == '\r') ==> char_batches(ch) == seq![
            KeyBatch {
                press: KeyInput { virtual_key: 0x0D, scan_code: 0, flags: 0 },
                release: KeyInput { virtual_key: 0x0D, scan_code: 0, flags: 2 },
            },
        ],
        (ch != '\n' && ch != '\r') ==> {
            let batches = char_batches(ch);
            &&& forall|i: int|
                #![trigger batches[i]]
                0 <= i < batches.len() ==> {
                    &&& batches[i].press.virtual_key == 0
                    &&& batches[i].press.flags == 4
                    &&& batches[i].release == (KeyInput {
                        virtual_key: 0,
                        scan_code: batches[i].press.scan_code,
                        flags: 6,
                    })
                }
            &&& crate::window_manager::utf16_lossy(
                batches.map_values(|b: KeyBatch| b.press.scan_code),
            ) == seq![ch]
        },
{
    assert((4u32 | 2u32) == 6u32) by (bit_vector);
    if ch != '\n' && ch != '\r' {
        let batches = char_batches(ch);
        let codes = batches.map_values(|b: KeyBatch| b.press.scan_code);
        assert(codes =~= utf16_units(ch));
        crate::window_manager::lemma_utf16_lossy_decodes_encoding(ch);
    } else {
        assert(char_batches(ch) =~= seq![enter_batch()]);
    }
}

/// Creates a keyboard input event for a key press or release.
pub fn create_key_input(scan_code: u16, is_key_up: bool, is_virtual_key: bool) -> (input: KeyInput)
    ensures
        input == key_input(scan_code, is_key_up, is_virtual_key),
{
    let flags = if is_key_up {
        if is_virtual_key {
            KEYEVENTF_KEYUP
        } else {
            KEYEVENTF_UNICODE | KEYEVENTF_KEYUP
        }
    } else if is_virtual_key {
        0
    } else {
        KEYEVENTF_UNICODE
    };
    KeyInput { virtual_key: if is_virtual_key { VK_RETURN } else { 0 }, scan_code, flags }
}

/// The UTF-16 code units of a character, as `char::encode_utf16` writes them.
pub fn encode_utf16(ch: char) -> (units: Vec<u16>)
    ensures
        units@ == utf16_units(ch),
{
    let c = ch as u32;
    if c < 0x10000 {
        vec![c as u16]
    } else {
        let v = c - 0x10000;
        vec![(0xD800 + v / 0x400) as u16, (0xDC00 + v % 0x400) as u16]
    }
}

/// The press and release of the Enter key (`VK_RETURN`).
pub fn enter_key_batch() -> (batch: KeyBatch)
    ensures
        batch == enter_batch(),
{
    KeyBatch { press: create_key_input(0, false, true), release: create_key_input(0, true, true) }
}

/// The batches that type `ch` as Unicode: a press and a release per UTF-16 code unit.
pub fn unicode_char_batches(ch: char) -> (batches: Vec<KeyBatch>)
    ensures
        batches@ == utf16_units(ch).map_values(|unit: u16| unicode_batch(unit)),
{
    let units = encode_utf16(ch);
    let mut batches: Vec<KeyBatch> = Vec::new();
    let mut i: usize = 0;
    while i < units.len()
        invariant
            i <= units.len(),
            units@ == utf16_units(ch),
            batches@ == units@.take(i as int).map_values(|unit: u16| unicode_batch(unit)),
        decreases units.len() - i,
    {
        let unit = units[i];
        batches.push(
            KeyBatch {
                press: create_key_input(unit, false, false),
                release: create_key_input(unit, true, false),
            },
        );
        assert(units@.take(i + 1) =~= units@.take(i as int).push(unit));
        i = i + 1;
    }
    assert(units@.take(units.len() as int) =~= units@);
    batches
}

/// Whether a character is typed as the Enter key.
pub fn is_line_break_char(ch: char) -> (r: bool)
    ensures
        r == is_line_break(ch),
{
    ch == '\n' || ch == '\r'
}

/// The batches that type one character: the Enter key for a line break,
/// otherwise its UTF-16 code units as Unicode key events.
pub fn key_batches_for_char(ch: char) -> (batches: Vec<KeyBatch>)
    ensures
        batches@ == char_batches(ch),
{
    if is_line_break_char(ch) {
        vec![enter_key_batch()]
    } else {
        unicode_char_batches(ch)
    }
}

/// Judges a batch of `ch` of which the system accepted `sent` events:
/// it succeeded exactly when both of its events were accepted.
pub fn batch_outcome(ch: char, sent: u32) -> (r: Result<(), KeystrokeError>)
    ensures
        r == (if sent == EVENTS_PER_BATCH {
            Ok::<(), KeystrokeError>(())
        } else {
            Err(keystroke_error(ch, sent))
        }),
{
    if sent == EVENTS_PER_BATCH {
        Ok(())
    } else if is_line_break_char(ch) {
        Err(KeystrokeError::EnterKey { sent })
    } else {
        Err(KeystrokeError::Character { ch, sent })
    }
}

} // verus!
