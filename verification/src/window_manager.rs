use vstd::prelude::*;

verus! {

/// A top-level window as the window list shows it.
#[derive(Clone, Debug)]
pub struct WindowInfo {
    /// The window's title.
    pub title: String,
    /// The window's handle (`HWND`), as an integer.
    pub hwnd: isize,
}

/// Lossy UTF-16 decoding: a unit outside the surrogate range is its own character; a high
/// surrogate followed by a low one is the character they encode together; any other
/// surrogate unit (an unpaired one) becomes U+FFFD, and decoding goes on with the next unit.
pub open spec fn utf16_lossy(units: Seq<u16>) -> Seq<char>
    decreases units.len(),
{
    if units.len() == 0 {
        Seq::empty()
    } else {
        let u = units[0] as int;
        if u < 0xD800 || u > 0xDFFF {
            seq![u as char] + utf16_lossy(units.drop_first())
        } else if u <= 0xDBFF && units.len() > 1 && 0xDC00 <= units[1] && units[1] <= 0xDFFF {
            seq![(0x10000 + (u - 0xD800) * 0x400 + (units[1] - 0xDC00)) as char] + utf16_lossy(
                units.subrange(2, units.len() as int),
            )
        } else {
            seq!['\u{FFFD}'] + utf16_lossy(units.drop_first())
        }
    }
}

/// Decoding never loses a character position entirely: code units decode to some text.
pub proof fn lemma_utf16_lossy_nonempty(units: Seq<u16>)
    requires
        units.len() > 0,
    ensures
        utf16_lossy(units).len() > 0,
{
    assert(utf16_lossy(units).len() >= 1);
}

/// Decoding the code units that type a character gives that character back.
pub proof fn lemma_utf16_lossy_decodes_encoding(ch: char)
    ensures
        utf16_lossy(crate::keyboard::utf16_units(ch)) == seq![ch],
{
    let c = ch as int;
    let units = crate::keyboard::utf16_units(ch);
    assert((ch as u32) as char == ch);
    if c < 0x10000 {
        assert(units == seq![c as u16]);
        assert(units.drop_first() =~= Seq::<u16>::empty());
        assert(utf16_lossy(units.drop_first()) =~= Seq::<char>::empty());
        assert(units[0] as int == c);
        assert(seq![(units[0] as int) as char] + Seq::<char>::empty() =~= seq![ch]);
    } else {
        let v = c - 0x10000;
        vstd::arithmetic::div_mod::lemma_fundamental_div_mod(v, 0x400);
        assert(units[0] as int == 0xD800 + v / 0x400);
        assert(units[1] as int == 0xDC00 + v % 0x400);
        assert(units.subrange(2, 2) =~= Seq::<u16>::empty());
        assert(utf16_lossy(units.subrange(2, 2)) =~= Seq::<char>::empty());
        assert(0x10000 + (units[0] as int - 0xD800) * 0x400 + (units[1] as int - 0xDC00) == c);
        assert(seq![c as char] + Seq::<char>::empty() =~= seq![ch]);
    }
}

/// Calls `String::from_utf16_lossy`: decodes UTF-16 code units, putting the replacement
/// character U+FFFD in place of each unpaired surrogate, as `utf16_lossy` spells out.
#[verifier::external_body]
fn string_from_utf16_lossy(units: &[u16]) -> (text: String)
    ensures
        text@ == utf16_lossy(units@),
{
    String::from_utf16_lossy(units)
}

/// The window list keeps a window whose decoded title is not empty.
pub fn listed_window(hwnd: isize, title: String) -> (entry: Option<WindowInfo>)
    ensures
        entry is Some <==> title@.len() > 0,
        entry matches Some(w) ==> w.title@ == title@ && w.hwnd == hwnd,
{
    if title.as_str().is_empty() {
        None
    } else {
        Some(WindowInfo { title, hwnd })
    }
}

/// The entry for a window that window enumeration reports: kept when the window is
/// visible and has a non-empty title; `title_len` is how many code units of
/// `title_buffer` hold the title.
pub fn window_entry(hwnd: isize, visible: bool, title_buffer: &[u16], title_len: i32) -> (entry:
    Option<WindowInfo>)
    requires
        title_len <= title_buffer@.len(),
    ensures
        entry is Some <==> visible && title_len > 0,
        entry matches Some(w) ==> w.title@ == utf16_lossy(title_buffer@.take(title_len as int))
            && w.hwnd == hwnd,
{
    if !visible || title_len <= 0 {
        return None;
    }
    let units = vstd::slice::slice_subrange(title_buffer, 0, title_len as usize);
    assert(units@ == title_buffer@.take(title_len as int));
    let title = string_from_utf16_lossy(units);
    proof {
        lemma_utf16_lossy_nonempty(units@);
    }
    listed_window(hwnd, title)
}

} // verus!
