use crate::window_manager::WindowInfo;
use vstd::prelude::*;

verus! {

/// The window list is refreshed once this many nanoseconds have passed since the last refresh.
pub const REFRESH_INTERVAL_NANOS: u128 = 1_000_000_000;

/// One row of the window list as the panel shows it.
#[derive(Clone, Debug)]
pub struct WindowRow {
    /// The row's number, counting from 1.
    pub number: usize,
    pub title: String,
    pub hwnd: isize,
    /// Whether this row's window is the selected one.
    pub is_selected: bool,
}

/// What the panel shows, decided from the state of the window list and the typed text.
#[derive(Clone, Debug)]
pub struct PanelState {
    /// Whether the Send button is enabled.
    pub send_enabled: bool,
    /// The title of the selected window, if a window is selected.
    pub selected_title: Option<String>,
    /// The characters of the text that cannot be sent.
    pub invalid_chars: Vec<char>,
    /// Whether to warn about characters that cannot be sent.
    pub show_invalid_warning: bool,
    /// Whether to confirm that every character of the (non-empty) text can be sent.
    pub show_all_sendable: bool,
    /// Whether the Jitter toggle shows as on.
    pub jitter_enabled: bool,
    /// The rows of the window list, in list order.
    pub rows: Vec<WindowRow>,
}

/// The window that a click on Send types into: the selected window, provided there is
/// text to type.
pub open spec fn spec_send_target(selected: Option<WindowInfo>, text: Seq<char>) -> Option<isize> {
    match selected {
        Some(w) => if text.len() > 0 {
            Some(w.hwnd)
        } else {
            None
        },
        None => None,
    }
}

/// The Send button is enabled when a window is selected and the text is not empty.
pub open spec fn spec_send_enabled(selected: Option<WindowInfo>, text: Seq<char>) -> bool {
    selected is Some && text.len() > 0
}

/// Whether a row shows the selected window.
pub open spec fn spec_row_selected(selected: Option<WindowInfo>, hwnd: isize) -> bool {
    selected matches Some(w) && w.hwnd == hwnd
}

/// The row shown for window `i` of the list.
pub open spec fn spec_row_matches(
    row: WindowRow,
    i: int,
    window: WindowInfo,
    selected: Option<WindowInfo>,
) -> bool {
    &&& row.number == i + 1
    &&& row.title == window.title
    &&& row.hwnd == window.hwnd
    &&& row.is_selected == spec_row_selected(selected, window.hwnd)
}

/// Whether the window list is due for a refresh `elapsed_nanos` after the last one.
pub fn refresh_due(elapsed_nanos: u128) -> (due: bool)
    ensures
        due == (elapsed_nanos > REFRESH_INTERVAL_NANOS),
{
    elapsed_nanos > REFRESH_INTERVAL_NANOS
}

/// The Send button is enabled exactly when a click on it types into a window.
pub proof fn lemma_send_enabled_iff_target(selected: Option<WindowInfo>, text: Seq<char>)
    ensures
        spec_send_enabled(selected, text) <==> spec_send_target(selected, text) is Some,
{
}

/// A click on Send types into the selected window whenever there is text, whatever the
/// text holds (line breaks included), and the button is enabled exactly then; with no
/// window selected, or no text, nothing is sent and the button is disabled.
pub proof fn lemma_send_goes_to_selection(selected: Option<WindowInfo>, text: Seq<char>)
    ensures
        forall|w: WindowInfo|
            selected == Some(w) && text.len() > 0 ==> spec_send_target(selected, text) == Some(
                w.hwnd,
            ) && spec_send_enabled(selected, text),
        (selected is None || text.len() == 0) ==> spec_send_target(selected, text) is None
            && !spec_send_enabled(selected, text),
{
}

/// The window list: the windows on screen and the one selected as the target.
pub struct WindowListState {
    selected_window: Option<WindowInfo>,
    cached_windows: Vec<WindowInfo>,
}

impl WindowListState {
    /// The selected window.
    pub closed spec fn selection(&self) -> Option<WindowInfo> {
        self.selected_window
    }

    /// The windows on the list, in order.
    pub closed spec fn listed(&self) -> Seq<WindowInfo> {
        self.cached_windows@
    }

    /// A list of `windows` with nothing selected.
    pub fn new(windows: Vec<WindowInfo>) -> (state: Self)
        ensures
            state.selection() is None,
            state.listed() == windows@,
    {
        WindowListState { selected_window: None, cached_windows: windows }
    }

    /// Makes `window` the target.
    pub fn select_window(&mut self, window: WindowInfo)
        ensures
            final(self).selection() == Some(window),
            final(self).listed() == old(self).listed(),
    {
        self.selected_window = Some(window);
    }

    /// Replaces the windows on the list with a fresh enumeration; the selection stays.
    pub fn refresh_windows(&mut self, windows: Vec<WindowInfo>)
        ensures
            final(self).listed() == windows@,
            final(self).selection() == old(self).selection(),
    {
        self.cached_windows = windows;
    }

    /// The selected window, if any.
    pub fn selected_window(&self) -> (w: Option<&WindowInfo>)
        ensures
            w == match self.selection() {
                Some(s) => Some(&s),
                None => None::<&WindowInfo>,
            },
    {
        self.selected_window.as_ref()
    }

    /// The windows on the list.
    pub fn windows(&self) -> (ws: &Vec<WindowInfo>)
        ensures
            ws@ == self.listed(),
    {
        &self.cached_windows
    }

    /// The window a click on Send types `text` into, if any.
    pub fn send_target(&self, text: &str) -> (target: Option<isize>)
        ensures
            target == spec_send_target(self.selection(), text@),
    {
        match &self.selected_window {
            Some(w) => if text.is_empty() {
                None
            } else {
                Some(w.hwnd)
            },
            None => None,
        }
    }

    /// The characters of `text` that cannot be sent: none, since every character is
    /// sent as Unicode input.
    pub fn get_invalid_chars(&self, text: &str) -> (invalid: Vec<char>)
        ensures
            invalid@ == Seq::<char>::empty(),
    {
        Vec::new()
    }

    /// What the panel shows for `text` and the jitter setting.
    pub fn panel_state(&self, text: &str, jitter_enabled: bool) -> (panel: PanelState)
        ensures
            panel.send_enabled == spec_send_enabled(self.selection(), text@),
            panel.selected_title == match self.selection() {
                Some(w) => Some(w.title),
                None => None::<String>,
            },
            panel.invalid_chars@ == Seq::<char>::empty(),
            !panel.show_invalid_warning,
            panel.show_all_sendable == (text@.len() > 0),
            panel.jitter_enabled == jitter_enabled,
            panel.rows@.len() == self.listed().len(),
            forall|i: int|
                0 <= i < self.listed().len() ==> spec_row_matches(
                    #[trigger] panel.rows@[i],
                    i,
                    self.listed()[i],
                    self.selection(),
                ),
    {
        let has_selection = self.selected_window.is_some();
        let selected_hwnd: Option<isize> = match &self.selected_window {
            Some(w) => Some(w.hwnd),
            None => None,
        };
        let selected_title: Option<String> = match &self.selected_window {
            Some(w) => Some(w.title.clone()),
            None => None,
        };
        let invalid_chars = self.get_invalid_chars(text);
        let text_empty = text.is_empty();
        let mut rows: Vec<WindowRow> = Vec::new();
        let mut i: usize = 0;
        while i < self.cached_windows.len()
            invariant
                i <= self.cached_windows.len(),
                selected_hwnd == match self.selection() {
                    Some(w) => Some(w.hwnd),
                    None => None::<isize>,
                },
                rows@.len() == i,
                forall|k: int|
                    0 <= k < i ==> spec_row_matches(
                        #[trigger] rows@[k],
                        k,
                        self.listed()[k],
                        self.selection(),
                    ),
            decreases self.cached_windows.len() - i,
        {
            let window = &self.cached_windows[i];
            let is_selected = match selected_hwnd {
                Some(h) => h == window.hwnd,
                None => false,
            };
            rows.push(
                WindowRow { number: i + 1, title: window.title.clone(), hwnd: window.hwnd, is_selected },
            );
            i = i + 1;
        }
        PanelState {
            send_enabled: has_selection && !text_empty,
            selected_title,
            show_invalid_warning: invalid_chars.len() != 0,
            show_all_sendable: invalid_chars.len() == 0 && !text_empty,
            invalid_chars,
            jitter_enabled,
            rows,
        }
    }
}

} // verus!
