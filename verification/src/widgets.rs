//! The smaller parts of the screen: the banner, the message history, the
//! file picker, the attachment list, the status bar and the main layout,
//! computed as plain values for the terminal code to draw.

use vstd::prelude::*;
use crate::ids::current_time_millis;
use crate::model::{
    AttachedFile, ConnectionStatus, Model, RepeatShortcutKey, mode_name, status_line,
    within_window,
};
use crate::modal_selector::{Rect, TableState, down_index, up_index};
use crate::models::File;
use crate::renderer::{Color, StyledLine, StyledSpan, lines_view};
use crate::selectors::{FileData, change_spans};
use crate::text::{byte_len, byte_len_exec, chars_of, decimal, push_decimal, push_str, string_from_chars};

verus! {

fn owned(s: &str) -> (r: String)
    ensures
        r@ == s@,
{
    string_from_chars(chars_of(s).as_slice())
}

fn span(content: &str, fg: Option<Color>) -> (r: StyledSpan)
    ensures
        r@ == (content@, fg),
{
    StyledSpan { content: owned(content), fg }
}

// ---------------------------------------------------------------------------
// Banner
// ---------------------------------------------------------------------------

/// Rows of the banner's letters, in block characters.
pub open spec fn banner_glyph(letter: int, row: int) -> Seq<char> {
    let o = seq!["▄▀▀█"@, "█  █"@, "▀▀▀ "@];
    let p = seq!["▄▀▀█"@, "█  █"@, "█▀▀ "@];
    let e = seq!["▄▀▀▀"@, "█▀▀▀"@, "▀▀▀▀"@];
    let n = seq!["█▀▀▄"@, "█  █"@, "▀  ▀"@];
    let c = seq!["▄▀▀▀"@, "█   "@, "▀▀▀▀"@];
    let d = seq!["█▀▀▄"@, "█  █"@, "▀▀▀ "@];
    let r = seq!["█▀▀█"@, "█▀▀▄"@, "▀  ▀"@];
    let s = seq!["▄▀▀▀"@, "▀▀▀█"@, "▀▀▀ "@];
    let letters = seq![o, p, e, n, c, o, d, e, r, s];
    letters[letter][row]
}

/// The colour of each banner letter: grey, then white, then red.
pub open spec fn banner_color(letter: int) -> Color {
    if letter < 4 {
        Color::Gray
    } else if letter < 8 {
        Color::White
    } else {
        Color::Red
    }
}

/// One row of the banner: each letter's row in its colour, a space
/// between letters.
pub open spec fn banner_row(row: int, upto: int) -> Seq<(Seq<char>, Option<Color>)>
    decreases upto,
{
    if upto <= 0 {
        seq![]
    } else if upto == 1 {
        seq![(banner_glyph(0, row), Some(banner_color(0)))]
    } else {
        banner_row(row, upto - 1) + seq![
            (" "@, None),
            (banner_glyph(upto - 1, row), Some(banner_color(upto - 1))),
        ]
    }
}

proof fn lemma_banner_row_shape(row: int, n: int)
    requires
        1 <= n,
    ensures
        banner_row(row, n).len() == 2 * n - 1,
        forall|k: int|
            0 <= k < n ==> #[trigger] banner_row(row, n)[2 * k] == (
                banner_glyph(k, row),
                Some(banner_color(k)),
            ),
        forall|k: int| 0 <= k < n - 1 ==> #[trigger] banner_row(row, n)[2 * k + 1] == (" "@, None::<Color>),
    decreases n,
{
    if n > 1 {
        lemma_banner_row_shape(row, n - 1);
        let a = banner_row(row, n - 1);
        let b = seq![(" "@, None::<Color>), (banner_glyph(n - 1, row), Some(banner_color(n - 1)))];
        assert(banner_row(row, n) == a + b);
        assert forall|k: int| 0 <= k < n implies #[trigger] banner_row(row, n)[2 * k] == (
            banner_glyph(k, row),
            Some(banner_color(k)),
        ) by {
            if k < n - 1 {
                assert((a + b)[2 * k] == a[2 * k]);
            } else {
                assert((a + b)[2 * k] == b[1]);
            }
        }
        assert forall|k: int| 0 <= k < n - 1 implies #[trigger] banner_row(row, n)[2 * k + 1] == (
            " "@,
            None::<Color>,
        ) by {
            if k < n - 2 {
                assert((a + b)[2 * k + 1] == a[2 * k + 1]);
            } else {
                assert((a + b)[2 * k + 1] == b[0]);
            }
        }
    }
}

/// Each of the banner's three letter rows has 19 spans: the ten letters'
/// glyphs, four columns wide, at the even places, in grey for the first
/// four, white for the next four and red for the last two, and a plain
/// space at each odd place.
pub proof fn law_banner_row_shape(row: int)
    requires
        0 <= row < 3,
    ensures
        banner_row(row, 10).len() == 19,
        forall|k: int|
            0 <= k < 10 ==> #[trigger] banner_row(row, 10)[2 * k] == (
                banner_glyph(k, row),
                Some(banner_color(k)),
            ) && banner_glyph(k, row).len() == 4,
        forall|k: int| 0 <= k < 9 ==> #[trigger] banner_row(row, 10)[2 * k + 1] == (" "@, None::<Color>),
        forall|k: int| 0 <= k < 4 ==> #[trigger] banner_color(k) == Color::Gray,
        forall|k: int| 4 <= k < 8 ==> #[trigger] banner_color(k) == Color::White,
        forall|k: int| 8 <= k < 10 ==> #[trigger] banner_color(k) == Color::Red,
{
    lemma_banner_row_shape(row, 10);
    reveal_strlit("▄▀▀█");
    reveal_strlit("█  █");
    reveal_strlit("▀▀▀ ");
    reveal_strlit("█▀▀ ");
    reveal_strlit("▄▀▀▀");
    reveal_strlit("█▀▀▀");
    reveal_strlit("▀▀▀▀");
    reveal_strlit("█▀▀▄");
    reveal_strlit("▀  ▀");
    reveal_strlit("█   ");
    reveal_strlit("█▀▀█");
    reveal_strlit("▀▀▀█");
}

/// Height of the banner's letters, in rows.
pub fn welcome_text_height() -> (h: u16)
    ensures
        h == 4,
{
    4
}

fn glyph(letter: usize, row: usize) -> (r: &'static str)
    requires
        letter < 10,
        row < 3,
    ensures
        r@ == banner_glyph(letter as int, row as int),
{
    proof {
        reveal_strlit("▄▀▀█");
        reveal_strlit("█  █");
        reveal_strlit("▀▀▀ ");
        reveal_strlit("█▀▀ ");
        reveal_strlit("▄▀▀▀");
        reveal_strlit("█▀▀▀");
        reveal_strlit("▀▀▀▀");
        reveal_strlit("█▀▀▄");
        reveal_strlit("▀  ▀");
        reveal_strlit("█   ");
        reveal_strlit("█▀▀█");
        reveal_strlit("▀▀▀█");
    }
    let rows: [&'static str; 3] = if letter == 0 || letter == 5 {
        ["▄▀▀█", "█  █", "▀▀▀ "]
    } else if letter == 1 {
        ["▄▀▀█", "█  █", "█▀▀ "]
    } else if letter == 2 || letter == 7 {
        ["▄▀▀▀", "█▀▀▀", "▀▀▀▀"]
    } else if letter == 3 {
        ["█▀▀▄", "█  █", "▀  ▀"]
    } else if letter == 4 {
        ["▄▀▀▀", "█   ", "▀▀▀▀"]
    } else if letter == 6 {
        ["█▀▀▄", "█  █", "▀▀▀ "]
    } else if letter == 8 {
        ["█▀▀█", "█▀▀▄", "▀  ▀"]
    } else {
        ["▄▀▀▀", "▀▀▀█", "▀▀▀ "]
    };
    rows[row]
}

fn letter_color(letter: usize) -> (c: Color)
    ensures
        c == banner_color(letter as int),
{
    if letter < 4 {
        Color::Gray
    } else if letter < 8 {
        Color::White
    } else {
        Color::Red
    }
}

/// The banner: a blank line, three rows of block letters spelling the
/// client's name, a blank line.
pub fn create_welcome_text() -> (r: Vec<StyledLine>)
    ensures
        lines_view(r@) == seq![
            Seq::<(Seq<char>, Option<Color>)>::empty(),
            banner_row(0, 10),
            banner_row(1, 10),
            banner_row(2, 10),
            Seq::<(Seq<char>, Option<Color>)>::empty(),
        ],
{
    let mut lines: Vec<StyledLine> = Vec::new();
    let first = StyledLine { spans: Vec::new() };
    assert(first@ =~= Seq::<(Seq<char>, Option<Color>)>::empty());
    lines.push(first);
    let mut row: usize = 0;
    while row < 3
        invariant
            row <= 3,
            lines@.len() == row + 1,
            lines@[0]@ == Seq::<(Seq<char>, Option<Color>)>::empty(),
            forall|k: int| 1 <= k <= row ==> #[trigger] lines@[k]@ == banner_row(k - 1, 10),
        decreases 3 - row,
    {
        let mut spans: Vec<StyledSpan> = Vec::new();
        let mut letter: usize = 0;
        while letter < 10
            invariant
                row < 3,
                letter <= 10,
                spans@.map_values(|s: StyledSpan| s@) == banner_row(row as int, letter as int),
            decreases 10 - letter,
        {
            if letter > 0 {
                spans.push(span(" ", None));
            }
            spans.push(span(glyph(letter, row), Some(letter_color(letter))));
            assert(spans@.map_values(|s: StyledSpan| s@) =~= banner_row(row as int, letter + 1));
            letter = letter + 1;
        }
        lines.push(StyledLine { spans });
        row = row + 1;
    }
    let last = StyledLine { spans: Vec::new() };
    assert(last@ =~= Seq::<(Seq<char>, Option<Color>)>::empty());
    lines.push(last);
    assert(lines@[1]@ == banner_row(0, 10));
    assert(lines@[2]@ == banner_row(1, 10));
    assert(lines@[3]@ == banner_row(2, 10));
    assert(lines_view(lines@) =~= seq![
        Seq::<(Seq<char>, Option<Color>)>::empty(),
        banner_row(0, 10),
        banner_row(1, 10),
        banner_row(2, 10),
        Seq::<(Seq<char>, Option<Color>)>::empty(),
    ]);
    lines
}

// ---------------------------------------------------------------------------
// Message history
// ---------------------------------------------------------------------------

/// Past inputs shown in bordered boxes of three rows.
#[derive(Debug, Clone)]
pub struct MessageHistory {
    messages: Vec<String>,
}

/// How many boxes of three rows fit (at least one).
pub open spec fn boxes_fitting(available_height: u16) -> nat {
    if available_height / 3 >= 1 {
        (available_height / 3) as nat
    } else {
        1
    }
}

impl MessageHistory {
    /// The messages held.
    pub closed spec fn messages_view(&self) -> Seq<Seq<char>> {
        self.messages@.map_values(|s: String| s@)
    }

    /// A history of the given messages.
    pub fn new(messages: Vec<String>) -> (r: Self)
        ensures
            r.messages_view() == messages@.map_values(|s: String| s@),
    {
        MessageHistory { messages }
    }

    /// The latest messages that fit in `available_height` rows (at least
    /// one).
    pub fn visible_messages(&self, available_height: u16) -> (r: &[String])
        ensures
            r@.map_values(|s: String| s@) == self.messages_view().skip(
                if self.messages_view().len() > boxes_fitting(available_height) {
                    self.messages_view().len() - boxes_fitting(available_height)
                } else {
                    0
                },
            ),
    {
        let q = available_height / 3;
        let max_messages: usize = if q >= 1 {
            q as usize
        } else {
            1
        };
        let start_idx = self.messages.len().saturating_sub(max_messages);
        let all = self.messages.as_slice();
        let r = vstd::slice::slice_subrange(all, start_idx, all.len());
        assert(r@.map_values(|s: String| s@) =~= self.messages_view().skip(start_idx as int));
        r
    }
}

// ---------------------------------------------------------------------------
// File picker
// ---------------------------------------------------------------------------

/// A table of changed files with a selected row.
#[derive(Debug, Clone)]
pub struct FilePicker {
    state: TableState,
}

impl FilePicker {
    /// The selected row.
    pub closed spec fn selected_view(&self) -> Option<usize> {
        self.state.selected
    }

    /// A picker with the first row selected.
    pub fn new() -> (r: Self)
        ensures
            r.selected_view() == Some(0usize),
    {
        let mut state = TableState::new_default();
        state.select(Some(0));
        FilePicker { state }
    }

    /// The selected row.
    pub fn selected_index(&self) -> (r: Option<usize>)
        ensures
            r == self.selected_view(),
    {
        self.state.selected()
    }

    /// Moves the selection up among `files`, wrapping to the last.
    pub fn navigate_up(&mut self, files: &[File])
        ensures
            final(self).selected_view() == up_index(old(self).selected_view(), files@.len()),
    {
        if files.len() == 0 {
            return;
        }
        let current = match self.state.selected() {
            Some(i) => i,
            None => 0,
        };
        let new_index = if current == 0 {
            files.len() - 1
        } else {
            current - 1
        };
        self.state.select(Some(new_index));
    }

    /// Moves the selection down among `files`, wrapping to the first.
    pub fn navigate_down(&mut self, files: &[File])
        ensures
            final(self).selected_view() == down_index(old(self).selected_view(), files@.len()),
    {
        if files.len() == 0 {
            return;
        }
        let current = match self.state.selected() {
            Some(i) => i,
            None => 0,
        };
        let new_index = if current >= files.len() - 1 {
            0
        } else {
            current + 1
        };
        self.state.select(Some(new_index));
    }

    /// The selected file, when the selection is within `files`.
    pub fn get_selected_file<'a>(&self, files: &'a [File]) -> (r: Option<&'a File>)
        ensures
            match self.selected_view() {
                Some(i) => if i < files@.len() {
                    r == Some(&files@[i as int])
                } else {
                    r is None
                },
                None => r is None,
            },
    {
        match self.state.selected() {
            Some(i) => if i < files.len() {
                Some(&files[i])
            } else {
                None
            },
            None => None,
        }
    }

    /// A file's change counts as spans.
    pub fn format_changes(&self, file: &File) -> (r: Vec<StyledSpan>)
        ensures
            r@.map_values(|s: StyledSpan| s@) == change_spans(*file),
    {
        let d = FileData { file: file.clone() };
        d.format_changes()
    }
}

// ---------------------------------------------------------------------------
// Attachments
// ---------------------------------------------------------------------------

/// The files attached to the next message.
#[derive(Debug)]
pub struct AttachmentDisplay {
    pub files: Vec<AttachedFile>,
}

/// The one-line summary of `n` attachments.
pub open spec fn attachment_summary(n: nat) -> Seq<char> {
    if n == 1 {
        "📎 "@ + decimal(n) + " file"@
    } else {
        "📎 "@ + decimal(n) + " files"@
    }
}

impl AttachmentDisplay {
    /// A display of the given files.
    pub fn new(files: Vec<AttachedFile>) -> (r: Self)
        ensures
            r.files == files,
    {
        AttachmentDisplay { files }
    }

    /// Whether any file is attached.
    pub fn has_attachments(&self) -> (b: bool)
        ensures
            b == (self.files@.len() > 0),
    {
        self.files.len() > 0
    }

    /// The number of attached files.
    pub fn count(&self) -> (n: usize)
        ensures
            n == self.files@.len(),
    {
        self.files.len()
    }

    /// The one-line summary (`📎 3 files`), when there are attachments.
    pub fn inline_text(&self) -> (r: Option<String>)
        ensures
            match r {
                Some(t) => self.files@.len() > 0 && t@ == attachment_summary(self.files@.len()),
                None => self.files@.len() == 0,
            },
    {
        let n = self.files.len();
        if n == 0 {
            return None;
        }
        let mut t: Vec<char> = Vec::new();
        push_str(&mut t, "📎 ");
        push_decimal(&mut t, n as u64);
        if n == 1 {
            push_str(&mut t, " file");
        } else {
            push_str(&mut t, " files");
        }
        Some(string_from_chars(t.as_slice()))
    }

    /// The title of the detailed list.
    pub fn detailed_title(&self) -> (r: &'static str)
        ensures
            r@ == (if self.files@.len() == 1 {
                "Attached File"@
            } else {
                "Attached Files"@
            }),
    {
        if self.files.len() == 1 {
            "Attached File"
        } else {
            "Attached Files"
        }
    }

    /// One line per file: a cyan clip and the file's display name.
    pub fn detailed_lines(&self) -> (r: Vec<StyledLine>)
        ensures
            lines_view(r@).len() == self.files@.len(),
            forall|i: int|
                0 <= i < self.files@.len() ==> #[trigger] lines_view(r@)[i] == seq![
                    ("📎 "@, Some(Color::Cyan)),
                    (self.files@[i].display_name@, Some(Color::White)),
                ],
    {
        let mut out: Vec<StyledLine> = Vec::new();
        let mut i: usize = 0;
        while i < self.files.len()
            invariant
                i <= self.files@.len(),
                out@.len() == i,
                forall|k: int|
                    0 <= k < i ==> #[trigger] out@[k]@ == seq![
                        ("📎 "@, Some(Color::Cyan)),
                        (self.files@[k].display_name@, Some(Color::White)),
                    ],
            decreases self.files.len() - i,
        {
            let mut spans: Vec<StyledSpan> = Vec::new();
            spans.push(span("📎 ", Some(Color::Cyan)));
            spans.push(StyledSpan { content: self.files[i].display_name.clone(), fg: Some(Color::White) });
            let l = StyledLine { spans };
            assert(l@ =~= seq![
                ("📎 "@, Some(Color::Cyan)),
                (self.files@[i as int].display_name@, Some(Color::White)),
            ]);
            out.push(l);
            i = i + 1;
        }
        out
    }
}

// ---------------------------------------------------------------------------
// Status bar
// ---------------------------------------------------------------------------

/// What the status bar shows.
#[derive(Debug)]
pub struct StatusPlan {
    /// The mode's name, padded to eight columns.
    pub mode_text: String,
    /// The mode's background colour.
    pub mode_color: Color,
    /// ` provider model`.
    pub status_text: String,
    /// The activity label.
    pub loading_label: String,
    /// Whether the label spins (a reply or a task is under way).
    pub busy: bool,
    /// The chosen session's id, if any.
    pub session_id: Option<String>,
    /// Widths of the loading and session sections: `min(width / 4, 10)`
    /// halved, and whole.
    pub start_width: u16,
}

/// The colour of a mode: black for build, magenta for plan, green for
/// general, grey otherwise.
pub open spec fn mode_color(index: Option<u16>) -> Color {
    match index {
        Some(0u16) => Color::Black,
        Some(1u16) => Color::Magenta,
        Some(2u16) => Color::Green,
        _ => Color::Gray,
    }
}

/// The activity label: the pending shortcut's hint while one is armed,
/// else "Ready" without tasks, else "Working...".
pub open spec fn loading_label(m: Model, now: u64) -> Seq<char> {
    match m.repeat_shortcut_timeout {
        Some(t) => if within_window(t.started_at_ms, now) {
            match t.key {
                RepeatShortcutKey::Leader => "Shortcut waiting..."@,
                RepeatShortcutKey::CtrlC => "Ctrl+C again to confirm"@,
                RepeatShortcutKey::CtrlD => "Ctrl+D again to confirm"@,
                RepeatShortcutKey::Esc => "Esc again to confirm"@,
            }
        } else if m.active_task_count == 0 {
            "Ready"@
        } else {
            "Working..."@
        },
        None => if m.active_task_count == 0 {
            "Ready"@
        } else {
            "Working..."@
        },
    }
}

/// The mode's name (or `UNKNOWN`), padded with spaces to eight columns.
pub open spec fn padded_mode(index: Option<u16>) -> Seq<char> {
    let name = match mode_name(index) {
        Some(n) => n,
        None => "UNKNOWN"@,
    };
    name + Seq::new((8 - name.len()) as nat, |i: int| ' ')
}

/// The status bar.
#[derive(Debug, Clone, Copy)]
pub struct StatusBar;

impl StatusBar {
    /// The status bar.
    pub fn new() -> (r: Self) {
        StatusBar
    }

    /// What the bar shows for `model` in `width` columns at time `now`.
    pub fn plan_at(&self, model: &Model, width: u16, now: u64) -> (p: StatusPlan)
        ensures
            p.mode_text@ == padded_mode(model.mode_state),
            p.mode_color == mode_color(model.mode_state),
            p.status_text@ == " "@ + model.sdk_provider@ + " "@ + model.sdk_model@,
            p.loading_label@ == loading_label(*model, now),
            p.busy == (!model.session_is_idle || model.active_task_count > 0),
            match p.session_id {
                Some(s) => model.chosen_session_id() == Some(s@),
                None => model.chosen_session_id() is None,
            },
            p.start_width == (if width / 4 <= 10 {
                width / 4
            } else {
                10
            }),
    {
        let name = match model.get_current_mode_name() {
            Some(n) => chars_of(n.as_str()),
            None => chars_of("UNKNOWN"),
        };
        proof {
            reveal_strlit("UNKNOWN");
            reveal_strlit("build");
            reveal_strlit("plan");
            reveal_strlit("general");
        }
        let mut mode_text: Vec<char> = name;
        let ghost nv = mode_text@;
        let mut k: usize = mode_text.len();
        while k < 8
            invariant
                nv.len() <= k <= 8,
                mode_text@ == nv + Seq::new((k - nv.len()) as nat, |i: int| ' '),
            decreases 8 - k,
        {
            mode_text.push(' ');
            assert(mode_text@ =~= nv + Seq::new((k + 1 - nv.len()) as nat, |i: int| ' '));
            k = k + 1;
        }
        let mode_color = match model.mode_state {
            Some(0) => Color::Black,
            Some(1) => Color::Magenta,
            Some(2) => Color::Green,
            _ => Color::Gray,
        };
        let mut status: Vec<char> = Vec::new();
        push_str(&mut status, " ");
        push_str(&mut status, model.sdk_provider.as_str());
        push_str(&mut status, " ");
        push_str(&mut status, model.sdk_model.as_str());
        let armed = model.has_active_timeout_at(now);
        let label: &str = match model.repeat_shortcut_timeout {
            Some(t) if armed => match t.key {
                RepeatShortcutKey::Leader => "Shortcut waiting...",
                RepeatShortcutKey::CtrlC => "Ctrl+C again to confirm",
                RepeatShortcutKey::CtrlD => "Ctrl+D again to confirm",
                RepeatShortcutKey::Esc => "Esc again to confirm",
            },
            _ => if model.active_task_count == 0 {
                "Ready"
            } else {
                "Working..."
            },
        };
        let q = width / 4;
        StatusPlan {
            mode_text: string_from_chars(mode_text.as_slice()),
            mode_color,
            status_text: string_from_chars(status.as_slice()),
            loading_label: owned(label),
            busy: !model.session_is_idle || model.active_task_count > 0,
            session_id: model.current_session_id(),
            start_width: if q <= 10 {
                q
            } else {
                10
            },
        }
    }

    /// What the bar shows for `model` in `width` columns now.
    pub fn plan(&self, model: &Model, width: u16) -> (p: StatusPlan)
        ensures
            p.mode_text@ == padded_mode(model.mode_state),
            p.mode_color == mode_color(model.mode_state),
            p.status_text@ == " "@ + model.sdk_provider@ + " "@ + model.sdk_model@,
            p.busy == (!model.session_is_idle || model.active_task_count > 0),
    {
        let now = current_time_millis();
        self.plan_at(model, width, now)
    }
}

// ---------------------------------------------------------------------------
// Screens
// ---------------------------------------------------------------------------

/// The columns and rows of the main screen.
#[derive(Debug, Clone, Copy, PartialEq, Eq, Structural)]
pub struct EntryLayout {
    pub left_padding: u16,
    pub content_width: u16,
    pub right_padding: u16,
    /// Rows between the log (or welcome text) and the input box.
    pub spacer_height: u16,
    /// Rows of the input box and the status bar.
    pub input_section_height: u16,
}

/// The main screen's layout: inline, the content is at least 120 columns
/// and the spacer fills the inline viewport above the input; full-screen,
/// one column of padding on each side and no spacer.
pub open spec fn entry_layout(
    terminal_width: u16,
    inline: bool,
    input_height: u16,
    viewport_height: u16,
) -> EntryLayout {
    let content = if inline {
        if terminal_width >= 120 {
            terminal_width as int
        } else {
            120
        }
    } else {
        crate::modal_selector::sub0(terminal_width as int, 2)
    };
    let left = crate::modal_selector::sub0(terminal_width as int, content) / 2;
    let right = crate::modal_selector::sub0(
        terminal_width as int,
        crate::modal_selector::add_sat16(content, left),
    );
    let section = input_height + 1;
    EntryLayout {
        left_padding: left as u16,
        content_width: content as u16,
        right_padding: right as u16,
        spacer_height: if inline {
            (viewport_height - section) as u16
        } else {
            0
        },
        input_section_height: section as u16,
    }
}

/// Lays out the main screen.
pub fn text_entry_layout(terminal_width: u16, inline: bool, input_height: u16, viewport_height: u16) -> (r:
    EntryLayout)
    requires
        input_height < u16::MAX,
        inline ==> input_height + 1 <= viewport_height,
    ensures
        r == entry_layout(terminal_width, inline, input_height, viewport_height),
{
    let content_width: u16 = if inline {
        if terminal_width >= 120 {
            terminal_width
        } else {
            120
        }
    } else {
        terminal_width.saturating_sub(2)
    };
    let left_padding = terminal_width.saturating_sub(content_width) / 2;
    let right_padding = terminal_width.saturating_sub(content_width.saturating_add(left_padding));
    let section = input_height + 1;
    let spacer_height = if inline {
        viewport_height - section
    } else {
        0
    };
    EntryLayout {
        left_padding,
        content_width,
        right_padding,
        spacer_height,
        input_section_height: section,
    }
}

/// The welcome text shown before a session is ready: the connection
/// status and the leader-key shortcuts.
pub open spec fn welcome_body(status: ConnectionStatus) -> Seq<char> {
    "\n"@ + status_line(status)
        + "\n\n    ^x l     select session\n    ^x tab   toggle view\n    ^x q     quit\n    "@
}

/// The welcome text shown before a session is ready.
pub fn main_body_text(status: &ConnectionStatus) -> (r: String)
    ensures
        r@ == welcome_body(*status),
{
    let mut t: Vec<char> = Vec::new();
    push_str(&mut t, "\n");
    push_str(&mut t, status.status_text().as_str());
    push_str(&mut t, "\n\n    ^x l     select session\n    ^x tab   toggle view\n    ^x q     quit\n    ");
    string_from_chars(t.as_slice())
}

/// The lines of the connection error screen.
pub fn error_screen_lines(error: &str) -> (r: Vec<String>)
    ensures
        r@.map_values(|s: String| s@) == seq![
            "Connection Error"@,
            ""@,
            error@,
            ""@,
            "Suggestions:"@,
            "• Make sure OpenCode server is running"@,
            "• Check OPENCODE_SERVER_URL environment variable"@,
            "• Try running: opencode serve"@,
            ""@,
            "Press 'r' to retry, 'q' or 'Esc' to quit"@,
        ],
{
    let mut r: Vec<String> = Vec::new();
    r.push(owned("Connection Error"));
    r.push(owned(""));
    r.push(owned(error));
    r.push(owned(""));
    r.push(owned("Suggestions:"));
    r.push(owned("• Make sure OpenCode server is running"));
    r.push(owned("• Check OPENCODE_SERVER_URL environment variable"));
    r.push(owned("• Try running: opencode serve"));
    r.push(owned(""));
    r.push(owned("Press 'r' to retry, 'q' or 'Esc' to quit"));
    assert(r@.map_values(|s: String| s@) =~= seq![
        "Connection Error"@,
        ""@,
        error@,
        ""@,
        "Suggestions:"@,
        "• Make sure OpenCode server is running"@,
        "• Check OPENCODE_SERVER_URL environment variable"@,
        "• Try running: opencode serve"@,
        ""@,
        "Press 'r' to retry, 'q' or 'Esc' to quit"@,
    ]);
    r
}

} // verus!
