//! The message input box: a multi-line text editor whose height follows its
//! content, with submission on Enter and new lines on Shift+Enter.

use vstd::prelude::*;
use crate::keys::{KeyCode, KeyPress, shift_held, has_shift, ALT, CONTROL};
use crate::text::{
    chars_of, join_seq, law_lines_join_roundtrip, lemma_lines_of_nonempty, lines_of, no_cr, push_str,
    string_from_chars,
};

verus! {

/// The text editor widget of the terminal UI library, held whole; Verus
/// does not take the library's type itself in a signature.
#[verifier::external_body]
pub struct Editor {
    inner: tui_textarea::TextArea<'static>,
}

/// The lines an editor holds: its `lines` field, each line read as chars.
pub uninterp spec fn textarea_lines(t: Editor) -> Seq<Seq<char>>;

/// The editor's cursor: its `cursor` field, a line index and a character
/// index within that line.
pub uninterp spec fn textarea_cursor(t: Editor) -> (nat, nat);

/// Whether a selection has been started: the editor's `selection_start`
/// field is set.
pub uninterp spec fn textarea_selecting(t: Editor) -> bool;

/// The cursor points into the lines: at an existing line, at most at its end.
pub open spec fn cursor_ok(ls: Seq<Seq<char>>, c: (nat, nat)) -> bool {
    c.0 < ls.len() && c.1 <= ls[c.0 as int].len()
}

/// The lines after character `ch` is inserted at cursor `c` (at the line's
/// end when the cursor is past it).
pub open spec fn char_inserted(ls: Seq<Seq<char>>, c: (nat, nat), ch: char) -> Seq<Seq<char>> {
    let line = ls[c.0 as int];
    let k: int = if c.1 <= line.len() { c.1 as int } else { line.len() as int };
    ls.update(c.0 as int, line.take(k).push(ch) + line.skip(k))
}

/// `TextArea::default`: an editor holding one empty line, the cursor at its
/// start, nothing selected.
#[verifier::external_body]
fn textarea_default() -> (t: Editor)
    ensures
        textarea_lines(t) == seq![Seq::<char>::empty()],
        textarea_cursor(t) == (0nat, 0nat),
        !textarea_selecting(t),
{
    Editor { inner: tui_textarea::TextArea::default() }
}

/// `TextArea::new` on the lines of `content` (what `TextArea::from`
/// does with `content.lines()`): an editor holding those lines, or one empty
/// line when there are none (`TextArea::new` adds it); the cursor at the
/// start, nothing selected.
#[verifier::external_body]
fn textarea_from_text(content: &str) -> (t: Editor)
    ensures
        textarea_lines(t) == (if lines_of(content@).len() == 0 {
            seq![Seq::<char>::empty()]
        } else {
            lines_of(content@)
        }),
        textarea_cursor(t) == (0nat, 0nat),
        !textarea_selecting(t),
{
    Editor { inner: tui_textarea::TextArea::new(content.lines().map(String::from).collect()) }
}

/// `TextArea::lines`: the editor's lines.
#[verifier::external_body]
fn textarea_lines_ref<'b>(t: &'b Editor) -> (r: &'b [String])
    ensures
        r@.map_values(|s: String| s@) == textarea_lines(*t),
{
    t.inner.lines()
}

/// `TextArea::insert_newline`: deletes the selection, if any (which clears
/// it), then splits the cursor's line and puts the cursor at the start of
/// the new line, so at least two lines remain. The cursor must point into
/// the lines, since the line at the cursor is indexed.
#[verifier::external_body]
fn textarea_insert_newline(t: &mut Editor)
    requires
        cursor_ok(textarea_lines(*old(t)), textarea_cursor(*old(t))),
    ensures
        textarea_lines(*final(t)).len() >= 2,
        cursor_ok(textarea_lines(*final(t)), textarea_cursor(*final(t))),
        !textarea_selecting(*final(t)),
{
    t.inner.insert_newline()
}

/// `TextArea::input` with a character key. Without Ctrl and Alt, `\n` and
/// `\r` insert a new line, and any other character deletes the selection,
/// if any, then is inserted at the cursor, which moves past it; either way
/// the selection is cleared and the call reports a change. With Ctrl or Alt
/// the key runs one of the editor's commands (undo, paste, word moves and
/// others), whose effect is not stated beyond the cursor staying in the
/// lines.
#[verifier::external_body]
fn textarea_input_char(t: &mut Editor, c: char, ctrl: bool, alt: bool, shift: bool) -> (modified: bool)
    requires
        cursor_ok(textarea_lines(*old(t)), textarea_cursor(*old(t))),
    ensures
        cursor_ok(textarea_lines(*final(t)), textarea_cursor(*final(t))),
        !ctrl && !alt ==> modified && !textarea_selecting(*final(t)),
        !ctrl && !alt && (c == '\n' || c == '\r') ==> textarea_lines(*final(t)).len() >= 2,
        (!ctrl && !alt && c != '\n' && c != '\r' && !textarea_selecting(*old(t))) ==> {
            &&& textarea_lines(*final(t)) == char_inserted(
                textarea_lines(*old(t)),
                textarea_cursor(*old(t)),
                c,
            )
            &&& textarea_cursor(*final(t)) == (textarea_cursor(*old(t)).0, textarea_cursor(*old(t)).1
                + 1)
        },
{
    t.inner.input(tui_textarea::Input { key: tui_textarea::Key::Char(c), ctrl, alt, shift })
}

/// Keys that edit the text at the cursor.
#[derive(Debug, Clone, Copy, PartialEq, Eq, Structural)]
pub enum EditKey {
    Backspace,
    Delete,
    Tab,
}

/// Keys that move the cursor or scroll.
#[derive(Debug, Clone, Copy, PartialEq, Eq, Structural)]
pub enum MoveKey {
    Left,
    Right,
    Up,
    Down,
    Home,
    End,
    PageUp,
    PageDown,
}

/// Keys the editor has no binding for (the terminal's other keys arrive as
/// `Null`).
#[derive(Debug, Clone, Copy, PartialEq, Eq, Structural)]
pub enum InertKey {
    Esc,
    F(u8),
    Null,
}

/// The lines after Backspace at cursor `c` with nothing selected: the
/// character before the cursor is removed; at a line's start the line joins
/// the one above; at the very start nothing changes.
pub open spec fn backspaced(ls: Seq<Seq<char>>, c: (nat, nat)) -> Seq<Seq<char>> {
    let r = c.0 as int;
    let k = c.1 as int;
    if k == 0 {
        if r == 0 {
            ls
        } else {
            ls.remove(r).update(r - 1, ls[r - 1] + ls[r])
        }
    } else {
        ls.update(r, ls[r].take(k - 1) + ls[r].skip(k))
    }
}

/// The cursor after Backspace at `c` with nothing selected.
pub open spec fn backspace_cursor(ls: Seq<Seq<char>>, c: (nat, nat)) -> (nat, nat) {
    if c.1 == 0 {
        if c.0 == 0 {
            c
        } else {
            ((c.0 - 1) as nat, ls[c.0 - 1].len())
        }
    } else {
        (c.0, (c.1 - 1) as nat)
    }
}

/// The lines after Delete at cursor `c` with nothing selected: the
/// character at the cursor is removed; at a line's end the next line joins
/// it; at the very end nothing changes. The cursor stays where it is.
pub open spec fn next_deleted(ls: Seq<Seq<char>>, c: (nat, nat)) -> Seq<Seq<char>> {
    let r = c.0 as int;
    let k = c.1 as int;
    if k < ls[r].len() {
        ls.update(r, ls[r].take(k) + ls[r].skip(k + 1))
    } else if r + 1 < ls.len() {
        ls.remove(r + 1).update(r, ls[r] + ls[r + 1])
    } else {
        ls
    }
}

/// Where a move key takes the cursor `c` (without Ctrl or Alt; Home and End
/// with any modifier): one character back or forward across line ends, one
/// line up or down keeping the column where it fits, to the line's start or
/// end; `None` where it cannot move. Page keys depend on the viewport and
/// are `None` here.
pub open spec fn move_target(ls: Seq<Seq<char>>, c: (nat, nat), k: MoveKey) -> Option<(nat, nat)> {
    let r = c.0;
    let col = c.1;
    match k {
        MoveKey::Left => if col == 0 {
            if r == 0 {
                None
            } else {
                Some(((r - 1) as nat, ls[r - 1].len()))
            }
        } else {
            Some((r, (col - 1) as nat))
        },
        MoveKey::Right => if col >= ls[r as int].len() {
            if r + 1 < ls.len() {
                Some(((r + 1) as nat, 0nat))
            } else {
                None
            }
        } else {
            Some((r, (col + 1) as nat))
        },
        MoveKey::Up => if r == 0 {
            None
        } else {
            Some(((r - 1) as nat, if col <= ls[r - 1].len() { col } else { ls[r - 1].len() }))
        },
        MoveKey::Down => if r + 1 < ls.len() {
            Some(((r + 1) as nat, if col <= ls[r + 1 as int].len() { col } else { ls[r + 1 as int].len() }))
        } else {
            None
        },
        MoveKey::Home => Some((r, 0nat)),
        MoveKey::End => Some((r, ls[r as int].len())),
        _ => None,
    }
}

/// Whether a move key's target is stated by `move_target` under these
/// modifiers: arrows without Ctrl and Alt, Home and End always.
pub open spec fn plain_move(k: MoveKey, ctrl: bool, alt: bool) -> bool {
    match k {
        MoveKey::Home | MoveKey::End => true,
        MoveKey::PageUp | MoveKey::PageDown => false,
        _ => !ctrl && !alt,
    }
}

/// `TextArea::input` with Backspace, Delete or Tab. Without Ctrl and Alt
/// and with nothing selected, Backspace removes the character before the
/// cursor (joining lines at a line's start) and Delete the one at the
/// cursor (joining the next line at a line's end), each reporting whether
/// anything was removed. Tab inserts spaces; its width, like the effect of
/// the Ctrl and Alt variants and of deleting a selection, is not stated
/// beyond the cursor staying in the lines.
#[verifier::external_body]
fn textarea_edit_key(t: &mut Editor, k: EditKey, ctrl: bool, alt: bool, shift: bool) -> (modified: bool)
    requires
        cursor_ok(textarea_lines(*old(t)), textarea_cursor(*old(t))),
    ensures
        cursor_ok(textarea_lines(*final(t)), textarea_cursor(*final(t))),
        (k == EditKey::Backspace && !ctrl && !alt && !textarea_selecting(*old(t))) ==> {
            let ls = textarea_lines(*old(t));
            let c = textarea_cursor(*old(t));
            &&& textarea_lines(*final(t)) == backspaced(ls, c)
            &&& textarea_cursor(*final(t)) == backspace_cursor(ls, c)
            &&& !textarea_selecting(*final(t))
            &&& modified == (c.0 > 0 || c.1 > 0)
        },
        (k == EditKey::Delete && !ctrl && !alt && !textarea_selecting(*old(t))) ==> {
            let ls = textarea_lines(*old(t));
            let c = textarea_cursor(*old(t));
            &&& textarea_lines(*final(t)) == next_deleted(ls, c)
            &&& textarea_cursor(*final(t)) == c
            &&& !textarea_selecting(*final(t))
            &&& modified == (c.1 < ls[c.0 as int].len() || c.0 + 1 < ls.len())
        },
{
    let key = match k {
        EditKey::Backspace => tui_textarea::Key::Backspace,
        EditKey::Delete => tui_textarea::Key::Delete,
        EditKey::Tab => tui_textarea::Key::Tab,
    };
    t.inner.input(tui_textarea::Input { key, ctrl, alt, shift })
}

/// `TextArea::input` with a move key: the text never changes and no change
/// is reported. Where `plain_move` holds and the key can move, the cursor
/// goes to `move_target` and a selection is started with Shift, cleared
/// without it; where it cannot move nothing changes. Other moves (by word,
/// paragraph, page) keep the cursor in the lines.
#[verifier::external_body]
fn textarea_move_key(t: &mut Editor, k: MoveKey, ctrl: bool, alt: bool, shift: bool) -> (modified: bool)
    requires
        cursor_ok(textarea_lines(*old(t)), textarea_cursor(*old(t))),
    ensures
        !modified,
        textarea_lines(*final(t)) == textarea_lines(*old(t)),
        cursor_ok(textarea_lines(*final(t)), textarea_cursor(*final(t))),
        plain_move(k, ctrl, alt) ==> match move_target(
            textarea_lines(*old(t)),
            textarea_cursor(*old(t)),
            k,
        ) {
            Some(p) => textarea_cursor(*final(t)) == p && textarea_selecting(*final(t)) == shift,
            None => textarea_cursor(*final(t)) == textarea_cursor(*old(t)) && textarea_selecting(
                *final(t),
            ) == textarea_selecting(*old(t)),
        },
{
    let key = match k {
        MoveKey::Left => tui_textarea::Key::Left,
        MoveKey::Right => tui_textarea::Key::Right,
        MoveKey::Up => tui_textarea::Key::Up,
        MoveKey::Down => tui_textarea::Key::Down,
        MoveKey::Home => tui_textarea::Key::Home,
        MoveKey::End => tui_textarea::Key::End,
        MoveKey::PageUp => tui_textarea::Key::PageUp,
        MoveKey::PageDown => tui_textarea::Key::PageDown,
    };
    t.inner.input(tui_textarea::Input { key, ctrl, alt, shift })
}

/// `TextArea::input` with a key the editor does not bind: nothing changes
/// and no change is reported.
#[verifier::external_body]
fn textarea_inert_key(t: &mut Editor, k: InertKey, ctrl: bool, alt: bool, shift: bool) -> (modified: bool)
    ensures
        !modified,
        textarea_lines(*final(t)) == textarea_lines(*old(t)),
        textarea_cursor(*final(t)) == textarea_cursor(*old(t)),
        textarea_selecting(*final(t)) == textarea_selecting(*old(t)),
{
    let key = match k {
        InertKey::Esc => tui_textarea::Key::Esc,
        InertKey::F(n) => tui_textarea::Key::F(n),
        InertKey::Null => tui_textarea::Key::Null,
    };
    t.inner.input(tui_textarea::Input { key, ctrl, alt, shift })
}

/// `TextArea::set_cursor_line_style(Style::default())`: turns off the
/// cursor line's highlight; text, cursor and selection are unchanged.
#[verifier::external_body]
fn textarea_plain_cursor_line(t: &mut Editor)
    ensures
        textarea_lines(*final(t)) == textarea_lines(*old(t)),
        textarea_cursor(*final(t)) == textarea_cursor(*old(t)),
        textarea_selecting(*final(t)) == textarea_selecting(*old(t)),
{
    t.inner.set_cursor_line_style(ratatui::style::Style::default())
}

/// `TextArea::set_placeholder_text`: sets the text shown while the editor
/// is empty; text, cursor and selection are unchanged.
#[verifier::external_body]
fn textarea_set_placeholder(t: &mut Editor, placeholder: &str)
    ensures
        textarea_lines(*final(t)) == textarea_lines(*old(t)),
        textarea_cursor(*final(t)) == textarea_cursor(*old(t)),
        textarea_selecting(*final(t)) == textarea_selecting(*old(t)),
{
    t.inner.set_placeholder_text(placeholder)
}

/// Height of the input box when shown alone.
pub const TEXT_INPUT_HEIGHT: u16 = 4;

/// Smallest height of the input box: a border, one line, a border.
pub const TEXT_INPUT_AREA_MIN_HEIGHT: u16 = 3;

/// Largest height of the input box.
pub const TEXT_INPUT_AREA_MAX_HEIGHT: u16 = 10;

/// A message to the input box.
#[derive(Debug, Clone, Copy, PartialEq)]
pub enum MsgTextArea {
    KeyInput(KeyPress),
    Newline,
    SetFocus(bool),
    Clear,
}

/// What a key press did to the input box.
#[derive(Debug)]
pub struct InputResult {
    pub submitted_text: Option<String>,
    pub height_changed: bool,
    pub new_height: u16,
}

/// The input box.
pub struct TextInputArea {
    textarea: Editor,
    min_height: u16,
    max_height: u16,
    current_height: u16,
    placeholder: String,
    is_focused: bool,
}

/// The text of the lines, joined by newlines.
pub open spec fn joined_lines(ls: Seq<Seq<char>>) -> Seq<char> {
    join_seq(ls, "\n"@)
}

/// Whether the lines are one empty line.
pub open spec fn lines_empty(ls: Seq<Seq<char>>) -> bool {
    ls.len() == 1 && ls[0].len() == 0
}

/// The height that shows `n` lines between borders, within `min..=max`
/// (the line count is taken as a `u16`, and the addition wraps).
pub open spec fn required_height(n: nat, min: u16, max: u16) -> u16 {
    let h = ((n as u16) as int + 2) % 65536;
    let a = if h >= min {
        h
    } else {
        min as int
    };
    (if a <= max {
        a
    } else {
        max as int
    }) as u16
}

/// One more than `h`, saturating.
pub open spec fn grow_one(h: u16) -> u16 {
    if h < u16::MAX {
        (h + 1) as u16
    } else {
        u16::MAX
    }
}

/// The lines an editor holds after `set_content`.
pub open spec fn content_lines(content: Seq<char>) -> Seq<Seq<char>> {
    if lines_of(content).len() == 0 {
        seq![Seq::<char>::empty()]
    } else {
        lines_of(content)
    }
}

/// Whether Ctrl or Alt is held.
pub open spec fn has_ctrl_or_alt(modifiers: u8) -> bool {
    modifiers & CONTROL != 0 || modifiers & ALT != 0
}

/// The character a key types as text: a character key without Ctrl or Alt.
pub open spec fn plain_char_spec(key: KeyPress) -> Option<char> {
    match key.code {
        KeyCode::Char(c) => if has_ctrl_or_alt(key.modifiers) {
            None
        } else {
            Some(c)
        },
        _ => None,
    }
}

/// Whether Ctrl is held.
pub open spec fn has_ctrl(modifiers: u8) -> bool {
    modifiers & CONTROL != 0
}

/// Whether Alt is held.
pub open spec fn has_alt(modifiers: u8) -> bool {
    modifiers & ALT != 0
}

/// The move key a key code stands for.
pub open spec fn move_key_of(code: KeyCode) -> Option<MoveKey> {
    match code {
        KeyCode::Left => Some(MoveKey::Left),
        KeyCode::Right => Some(MoveKey::Right),
        KeyCode::Up => Some(MoveKey::Up),
        KeyCode::Down => Some(MoveKey::Down),
        KeyCode::Home => Some(MoveKey::Home),
        KeyCode::End => Some(MoveKey::End),
        KeyCode::PageUp => Some(MoveKey::PageUp),
        KeyCode::PageDown => Some(MoveKey::PageDown),
        _ => None,
    }
}

/// Whether the editor has no binding for a key code.
pub open spec fn inert_code(code: KeyCode) -> bool {
    match code {
        KeyCode::Esc | KeyCode::F(_) | KeyCode::BackTab | KeyCode::Insert | KeyCode::Null
        | KeyCode::Other => true,
        _ => false,
    }
}

/// What a key press does to the box (`old` before, `new` after, `r` the
/// result): Shift+Enter adds a line and grows the height by one up to the
/// largest; Enter submits the text of a non-empty box and empties it; a
/// character typed as text is inserted at the cursor (a new line for `\n`
/// and `\r`) when nothing is selected; other keys go to the editor's
/// bindings. Bounds, focus and placeholder are kept, the editor stays
/// well-formed, and apart from Enter the height follows the line count.
pub open spec fn input_handled(
    old: TextInputArea,
    new: TextInputArea,
    key: KeyPress,
    r: InputResult,
) -> bool {
    &&& new.min_view() == old.min_view()
    &&& new.max_view() == old.max_view()
    &&& new.focused_view() == old.focused_view()
    &&& new.placeholder_view() == old.placeholder_view()
    &&& new.wf() == old.wf()
    &&& new.editor_wf()
    &&& r.new_height == new.height_view()
    &&& r.height_changed == (new.height_view() != old.height_view())
    &&& key.code == KeyCode::Enter && has_shift(key.modifiers) ==> {
        &&& r.submitted_text is None
        &&& new.lines_view().len() >= 2
        &&& new.height_view() == (if grow_one(old.height_view()) <= TEXT_INPUT_AREA_MAX_HEIGHT {
            grow_one(old.height_view())
        } else {
            TEXT_INPUT_AREA_MAX_HEIGHT
        })
    }
    &&& key.code == KeyCode::Enter && !has_shift(key.modifiers) ==> {
        if lines_empty(old.lines_view()) {
            &&& r.submitted_text is None
            &&& !r.height_changed
            &&& new.lines_view() == old.lines_view()
            &&& new.height_view() == old.height_view()
        } else {
            &&& r.submitted_text matches Some(t) && t@ == joined_lines(old.lines_view())
            &&& new.lines_view() == seq![Seq::<char>::empty()]
            &&& new.height_view() == old.min_view()
        }
    }
    &&& key.code != KeyCode::Enter ==> {
        &&& r.submitted_text is None
        &&& new.lines_view().len() >= 1
        &&& new.height_view() == required_height(
            new.lines_view().len(),
            old.min_view(),
            old.max_view(),
        )
    }
    &&& plain_char_spec(key) matches Some(c) ==> ((c == '\n' || c == '\r') ==> {
        &&& new.lines_view().len() >= 2
        &&& !new.selecting_view()
    })
    &&& plain_char_spec(key) matches Some(c) ==> ((c != '\n' && c != '\r'
        && !old.selecting_view()) ==> {
        &&& new.lines_view() == char_inserted(old.lines_view(), old.cursor_view(), c)
        &&& new.cursor_view() == (old.cursor_view().0, old.cursor_view().1 + 1)
        &&& !new.selecting_view()
    })
    &&& (key.code == KeyCode::Backspace && !has_ctrl(key.modifiers) && !has_alt(key.modifiers)
        && !old.selecting_view()) ==> {
        &&& new.lines_view() == backspaced(old.lines_view(), old.cursor_view())
        &&& new.cursor_view() == backspace_cursor(old.lines_view(), old.cursor_view())
        &&& !new.selecting_view()
    }
    &&& (key.code == KeyCode::Delete && !has_ctrl(key.modifiers) && !has_alt(key.modifiers)
        && !old.selecting_view()) ==> {
        &&& new.lines_view() == next_deleted(old.lines_view(), old.cursor_view())
        &&& new.cursor_view() == old.cursor_view()
        &&& !new.selecting_view()
    }
    &&& move_key_of(key.code) matches Some(k) ==> {
        &&& new.lines_view() == old.lines_view()
        &&& plain_move(k, has_ctrl(key.modifiers), has_alt(key.modifiers)) ==> match move_target(
            old.lines_view(),
            old.cursor_view(),
            k,
        ) {
            Some(p) => new.cursor_view() == p && new.selecting_view() == has_shift(key.modifiers),
            None => new.cursor_view() == old.cursor_view() && new.selecting_view()
                == old.selecting_view(),
        }
    }
    &&& inert_code(key.code) ==> {
        &&& new.lines_view() == old.lines_view()
        &&& new.cursor_view() == old.cursor_view()
        &&& new.selecting_view() == old.selecting_view()
    }
}

/// What a message does to the box: a new line (growing the height by one),
/// a key press (as `input_handled`), a focus change, or clearing. Bounds and
/// placeholder are kept and the editor stays well-formed.
pub open spec fn message_handled(old: TextInputArea, new: TextInputArea, msg: MsgTextArea) -> bool {
    &&& new.min_view() == old.min_view()
    &&& new.max_view() == old.max_view()
    &&& new.placeholder_view() == old.placeholder_view()
    &&& new.wf() == old.wf()
    &&& new.editor_wf()
    &&& match msg {
        MsgTextArea::Newline => {
            &&& new.lines_view().len() >= 2
            &&& new.height_view() == grow_one(old.height_view())
            &&& new.focused_view() == old.focused_view()
            &&& !new.selecting_view()
        },
        MsgTextArea::SetFocus(f) => {
            &&& new.focused_view() == f
            &&& new.lines_view() == old.lines_view()
            &&& new.height_view() == old.height_view()
            &&& new.cursor_view() == old.cursor_view()
            &&& new.selecting_view() == old.selecting_view()
        },
        MsgTextArea::Clear => {
            &&& new.lines_view() == seq![Seq::<char>::empty()]
            &&& new.height_view() == old.min_view()
            &&& new.focused_view() == old.focused_view()
            &&& new.cursor_view() == (0nat, 0nat)
            &&& !new.selecting_view()
        },
        MsgTextArea::KeyInput(key) => exists|r: InputResult| #[trigger] input_handled(old, new, key, r),
    }
}

impl TextInputArea {
    /// The editor's lines.
    pub closed spec fn lines_view(&self) -> Seq<Seq<char>> {
        textarea_lines(self.textarea)
    }

    /// The current height, borders included.
    pub closed spec fn height_view(&self) -> u16 {
        self.current_height
    }

    /// The smallest height.
    pub closed spec fn min_view(&self) -> u16 {
        self.min_height
    }

    /// The largest height.
    pub closed spec fn max_view(&self) -> u16 {
        self.max_height
    }

    /// The placeholder text.
    pub closed spec fn placeholder_view(&self) -> Seq<char> {
        self.placeholder@
    }

    /// Whether the box has focus.
    pub closed spec fn focused_view(&self) -> bool {
        self.is_focused
    }

    /// The editor's cursor.
    pub closed spec fn cursor_view(&self) -> (nat, nat) {
        textarea_cursor(self.textarea)
    }

    /// Whether a selection has been started in the editor.
    pub closed spec fn selecting_view(&self) -> bool {
        textarea_selecting(self.textarea)
    }

    /// The editor holds a line and its cursor points into the lines.
    pub open spec fn editor_wf(&self) -> bool {
        cursor_ok(self.lines_view(), self.cursor_view())
    }

    /// Heights stay within their bounds.
    pub closed spec fn wf(&self) -> bool {
        self.min_height == TEXT_INPUT_AREA_MIN_HEIGHT && self.max_height
            == TEXT_INPUT_AREA_MAX_HEIGHT
    }

    /// An empty, unfocused box of the smallest height.
    pub fn new() -> (r: Self)
        ensures
            r.wf(),
            r.lines_view() == seq![Seq::<char>::empty()],
            r.height_view() == TEXT_INPUT_AREA_MIN_HEIGHT,
            r.min_view() == TEXT_INPUT_AREA_MIN_HEIGHT,
            r.max_view() == TEXT_INPUT_AREA_MAX_HEIGHT,
            r.placeholder_view() == "Type your message..."@,
            !r.focused_view(),
            r.editor_wf(),
            r.cursor_view() == (0nat, 0nat),
            !r.selecting_view(),
    {
        let mut textarea = textarea_default();
        textarea_plain_cursor_line(&mut textarea);
        TextInputArea {
            textarea,
            min_height: TEXT_INPUT_AREA_MIN_HEIGHT,
            max_height: TEXT_INPUT_AREA_MAX_HEIGHT,
            current_height: TEXT_INPUT_AREA_MIN_HEIGHT,
            placeholder: string_from_chars(chars_of("Type your message...").as_slice()),
            is_focused: false,
        }
    }

    /// An empty box with the given placeholder.
    pub fn with_placeholder(placeholder: &str) -> (r: Self)
        ensures
            r.wf(),
            r.lines_view() == seq![Seq::<char>::empty()],
            r.height_view() == TEXT_INPUT_AREA_MIN_HEIGHT,
            r.placeholder_view() == placeholder@,
            !r.focused_view(),
            r.editor_wf(),
            r.cursor_view() == (0nat, 0nat),
            !r.selecting_view(),
    {
        let mut instance = Self::new();
        instance.placeholder = string_from_chars(chars_of(placeholder).as_slice());
        textarea_set_placeholder(&mut instance.textarea, placeholder);
        instance
    }

    /// Gives or takes focus.
    pub fn set_focus(&mut self, focused: bool)
        ensures
            final(self).focused_view() == focused,
            final(self).lines_view() == old(self).lines_view(),
            final(self).min_view() == old(self).min_view(),
            final(self).max_view() == old(self).max_view(),
            final(self).height_view() == old(self).height_view(),
            final(self).placeholder_view() == old(self).placeholder_view(),
            final(self).wf() == old(self).wf(),
            final(self).cursor_view() == old(self).cursor_view(),
            final(self).selecting_view() == old(self).selecting_view(),
    {
        self.is_focused = focused;
    }

    /// Whether the box has focus.
    pub fn is_focused(&self) -> (b: bool)
        ensures
            b == self.focused_view(),
    {
        self.is_focused
    }

    /// Empties the box and returns it to its smallest height.
    pub fn clear(&mut self)
        ensures
            final(self).lines_view() == seq![Seq::<char>::empty()],
            final(self).height_view() == old(self).min_view(),
            final(self).min_view() == old(self).min_view(),
            final(self).max_view() == old(self).max_view(),
            final(self).focused_view() == old(self).focused_view(),
            final(self).placeholder_view() == old(self).placeholder_view(),
            final(self).wf() == old(self).wf(),
            final(self).editor_wf(),
            final(self).cursor_view() == (0nat, 0nat),
            !final(self).selecting_view(),
    {
        self.textarea = textarea_default();
        textarea_plain_cursor_line(&mut self.textarea);
        textarea_set_placeholder(&mut self.textarea, self.placeholder.as_str());
        self.current_height = self.min_height;
    }

    /// The text: the lines joined by newlines.
    pub fn content(&self) -> (r: String)
        ensures
            r@ == joined_lines(self.lines_view()),
    {
        let ls = textarea_lines_ref(&self.textarea);
        let ghost lv = ls@.map_values(|s: String| s@);
        let mut out: Vec<char> = Vec::new();
        let mut i: usize = 0;
        while i < ls.len()
            invariant
                i <= ls@.len(),
                lv == ls@.map_values(|s: String| s@),
                out@ == join_seq(lv.take(i as int), "\n"@),
            decreases ls.len() - i,
        {
            proof {
                assert(lv.take(i + 1).drop_last() =~= lv.take(i as int));
                assert(lv.take(i + 1).last() == ls@[i as int]@);
                reveal_strlit("\n");
            }
            if i > 0 {
                push_str(&mut out, "\n");
            } else {
                assert(join_seq(lv.take(0), "\n"@) =~= Seq::<char>::empty());
            }
            push_str(&mut out, ls[i].as_str());
            proof {
                if i == 0 {
                    assert(out@ =~= lv.take(1)[0]);
                }
            }
            i = i + 1;
        }
        assert(lv.take(i as int) =~= lv);
        string_from_chars(out.as_slice())
    }

    /// Replaces the text and fits the height to it.
    pub fn set_content(&mut self, content: &str)
        ensures
            final(self).lines_view() == content_lines(content@),
            final(self).height_view() == required_height(
                content_lines(content@).len(),
                old(self).min_view(),
                old(self).max_view(),
            ),
            final(self).min_view() == old(self).min_view(),
            final(self).max_view() == old(self).max_view(),
            final(self).focused_view() == old(self).focused_view(),
            final(self).placeholder_view() == old(self).placeholder_view(),
            final(self).wf() == old(self).wf(),
            final(self).editor_wf(),
            final(self).cursor_view() == (0nat, 0nat),
            !final(self).selecting_view(),
    {
        self.textarea = textarea_from_text(content);
        textarea_plain_cursor_line(&mut self.textarea);
        textarea_set_placeholder(&mut self.textarea, self.placeholder.as_str());
        self.current_height = self.calculate_required_height();
    }

    /// Whether the box holds one empty line.
    pub fn is_empty(&self) -> (b: bool)
        ensures
            b == lines_empty(self.lines_view()),
    {
        let ls = textarea_lines_ref(&self.textarea);
        proof {
            if ls@.len() > 0 {
                assert(ls@.map_values(|s: String| s@)[0] == ls@[0]@);
            }
        }
        ls.len() == 1 && ls[0].as_str().unicode_len() == 0
    }

    fn calculate_required_height(&self) -> (h: u16)
        ensures
            h == required_height(self.lines_view().len(), self.min_height, self.max_height),
    {
        let ls = textarea_lines_ref(&self.textarea);
        let n: u16 = #[verifier::truncate] (ls.len() as u16);
        let required: u16 = n.wrapping_add(2);
        let a: u16 = if required >= self.min_height {
            required
        } else {
            self.min_height
        };
        if a <= self.max_height {
            a
        } else {
            self.max_height
        }
    }

    /// The current height, borders included.
    pub fn current_height(&self) -> (h: u16)
        ensures
            h == self.height_view(),
    {
        self.current_height
    }

    /// Applies a key press: Shift+Enter adds a line (and a row of height,
    /// up to the largest); Enter submits the text of a non-empty box and
    /// empties it; other keys go to the editor, and the height follows the
    /// lines.
    pub fn handle_input(&mut self, key_event: KeyPress) -> (r: InputResult)
        requires
            old(self).editor_wf(),
        ensures
            input_handled(*old(self), *final(self), key_event, r),
    {
        let old_height = self.current_height;
        let shift = shift_held(key_event.modifiers);
        match key_event.code {
            KeyCode::Enter => {
                if shift {
                    textarea_insert_newline(&mut self.textarea);
                    let grown = self.current_height.saturating_add(1);
                    self.current_height = if grown <= TEXT_INPUT_AREA_MAX_HEIGHT {
                        grown
                    } else {
                        TEXT_INPUT_AREA_MAX_HEIGHT
                    };
                    return InputResult {
                        submitted_text: None,
                        height_changed: self.current_height != old_height,
                        new_height: self.current_height,
                    };
                } else {
                    if !self.is_empty() {
                        let submitted_text = self.content();
                        self.clear();
                        return InputResult {
                            submitted_text: Some(submitted_text),
                            height_changed: self.current_height != old_height,
                            new_height: self.current_height,
                        };
                    } else {
                        return InputResult {
                            submitted_text: None,
                            height_changed: false,
                            new_height: self.current_height,
                        };
                    }
                }
            },
            _ => {},
        }
        let ctrl = key_event.modifiers & CONTROL != 0;
        let alt = key_event.modifiers & ALT != 0;
        let t = &mut self.textarea;
        match key_event.code {
            KeyCode::Char(c) => {
                textarea_input_char(t, c, ctrl, alt, shift);
            },
            KeyCode::Backspace => {
                textarea_edit_key(t, EditKey::Backspace, ctrl, alt, shift);
            },
            KeyCode::Delete => {
                textarea_edit_key(t, EditKey::Delete, ctrl, alt, shift);
            },
            KeyCode::Tab => {
                textarea_edit_key(t, EditKey::Tab, ctrl, alt, shift);
            },
            KeyCode::Left => {
                textarea_move_key(t, MoveKey::Left, ctrl, alt, shift);
            },
            KeyCode::Right => {
                textarea_move_key(t, MoveKey::Right, ctrl, alt, shift);
            },
            KeyCode::Up => {
                textarea_move_key(t, MoveKey::Up, ctrl, alt, shift);
            },
            KeyCode::Down => {
                textarea_move_key(t, MoveKey::Down, ctrl, alt, shift);
            },
            KeyCode::Home => {
                textarea_move_key(t, MoveKey::Home, ctrl, alt, shift);
            },
            KeyCode::End => {
                textarea_move_key(t, MoveKey::End, ctrl, alt, shift);
            },
            KeyCode::PageUp => {
                textarea_move_key(t, MoveKey::PageUp, ctrl, alt, shift);
            },
            KeyCode::PageDown => {
                textarea_move_key(t, MoveKey::PageDown, ctrl, alt, shift);
            },
            KeyCode::Esc => {
                textarea_inert_key(t, InertKey::Esc, ctrl, alt, shift);
            },
            KeyCode::F(n) => {
                textarea_inert_key(t, InertKey::F(n), ctrl, alt, shift);
            },
            _ => {
                textarea_inert_key(t, InertKey::Null, ctrl, alt, shift);
            },
        }
        self.current_height = self.calculate_required_height();
        InputResult {
            submitted_text: None,
            height_changed: self.current_height != old_height,
            new_height: self.current_height,
        }
    }

    /// Applies a message: a new line (growing the height by one), a key
    /// press, a focus change or clearing.
    pub fn handle_message(&mut self, msg: MsgTextArea)
        requires
            old(self).editor_wf(),
        ensures
            message_handled(*old(self), *final(self), msg),
    {
        match msg {
            MsgTextArea::Newline => {
                textarea_insert_newline(&mut self.textarea);
                self.current_height = self.current_height.saturating_add(1);
            },
            MsgTextArea::KeyInput(key_event) => {
                self.handle_input(key_event);
            },
            MsgTextArea::SetFocus(focused) => {
                if self.is_focused != focused {
                    self.set_focus(focused);
                }
            },
            MsgTextArea::Clear => {
                self.clear();
            },
        }
    }
}


/// The box's height stays within its bounds, and is the line count plus
/// the two borders whenever that fits them.
pub proof fn law_required_height_bounds(n: nat, min: u16, max: u16)
    requires
        min <= max,
    ensures
        min <= required_height(n, min, max) <= max,
        n + 2 <= u16::MAX && min <= n + 2 <= max ==> required_height(n, min, max) == n + 2,
{
}

/// Setting a text and reading the content back gives the text, when it has
/// no carriage return and does not end in a newline.
pub proof fn law_set_content_then_content(content: Seq<char>)
    requires
        no_cr(content),
        content.len() == 0 || content.last() != '\n',
    ensures
        joined_lines(content_lines(content)) == content,
{
    law_lines_join_roundtrip(content);
    if content.len() > 0 {
        lemma_lines_of_nonempty(content);
    } else {
        assert(lines_of(content) =~= Seq::<Seq<char>>::empty());
        assert(joined_lines(seq![Seq::<char>::empty()]) == Seq::<char>::empty());
        assert(content =~= Seq::<char>::empty());
    }
}

} // verus!
