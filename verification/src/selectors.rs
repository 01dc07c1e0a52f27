//! The session selector (a list whose first entry creates a new session) and
//! the file selector (a table of changed files with their line counts).

use vstd::prelude::*;
use crate::modal_selector::{
    BORDERS_ALL, Constraint, ModalSelector, ModalSelectorEvent, SelectableData, SelectorConfig,
    SelectorMode, Style, TableColumn, opt_is,
};
use crate::models::{File, Session};
use crate::renderer::{Color, StyledLine, StyledSpan};
use crate::text::{chars_of, decimal, push_decimal, push_str, string_from_chars};

verus! {

fn owned(s: &str) -> (r: String)
    ensures
        r@ == s@,
{
    string_from_chars(chars_of(s).as_slice())
}

/// An entry of the session selector: a session, or the entry that creates
/// one.
#[derive(Debug, PartialEq)]
pub struct SessionData {
    pub session: Option<Session>,
    pub display_text: String,
    pub is_current: bool,
}

impl Clone for SessionData {
    fn clone(&self) -> (r: Self)
        ensures
            r == *self,
    {
        let session = match &self.session {
            Some(s) => Some(s.clone()),
            None => None,
        };
        SessionData { session, display_text: self.display_text.clone(), is_current: self.is_current }
    }
}

impl SessionData {
    /// The entry that creates a new session.
    pub fn new_session() -> (r: Self)
        ensures
            r.session is None,
            r.display_text@ == "Create New Session"@,
            !r.is_current,
    {
        SessionData { session: None, display_text: owned("Create New Session"), is_current: false }
    }

    /// The entry of an existing session, shown by its title.
    pub fn from_session(session: &Session, is_current: bool) -> (r: Self)
        ensures
            r.session == Some(*session),
            r.display_text == session.title,
            r.is_current == is_current,
    {
        SessionData { display_text: session.title.clone(), session: Some(session.clone()), is_current }
    }
}

/// The spans of a session entry: a marker (`* ` in blue for the current
/// session, two spaces otherwise) and the text.
pub open spec fn session_spans(d: SessionData) -> Seq<(Seq<char>, Option<Color>)> {
    seq![
        (if d.is_current {
            "* "@
        } else {
            "  "@
        }, if d.is_current {
            Some(Color::Blue)
        } else {
            None
        }),
        (d.display_text@, None),
    ]
}

fn span(content: &str, fg: Option<Color>) -> (r: StyledSpan)
    ensures
        r@ == (content@, fg),
{
    StyledSpan { content: owned(content), fg }
}

impl SelectableData for SessionData {
    /// One cell: the entry's text, unstyled.
    fn to_cells(&self) -> (r: Vec<StyledLine>)
        ensures
            r@.map_values(|l: StyledLine| l@) == seq![seq![(self.display_text@, None::<Color>)]],
    {
        let mut cells: Vec<StyledLine> = Vec::new();
        let mut spans: Vec<StyledSpan> = Vec::new();
        spans.push(StyledSpan { content: self.display_text.clone(), fg: None });
        let line = StyledLine { spans };
        assert(line@ =~= seq![(self.display_text@, None::<Color>)]);
        cells.push(line);
        assert(cells@.map_values(|l: StyledLine| l@) =~= seq![seq![(self.display_text@, None::<Color>)]]);
        cells
    }

    /// The entry's text.
    fn to_string(&self) -> (r: String)
        ensures
            r@ == self.display_text@,
    {
        self.display_text.clone()
    }

    /// The marker and the text.
    fn to_spans(&self) -> (r: Option<Vec<StyledSpan>>)
        ensures
            r matches Some(v) && v@.map_values(|s: StyledSpan| s@) == session_spans(*self),
    {
        Some(self.spans())
    }
}

impl SessionData {
    /// The entry's styled spans.
    pub fn spans(&self) -> (r: Vec<StyledSpan>)
        ensures
            r@.map_values(|s: StyledSpan| s@) == session_spans(*self),
    {
        let mut spans: Vec<StyledSpan> = Vec::new();
        if self.is_current {
            spans.push(span("* ", Some(Color::Blue)));
        } else {
            spans.push(span("  ", None));
        }
        spans.push(StyledSpan { content: self.display_text.clone(), fg: None });
        assert(spans@.map_values(|s: StyledSpan| s@) =~= session_spans(*self));
        spans
    }

    /// The entry as plain text.
    pub fn text(&self) -> (r: String)
        ensures
            r == self.display_text,
    {
        self.display_text.clone()
    }
}

/// An entry of the file selector.
#[derive(Debug, PartialEq)]
pub struct FileData {
    pub file: File,
}

impl Clone for FileData {
    fn clone(&self) -> (r: Self)
        ensures
            r == *self,
    {
        FileData { file: self.file.clone() }
    }
}

/// The change counts of a file: `+added` in green when lines were added,
/// `-removed` in red when lines were removed (a space between the two), or
/// one empty span when neither.
pub open spec fn change_spans(f: File) -> Seq<(Seq<char>, Option<Color>)> {
    let plus = if f.added > 0 {
        seq![("+"@ + decimal(f.added as nat), Some(Color::Green))]
    } else {
        seq![]
    };
    let with_minus = if f.removed > 0 {
        (if plus.len() > 0 {
            plus.push((" "@, None))
        } else {
            plus
        }).push(("-"@ + decimal(f.removed as nat), Some(Color::Red)))
    } else {
        plus
    };
    if with_minus.len() == 0 {
        seq![(seq![], None)]
    } else {
        with_minus
    }
}

impl FileData {
    /// The entry of a file.
    pub fn from_file(file: File) -> (r: Self)
        ensures
            r.file == file,
    {
        FileData { file }
    }

    /// The file's change counts as spans.
    pub fn format_changes(&self) -> (r: Vec<StyledSpan>)
        ensures
            r@.map_values(|s: StyledSpan| s@) == change_spans(self.file),
    {
        let f = &self.file;
        let ghost plus: Seq<(Seq<char>, Option<Color>)> = if f.added > 0 {
            seq![("+"@ + decimal(f.added as nat), Some(Color::Green))]
        } else {
            seq![]
        };
        let ghost with_minus: Seq<(Seq<char>, Option<Color>)> = if f.removed > 0 {
            (if plus.len() > 0 {
                plus.push((" "@, None))
            } else {
                plus
            }).push(("-"@ + decimal(f.removed as nat), Some(Color::Red)))
        } else {
            plus
        };
        let mut spans: Vec<StyledSpan> = Vec::new();
        if f.added > 0 {
            let mut t: Vec<char> = Vec::new();
            push_str(&mut t, "+");
            push_decimal(&mut t, f.added as u64);
            spans.push(StyledSpan { content: string_from_chars(t.as_slice()), fg: Some(Color::Green) });
        }
        assert(spans@.map_values(|s: StyledSpan| s@) =~= plus);
        if f.removed > 0 {
            if spans.len() > 0 {
                spans.push(span(" ", None));
            }
            assert(spans@.map_values(|s: StyledSpan| s@) =~= (if plus.len() > 0 {
                plus.push((" "@, None))
            } else {
                plus
            }));
            let mut t: Vec<char> = Vec::new();
            push_str(&mut t, "-");
            push_decimal(&mut t, f.removed as u64);
            spans.push(StyledSpan { content: string_from_chars(t.as_slice()), fg: Some(Color::Red) });
        }
        assert(spans@.map_values(|s: StyledSpan| s@) =~= with_minus);
        if spans.len() == 0 {
            proof {
                reveal_strlit("");
                assert(""@ =~= Seq::<char>::empty());
            }
            spans.push(span("", None));
            assert(spans@.map_values(|s: StyledSpan| s@) =~= seq![(Seq::<char>::empty(), None::<Color>)]);
        }
        assert(spans@.map_values(|s: StyledSpan| s@) =~= change_spans(self.file));
        spans
    }
}

impl SelectableData for FileData {
    /// Two cells: the changes, and the path unstyled.
    fn to_cells(&self) -> (r: Vec<StyledLine>)
        ensures
            r@.map_values(|l: StyledLine| l@) == seq![
                change_spans(self.file),
                seq![(self.file.path@, None::<Color>)],
            ],
    {
        let mut cells: Vec<StyledLine> = Vec::new();
        let changes = StyledLine { spans: self.format_changes() };
        assert(changes@ =~= change_spans(self.file));
        cells.push(changes);
        let mut path: Vec<StyledSpan> = Vec::new();
        path.push(StyledSpan { content: self.file.path.clone(), fg: None });
        let path_line = StyledLine { spans: path };
        assert(path_line@ =~= seq![(self.file.path@, None::<Color>)]);
        cells.push(path_line);
        assert(cells@.map_values(|l: StyledLine| l@) =~= seq![
            change_spans(self.file),
            seq![(self.file.path@, None::<Color>)],
        ]);
        cells
    }

    /// The file's path.
    fn to_string(&self) -> (r: String)
        ensures
            r@ == self.file.path@,
    {
        self.file.path.clone()
    }

    /// The changes, a space, and the path.
    fn to_spans(&self) -> (r: Option<Vec<StyledSpan>>)
        ensures
            r matches Some(v) && v@.map_values(|s: StyledSpan| s@) == change_spans(self.file) + seq![
                (" "@, None::<Color>),
                (self.file.path@, None::<Color>),
            ],
    {
        let mut spans = self.format_changes();
        let ghost before = spans@.map_values(|s: StyledSpan| s@);
        spans.push(span(" ", None));
        spans.push(StyledSpan { content: self.file.path.clone(), fg: None });
        assert(spans@.map_values(|s: StyledSpan| s@) =~= before + seq![
            (" "@, None::<Color>),
            (self.file.path@, None::<Color>),
        ]);
        Some(spans)
    }
}

/// A message for the session selector.
#[derive(Debug, Clone, PartialEq)]
pub enum MsgModalSessionSelector {
    Event(ModalSelectorEvent<SessionData>),
    SessionSelected(usize),
    CreateNew,
    Cancel,
}

/// The session selector.
#[derive(Debug, Clone)]
pub struct SessionSelector {
    pub modal: ModalSelector<SessionData>,
    current_session_index: Option<usize>,
}

impl SessionSelector {
    /// The list.
    pub closed spec fn modal_view(&self) -> ModalSelector<SessionData> {
        self.modal
    }

    /// The current session's entry (0 is the "create" entry).
    pub closed spec fn current_view(&self) -> Option<usize> {
        self.current_session_index
    }

    /// A hidden, empty session list with the given title.
    pub fn new(title: &str) -> (r: Self)
        ensures
            opt_is(r.modal_view().config.title, title@),
            opt_is(r.modal_view().config.footer, "↑↓ navigate, Enter select, Esc cancel"@),
            r.modal_view().config.max_width == Some(60u16),
            r.modal_view().config.max_height == Some(15u16),
            !r.modal_view().config.show_scrollbar,
            !r.modal_view().config.alternating_rows,
            r.modal_view().config.selected_style == (Style {
                fg: Some(Color::White),
                bg: Some(Color::Blue),
                reversed: true,
            }),
            r.modal_view().mode == SelectorMode::List,
            r.modal_view().items@.len() == 0,
            r.modal_view().state.selected == Some(0usize),
            !r.modal_view().is_visible,
            !r.modal_view().loading,
            r.modal_view().error is None,
            r.current_view() is None,
    {
        let config = SelectorConfig {
            title: Some(owned(title)),
            footer: Some(owned("↑↓ navigate, Enter select, Esc cancel")),
            max_width: Some(60),
            max_height: Some(15),
            padding: 0,
            show_scrollbar: false,
            alternating_rows: false,
            borders: BORDERS_ALL,
            border_color: Color::Blue,
            selected_style: Style { fg: Some(Color::White), bg: Some(Color::Blue), reversed: true },
            header_style: Style { fg: Some(Color::Yellow), bg: None, reversed: false },
            row_style: Style { fg: Some(Color::White), bg: None, reversed: false },
            alt_row_style: None,
        };
        SessionSelector {
            modal: ModalSelector::new(config, SelectorMode::List),
            current_session_index: None,
        }
    }

    /// Whether the list is shown.
    pub fn is_visible(&self) -> (b: bool)
        ensures
            b == self.modal_view().is_visible,
    {
        self.modal.is_visible()
    }

    /// The selected entry, 0 when none.
    pub fn selected_index(&self) -> (r: usize)
        ensures
            r == match self.modal_view().state.selected {
                Some(i) => i,
                None => 0,
            },
    {
        match self.modal.selected_index() {
            Some(i) => i,
            None => 0,
        }
    }

    /// The entries' texts.
    pub fn items(&self) -> (r: Vec<String>)
        ensures
            r@.len() == self.modal_view().items@.len(),
            forall|i: int| 0 <= i < r@.len() ==> #[trigger] r@[i] == self.modal_view().items@[i].display_text,
    {
        let mut out: Vec<String> = Vec::new();
        let mut i: usize = 0;
        while i < self.modal.items.len()
            invariant
                i <= self.modal.items@.len(),
                out@.len() == i,
                forall|k: int| 0 <= k < i ==> #[trigger] out@[k] == self.modal.items@[k].display_text,
            decreases self.modal.items.len() - i,
        {
            out.push(self.modal.items[i].text());
            i = i + 1;
        }
        out
    }

    /// Whether the sessions are loading.
    pub fn is_loading(&self) -> (b: bool)
        ensures
            b == self.modal_view().loading,
    {
        self.modal.loading
    }

    /// The error shown, if any.
    pub fn error(&self) -> (r: Option<&String>)
        ensures
            r == match &self.modal_view().error {
                Some(e) => Some(e),
                None => None::<&String>,
            },
    {
        match &self.modal.error {
            Some(e) => Some(e),
            None => None,
        }
    }

    /// The scroll offset; the list scrolls itself, so this is always 0.
    pub fn scroll_offset(&self) -> (r: usize)
        ensures
            r == 0,
    {
        0
    }

    /// Records which entry is the current session.
    pub fn set_current_session_index(&mut self, index: Option<usize>)
        ensures
            final(self).current_view() == index,
            final(self).modal_view() == old(self).modal_view(),
    {
        self.current_session_index = index;
    }

    /// The current session's entry.
    pub fn current_session_index(&self) -> (r: Option<usize>)
        ensures
            r == self.current_view(),
    {
        self.current_session_index
    }

    /// Sets the largest width and height of the pop-up.
    pub fn set_max_dimensions(&mut self, max_width: Option<u16>, max_height: Option<u16>)
        ensures
            final(self).modal_view() == (ModalSelector {
                config: SelectorConfig { max_width, max_height, ..old(self).modal_view().config },
                ..old(self).modal_view()
            }),
            final(self).current_view() == old(self).current_view(),
    {
        self.modal.config.max_width = max_width;
        self.modal.config.max_height = max_height;
    }

    /// Applies an event to the list.
    pub fn handle_event(&mut self, event: ModalSelectorEvent<SessionData>) -> (r:
        crate::modal_selector::ModalSelectorUpdate<SessionData>)
        ensures
            final(self).modal_view() == crate::modal_selector::after_event(
                old(self).modal_view(),
                event,
            ),
            final(self).current_view() == old(self).current_view(),
            final(self).modal_view() == old(self).modal_view() ==> *final(self) == *old(self),
            match event {
                ModalSelectorEvent::KeyInput(key) => crate::modal_selector::key_reply(
                    old(self).modal_view(),
                    key.code,
                    r,
                ),
                _ => r is NoChange,
            },
    {
        self.modal.handle_event(event)
    }

    /// Keeps the selection in view; the list does this itself, so nothing
    /// changes.
    pub fn update_scroll_position(&mut self)
        ensures
            final(self).modal_view() == old(self).modal_view(),
            final(self).current_view() == old(self).current_view(),
    {
    }
}

/// A message for the file selector.
#[derive(Debug, Clone, PartialEq)]
pub enum MsgModalFileSelector {
    Event(ModalSelectorEvent<FileData>),
    FileSelected(File),
    Cancel,
}

/// The file selector.
#[derive(Debug, Clone)]
pub struct FileSelector {
    pub modal: ModalSelector<FileData>,
}

impl FileSelector {
    /// A hidden, empty table of changes and paths.
    pub fn new() -> (r: Self)
        ensures
            opt_is(r.modal.config.title, "File Selector"@),
            opt_is(r.modal.config.footer, "↑↓ navigate, Enter select, Esc close"@),
            r.modal.config.max_width == Some(80u16),
            r.modal.config.max_height == Some(20u16),
            r.modal.config.show_scrollbar,
            r.modal.mode matches SelectorMode::Table { columns } && columns@.len() == 2
                && columns@[0].header@ == "Changes"@ && columns@[0].constraint
                == Constraint::Length(10) && columns@[1].header@ == "File Path"@
                && columns@[1].constraint == Constraint::Min(20),
            r.modal.items@.len() == 0,
            r.modal.state.selected == Some(0usize),
            !r.modal.is_visible,
            !r.modal.loading,
            r.modal.error is None,
    {
        let config = SelectorConfig {
            title: Some(owned("File Selector")),
            footer: Some(owned("↑↓ navigate, Enter select, Esc close")),
            max_width: Some(80),
            max_height: Some(20),
            padding: 0,
            show_scrollbar: true,
            alternating_rows: false,
            borders: BORDERS_ALL,
            border_color: Color::Blue,
            selected_style: Style { fg: Some(Color::Blue), bg: None, reversed: true },
            header_style: Style { fg: Some(Color::Yellow), bg: None, reversed: false },
            row_style: Style { fg: Some(Color::White), bg: None, reversed: false },
            alt_row_style: None,
        };
        let mut columns: Vec<TableColumn> = Vec::new();
        columns.push(TableColumn::new("Changes", Constraint::Length(10)));
        columns.push(TableColumn::new("File Path", Constraint::Min(20)));
        FileSelector { modal: ModalSelector::new(config, SelectorMode::Table { columns }) }
    }

    /// Shows the given files, the first one selected.
    pub fn set_files(&mut self, files: Vec<File>)
        ensures
            final(self).modal == crate::modal_selector::with_items(old(self).modal, final(self).modal.items),
            final(self).modal.items@.len() == files@.len(),
            forall|i: int| 0 <= i < files@.len() ==> #[trigger] final(self).modal.items@[i].file == files@[i],
    {
        let mut data: Vec<FileData> = Vec::new();
        let mut files = files;
        let ghost fv = files@;
        let mut i: usize = 0;
        let n = files.len();
        while i < n
            invariant
                n == fv.len(),
                i <= n,
                data@.len() == i,
                forall|k: int| 0 <= k < i ==> #[trigger] data@[k].file == fv[k],
                files@.len() == n - i,
                forall|k: int| 0 <= k < n - i ==> #[trigger] files@[k] == fv[k + i],
            decreases n - i,
        {
            let f = files.remove(0);
            data.push(FileData::from_file(f));
            i = i + 1;
        }
        self.modal.set_items(data);
    }

    /// The selected row.
    pub fn selected_index(&self) -> (r: Option<usize>)
        ensures
            r == self.modal.state.selected,
    {
        self.modal.selected_index()
    }

    /// Moves the selection up.
    pub fn navigate_up(&mut self)
        ensures
            final(self).modal.state.selected == crate::modal_selector::up_index(
                old(self).modal.state.selected,
                old(self).modal.items@.len(),
            ),
            final(self).modal.items == old(self).modal.items,
    {
        self.modal.navigate_up();
    }

    /// Moves the selection down.
    pub fn navigate_down(&mut self)
        ensures
            final(self).modal.state.selected == crate::modal_selector::down_index(
                old(self).modal.state.selected,
                old(self).modal.items@.len(),
            ),
            final(self).modal.items == old(self).modal.items,
    {
        self.modal.navigate_down();
    }

    /// The selected file.
    pub fn get_selected_file(&self) -> (r: Option<&File>)
        ensures
            match self.modal.state.selected {
                Some(i) => if i < self.modal.items@.len() {
                    r == Some(&self.modal.items@[i as int].file)
                } else {
                    r is None
                },
                None => r is None,
            },
    {
        match self.modal.selected_item() {
            Some(d) => Some(&d.file),
            None => None,
        }
    }

    /// Whether the table is shown.
    pub fn is_visible(&self) -> (b: bool)
        ensures
            b == self.modal.is_visible,
    {
        self.modal.is_visible()
    }

    /// Shows the table.
    pub fn show(&mut self)
        ensures
            final(self).modal == (ModalSelector { is_visible: true, ..old(self).modal }),
    {
        self.modal.show();
    }

    /// Hides the table.
    pub fn hide_selector(&mut self)
        ensures
            final(self).modal == (ModalSelector { is_visible: false, ..old(self).modal }),
    {
        self.modal.hide_selector();
    }
}

} // verus!
