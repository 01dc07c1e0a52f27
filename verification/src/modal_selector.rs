//! A generic pop-up selector (list or table) and its two uses: choosing a
//! session and choosing a file to mention.

use vstd::prelude::*;
use crate::keys::{KeyCode, KeyPress};
use crate::message_log::ScrollbarState;
use crate::models::{File, Session};
use crate::renderer::{Color, StyledLine, StyledSpan};
use crate::text::{chars_of, decimal, push_decimal, push_str, string_from_chars};

verus! {

/// Widest the client's panels get, in columns.
pub const MAX_UI_WIDTH: u16 = 120;

/// All four borders, as border bits (top, right, bottom, left).
pub const BORDERS_ALL: u8 = 15;

/// Text alignment within a column.
#[derive(Debug, Clone, Copy, PartialEq, Eq, Structural)]
pub enum Alignment {
    Left,
    Center,
    Right,
}

/// How wide a table column is.
#[derive(Debug, Clone, Copy, PartialEq, Eq, Structural)]
pub enum Constraint {
    Min(u16),
    Max(u16),
    Length(u16),
    Percentage(u16),
    Ratio(u32, u32),
    Fill(u16),
}

/// Foreground and background colours and reverse video.
#[derive(Debug, Clone, Copy, PartialEq, Eq, Structural)]
pub struct Style {
    pub fg: Option<Color>,
    pub bg: Option<Color>,
    pub reversed: bool,
}

/// The plain style.
pub open spec fn plain() -> Style {
    Style { fg: None, bg: None, reversed: false }
}

/// A style with only a foreground colour.
pub open spec fn fg_style(c: Color) -> Style {
    Style { fg: Some(c), bg: None, reversed: false }
}

/// A column of a table selector.
#[derive(Debug, Clone, PartialEq)]
pub struct TableColumn {
    pub header: String,
    pub constraint: Constraint,
    pub alignment: Option<Alignment>,
}

impl TableColumn {
    /// A column with the given header and width, default alignment.
    pub fn new(header: &str, constraint: Constraint) -> (r: Self)
        ensures
            r.header@ == header@,
            r.constraint == constraint,
            r.alignment is None,
    {
        TableColumn {
            header: string_from_chars(chars_of(header).as_slice()),
            constraint,
            alignment: None,
        }
    }

    /// The same column with an alignment.
    pub fn with_alignment(self, alignment: Alignment) -> (r: Self)
        ensures
            r.header == self.header,
            r.constraint == self.constraint,
            r.alignment == Some(alignment),
    {
        TableColumn { alignment: Some(alignment), ..self }
    }
}

/// Appearance of a selector.
#[derive(Debug, Clone, PartialEq)]
pub struct SelectorConfig {
    pub title: Option<String>,
    pub footer: Option<String>,
    pub max_width: Option<u16>,
    pub max_height: Option<u16>,
    pub padding: u16,
    pub show_scrollbar: bool,
    pub alternating_rows: bool,
    /// Border bits: top 1, right 2, bottom 4, left 8.
    pub borders: u8,
    pub border_color: Color,
    pub selected_style: Style,
    pub header_style: Style,
    pub row_style: Style,
    pub alt_row_style: Option<Style>,
}

/// Whether `o` holds the given text.
pub open spec fn opt_is(o: Option<String>, s: Seq<char>) -> bool {
    o matches Some(x) && x@ == s
}

/// The default appearance apart from the title.
pub open spec fn default_look(c: SelectorConfig) -> bool {
    &&& opt_is(c.footer, "↑↓ navigate, Enter select, Esc close"@)
    &&& c.max_width == Some(MAX_UI_WIDTH)
    &&& c.max_height == Some(20u16)
    &&& c.padding == 0
    &&& c.show_scrollbar
    &&& !c.alternating_rows
    &&& c.borders == BORDERS_ALL
    &&& c.border_color == Color::Blue
    &&& c.selected_style == fg_style(Color::Blue)
    &&& c.header_style == fg_style(Color::Gray)
    &&& c.row_style == fg_style(Color::White)
    &&& c.alt_row_style == Some(Style { fg: None, bg: Some(Color::DarkGray), reversed: false })
}

fn owned(s: &str) -> (r: String)
    ensures
        r@ == s@,
{
    string_from_chars(chars_of(s).as_slice())
}

impl SelectorConfig {
    /// The default appearance with the given title.
    pub fn titled(title: &str) -> (r: Self)
        ensures
            default_look(r),
            opt_is(r.title, title@),
    {
        SelectorConfig {
            title: Some(owned(title)),
            footer: Some(owned("↑↓ navigate, Enter select, Esc close")),
            max_width: Some(MAX_UI_WIDTH),
            max_height: Some(20),
            padding: 0,
            show_scrollbar: true,
            alternating_rows: false,
            borders: BORDERS_ALL,
            border_color: Color::Blue,
            selected_style: Style { fg: Some(Color::Blue), bg: None, reversed: false },
            header_style: Style { fg: Some(Color::Gray), bg: None, reversed: false },
            row_style: Style { fg: Some(Color::White), bg: None, reversed: false },
            alt_row_style: Some(Style { fg: None, bg: Some(Color::DarkGray), reversed: false }),
        }
    }
}

impl Default for SelectorConfig {
    fn default() -> (r: Self)
        ensures
            default_look(r),
            opt_is(r.title, "Select"@),
    {
        SelectorConfig::titled("Select")
    }
}

/// What a selector shows of an item.
pub trait SelectableData: Clone {
    /// The item's cells, one per table column.
    fn to_cells(&self) -> Vec<StyledLine>;

    /// The item as plain text.
    fn to_string(&self) -> String;

    /// The item as styled spans, when it has its own styling.
    fn to_spans(&self) -> Option<Vec<StyledSpan>> {
        None
    }
}

/// List or table display.
#[derive(Debug, Clone, PartialEq)]
pub enum SelectorMode {
    List,
    Table { columns: Vec<TableColumn> },
}

/// An event for a selector.
#[derive(Debug, Clone, PartialEq)]
pub enum ModalSelectorEvent<T> {
    Show,
    Hide,
    KeyInput(KeyPress),
    SetItems(Vec<T>),
    SetLoading(bool),
    SetError(Option<String>),
}

/// What a selector reports back.
#[derive(Debug, Clone, PartialEq)]
pub enum ModalSelectorUpdate<T> {
    Hide,
    ItemSelected(T),
    /// Nothing to report.
    NoChange,
}

/// Selection and scroll offset of a list or table.
#[derive(Debug, Clone, Copy, PartialEq, Eq, Structural)]
pub struct TableState {
    pub offset: usize,
    pub selected: Option<usize>,
    pub selected_column: Option<usize>,
}

impl TableState {
    /// Nothing selected, no offset.
    pub fn new_default() -> (r: Self)
        ensures
            r == (TableState { offset: 0, selected: None, selected_column: None }),
    {
        TableState { offset: 0, selected: None, selected_column: None }
    }

    /// Selects a row, or none (which also resets the offset).
    pub fn select(&mut self, index: Option<usize>)
        ensures
            final(self).selected == index,
            final(self).selected_column == old(self).selected_column,
            final(self).offset == (if index is None {
                0
            } else {
                old(self).offset
            }),
    {
        self.selected = index;
        if index.is_none() {
            self.offset = 0;
        }
    }

    /// The selected row.
    pub fn selected(&self) -> (r: Option<usize>)
        ensures
            r == self.selected,
    {
        self.selected
    }
}

/// A rectangle of the terminal.
#[derive(Debug, Clone, Copy, PartialEq, Eq, Structural)]
pub struct Rect {
    pub x: u16,
    pub y: u16,
    pub width: u16,
    pub height: u16,
}

/// `a - b`, or zero.
pub open spec fn sub0(a: int, b: int) -> int {
    if a > b {
        a - b
    } else {
        0
    }
}

/// `a + b`, or `u16::MAX`.
pub open spec fn add_sat16(a: int, b: int) -> int {
    if a + b <= u16::MAX {
        a + b
    } else {
        u16::MAX as int
    }
}

/// The smaller of two numbers.
pub open spec fn min_int(a: int, b: int) -> int {
    if a <= b {
        a
    } else {
        b
    }
}

/// A selector over items of type `T`.
#[derive(Debug, Clone)]
pub struct ModalSelector<T> {
    pub config: SelectorConfig,
    pub mode: SelectorMode,
    pub items: Vec<T>,
    pub state: TableState,
    pub scroll_state: ScrollbarState,
    pub is_visible: bool,
    pub loading: bool,
    pub error: Option<String>,
}

/// Whether a key drives a selector.
pub open spec fn selector_key(code: KeyCode) -> bool {
    code == KeyCode::Esc || code == KeyCode::Up || code == KeyCode::Down || code == KeyCode::Tab
        || code == KeyCode::Enter
}

/// The selection after moving up: wraps from the first item to the last.
pub open spec fn up_index(selected: Option<usize>, n: nat) -> Option<usize> {
    if n == 0 {
        selected
    } else {
        let current = match selected {
            Some(i) => i as int,
            None => 0,
        };
        Some((if current == 0 {
            n - 1
        } else {
            current - 1
        }) as usize)
    }
}

/// The selection after moving down: wraps from the last item (or beyond)
/// to the first.
pub open spec fn down_index(selected: Option<usize>, n: nat) -> Option<usize> {
    if n == 0 {
        selected
    } else {
        let current = match selected {
            Some(i) => i as int,
            None => 0,
        };
        Some((if current >= n - 1 {
            0
        } else {
            current + 1
        }) as usize)
    }
}

/// The selector with the selection moved to `selected` (offset kept).
pub open spec fn moved<T>(m: ModalSelector<T>, selected: Option<usize>) -> ModalSelector<T> {
    ModalSelector { state: TableState { selected, ..m.state }, ..m }
}

/// The selector after `set_items`: the first item selected (none, with the
/// offset reset, when there are none), the scrollbar spanning the items,
/// loading and error cleared.
pub open spec fn with_items<T>(m: ModalSelector<T>, items: Vec<T>) -> ModalSelector<T> {
    ModalSelector {
        items,
        scroll_state: ScrollbarState {
            content_length: items@.len() as usize,
            position: 0,
            viewport_content_length: 0,
        },
        state: if items@.len() == 0 {
            TableState { selected: None, offset: 0, ..m.state }
        } else {
            TableState { selected: Some(0usize), ..m.state }
        },
        loading: false,
        error: None,
        ..m
    }
}

/// The selector after a key: Up and BackTab move up, Down and Tab move
/// down, other keys change nothing.
pub open spec fn after_key<T>(m: ModalSelector<T>, code: KeyCode) -> ModalSelector<T> {
    if code == KeyCode::BackTab || code == KeyCode::Up {
        moved(m, up_index(m.state.selected, m.items@.len()))
    } else if code == KeyCode::Tab || code == KeyCode::Down {
        moved(m, down_index(m.state.selected, m.items@.len()))
    } else {
        m
    }
}

/// What a key reports: Esc asks to close, Enter chooses (a clone of) the
/// selected item when the selection is within the items, others nothing.
pub open spec fn key_reply<T: Clone>(m: ModalSelector<T>, code: KeyCode, r: ModalSelectorUpdate<T>) -> bool {
    if code == KeyCode::Esc {
        r is Hide
    } else if code == KeyCode::Enter {
        match m.state.selected {
            Some(i) => if i < m.items@.len() {
                r matches ModalSelectorUpdate::ItemSelected(x) && cloned::<T>(m.items@[i as int], x)
            } else {
                r is NoChange
            },
            None => r is NoChange,
        }
    } else {
        r is NoChange
    }
}

/// The selector after an event.
pub open spec fn after_event<T>(m: ModalSelector<T>, e: ModalSelectorEvent<T>) -> ModalSelector<T> {
    match e {
        ModalSelectorEvent::Show => ModalSelector { is_visible: true, ..m },
        ModalSelectorEvent::Hide => ModalSelector { is_visible: false, ..m },
        ModalSelectorEvent::KeyInput(k) => after_key(m, k.code),
        ModalSelectorEvent::SetItems(items) => with_items(m, items),
        ModalSelectorEvent::SetLoading(loading) => ModalSelector {
            loading,
            error: if loading {
                None
            } else {
                m.error
            },
            ..m
        },
        ModalSelectorEvent::SetError(error) => ModalSelector { error, loading: false, ..m },
    }
}

impl<T: SelectableData> ModalSelector<T> {
    /// A hidden, empty selector with the first row selected.
    pub fn new(config: SelectorConfig, mode: SelectorMode) -> (r: Self)
        ensures
            r.config == config,
            r.mode == mode,
            r.items@.len() == 0,
            r.state == (TableState { offset: 0, selected: Some(0), selected_column: None }),
            r.scroll_state == (ScrollbarState {
                content_length: 0,
                position: 0,
                viewport_content_length: 0,
            }),
            !r.is_visible,
            !r.loading,
            r.error is None,
    {
        let mut state = TableState::new_default();
        state.select(Some(0));
        ModalSelector {
            config,
            mode,
            items: Vec::new(),
            state,
            scroll_state: ScrollbarState::new_default(),
            is_visible: false,
            loading: false,
            error: None,
        }
    }

    /// A list selector with the default appearance and the given title.
    pub fn list(title: &str) -> (r: Self)
        ensures
            default_look(r.config),
            opt_is(r.config.title, title@),
            r.mode == SelectorMode::List,
            r.items@.len() == 0,
            r.state.selected == Some(0usize),
            !r.is_visible,
            !r.loading,
            r.error is None,
    {
        Self::new(SelectorConfig::titled(title), SelectorMode::List)
    }

    /// A table selector with the default appearance, the given title and
    /// columns.
    pub fn table(title: &str, columns: Vec<TableColumn>) -> (r: Self)
        ensures
            default_look(r.config),
            opt_is(r.config.title, title@),
            r.mode == (SelectorMode::Table { columns }),
            r.items@.len() == 0,
            r.state.selected == Some(0usize),
            !r.is_visible,
            !r.loading,
            r.error is None,
    {
        Self::new(SelectorConfig::titled(title), SelectorMode::Table { columns })
    }

    /// Shows the selector.
    pub fn show(&mut self)
        ensures
            *final(self) == (ModalSelector { is_visible: true, ..*old(self) }),
    {
        self.is_visible = true;
    }

    /// Hides the selector.
    pub fn hide_selector(&mut self)
        ensures
            *final(self) == (ModalSelector { is_visible: false, ..*old(self) }),
    {
        self.is_visible = false;
    }

    /// Whether the selector is shown.
    pub fn is_visible(&self) -> (b: bool)
        ensures
            b == self.is_visible,
    {
        self.is_visible
    }

    /// Marks the selector as loading (which clears an error) or not.
    pub fn set_loading(&mut self, loading: bool)
        ensures
            *final(self) == (ModalSelector {
                loading,
                error: if loading {
                    None
                } else {
                    old(self).error
                },
                ..*old(self)
            }),
    {
        self.loading = loading;
        if loading {
            self.error = None;
        }
    }

    /// Sets or clears the error, which ends loading.
    pub fn set_error(&mut self, error: Option<String>)
        ensures
            *final(self) == (ModalSelector { error, loading: false, ..*old(self) }),
    {
        self.error = error;
        self.loading = false;
    }

    /// Replaces the items: the first is selected (none when there are none),
    /// the scrollbar spans them, and loading and error are cleared.
    pub fn set_items(&mut self, items: Vec<T>)
        ensures
            *final(self) == with_items(*old(self), items),
    {
        let n = items.len();
        self.items = items;
        self.scroll_state = ScrollbarState { content_length: n, position: 0, viewport_content_length: 0 };
        self.state.select(if n == 0 {
            None
        } else {
            Some(0)
        });
        self.loading = false;
        self.error = None;
    }

    /// Moves the selection up, wrapping to the last item.
    pub fn navigate_up(&mut self)
        ensures
            *final(self) == moved(*old(self), up_index(old(self).state.selected, old(self).items@.len())),
    {
        if self.items.len() == 0 {
            return;
        }
        let current = match self.state.selected() {
            Some(i) => i,
            None => 0,
        };
        let new_index = if current == 0 {
            self.items.len() - 1
        } else {
            current - 1
        };
        self.state.select(Some(new_index));
    }

    /// Moves the selection down, wrapping to the first item.
    pub fn navigate_down(&mut self)
        ensures
            *final(self) == moved(
                *old(self),
                down_index(old(self).state.selected, old(self).items@.len()),
            ),
    {
        if self.items.len() == 0 {
            return;
        }
        let current = match self.state.selected() {
            Some(i) => i,
            None => 0,
        };
        let new_index = if current >= self.items.len() - 1 {
            0
        } else {
            current + 1
        };
        self.state.select(Some(new_index));
    }

    /// The selected row.
    pub fn selected_index(&self) -> (r: Option<usize>)
        ensures
            r == self.state.selected,
    {
        self.state.selected()
    }

    /// The selected item, when the selection is within the items.
    pub fn selected_item(&self) -> (r: Option<&T>)
        ensures
            match self.state.selected {
                Some(i) => if i < self.items@.len() {
                    r == Some(&self.items@[i as int])
                } else {
                    r is None
                },
                None => r is None,
            },
    {
        match self.state.selected() {
            Some(i) => if i < self.items.len() {
                Some(&self.items[i])
            } else {
                None
            },
            None => None,
        }
    }

    /// The items.
    pub fn items(&self) -> (r: &[T])
        ensures
            r@ == self.items@,
    {
        self.items.as_slice()
    }

    /// Whether a key drives a selector: Esc, Up, Down, Tab and Enter.
    pub fn is_modal_selector_input(key_code: KeyCode) -> (b: bool)
        ensures
            b == selector_key(key_code),
    {
        match key_code {
            KeyCode::Esc | KeyCode::Up | KeyCode::Down | KeyCode::Tab | KeyCode::Enter => true,
            _ => false,
        }
    }

    fn handle_key_input(&mut self, key: KeyPress) -> (r: ModalSelectorUpdate<T>)
        ensures
            *final(self) == after_key(*old(self), key.code),
            key_reply(*old(self), key.code, r),
    {
        match key.code {
            KeyCode::Esc => ModalSelectorUpdate::Hide,
            KeyCode::BackTab | KeyCode::Up => {
                self.navigate_up();
                ModalSelectorUpdate::NoChange
            },
            KeyCode::Tab | KeyCode::Down => {
                self.navigate_down();
                ModalSelectorUpdate::NoChange
            },
            KeyCode::Enter => {
                match self.selected_item() {
                    Some(item) => ModalSelectorUpdate::ItemSelected(item.clone()),
                    None => ModalSelectorUpdate::NoChange,
                }
            },
            _ => ModalSelectorUpdate::NoChange,
        }
    }

    /// Applies an event; key presses may report a choice or a request to
    /// close, other events report nothing.
    pub fn handle_event(&mut self, event: ModalSelectorEvent<T>) -> (r: ModalSelectorUpdate<T>)
        ensures
            *final(self) == after_event(*old(self), event),
            match event {
                ModalSelectorEvent::KeyInput(key) => key_reply(*old(self), key.code, r),
                _ => r is NoChange,
            },
    {
        match event {
            ModalSelectorEvent::Show => {
                self.show();
            },
            ModalSelectorEvent::Hide => {
                self.hide_selector();
            },
            ModalSelectorEvent::SetItems(items) => {
                self.set_items(items);
            },
            ModalSelectorEvent::SetLoading(loading) => {
                self.set_loading(loading);
            },
            ModalSelectorEvent::SetError(error) => {
                self.set_error(error);
            },
            ModalSelectorEvent::KeyInput(key) => {
                return self.handle_key_input(key);
            },
        }
        ModalSelectorUpdate::NoChange
    }

    /// The style of row `i` of a table: the selected style for the selected
    /// row, the alternate style (if any) for odd rows when rows alternate,
    /// else the row style.
    pub fn row_style(&self, i: usize) -> (s: Style)
        ensures
            s == (if self.state.selected == Some(i) {
                self.config.selected_style
            } else if self.config.alternating_rows && i % 2 == 1 {
                match self.config.alt_row_style {
                    Some(a) => a,
                    None => self.config.row_style,
                }
            } else {
                self.config.row_style
            }),
    {
        if self.state.selected == Some(i) {
            self.config.selected_style
        } else if self.config.alternating_rows && i % 2 == 1 {
            match self.config.alt_row_style {
                Some(a) => a,
                None => self.config.row_style,
            }
        } else {
            self.config.row_style
        }
    }

    /// Whether the table needs a scrollbar in a pop-up of the given height:
    /// when enabled and the items do not fit between borders and padding.
    pub fn needs_scrollbar(&self, area_height: u16) -> (b: bool)
        requires
            self.config.padding * 2 <= u16::MAX,
        ensures
            b == (self.config.show_scrollbar && self.items@.len() > sub0(
                sub0(area_height as int, 2),
                self.config.padding * 2,
            )),
    {
        let inner = area_height.saturating_sub(2).saturating_sub(self.config.padding * 2);
        self.config.show_scrollbar && self.items.len() > inner as usize
    }

    /// The pop-up's area, centred in `area`: as wide as the widest allowed,
    /// as tall as the items with borders and padding (item count taken as a
    /// `u16`), within the allowed height.
    pub fn calculate_popup_area(&self, area: Rect) -> (r: Rect)
        requires
            self.config.padding * 2 <= u16::MAX,
            area.x + area.width <= u16::MAX,
            area.y + area.height <= u16::MAX,
        ensures
            r.width == min_int(
                match self.config.max_width {
                    Some(w) => w as int,
                    None => area.width as int,
                },
                area.width as int,
            ),
            r.height == min_int(
                add_sat16(add_sat16((self.items@.len() as u16) as int, 2), self.config.padding * 2),
                match self.config.max_height {
                    Some(h) => h as int,
                    None => area.height as int,
                },
            ),
            r.x == area.x + sub0(area.width as int, r.width as int) / 2,
            r.y == area.y + sub0(area.height as int, r.height as int) / 2,
    {
        let mw = match self.config.max_width {
            Some(w) => w,
            None => area.width,
        };
        let popup_width: u16 = if mw <= area.width {
            mw
        } else {
            area.width
        };
        let n: u16 = #[verifier::truncate] (self.items.len() as u16);
        let h0: u16 = n.saturating_add(2).saturating_add(self.config.padding * 2);
        let mh = match self.config.max_height {
            Some(h) => h,
            None => area.height,
        };
        let popup_height: u16 = if h0 <= mh {
            h0
        } else {
            mh
        };
        let popup_x: u16 = area.width.saturating_sub(popup_width) / 2;
        let popup_y: u16 = area.height.saturating_sub(popup_height) / 2;
        Rect { x: area.x + popup_x, y: area.y + popup_y, width: popup_width, height: popup_height }
    }
}


/// With items present, moving the selection up or down always selects an
/// item, and moving down undoes moving up (and the reverse), the selection
/// wrapping around at either end.
pub proof fn law_navigation_wraps_and_undoes(i: usize, n: nat)
    requires
        i < n,
        n <= usize::MAX,
    ensures
        up_index(Some(i), n) matches Some(j) && j < n,
        down_index(Some(i), n) matches Some(j) && j < n,
        up_index(down_index(Some(i), n), n) == Some(i),
        down_index(up_index(Some(i), n), n) == Some(i),
{
}

/// With no items, moving the selection changes nothing.
pub proof fn law_navigation_without_items(selected: Option<usize>)
    ensures
        up_index(selected, 0) == selected,
        down_index(selected, 0) == selected,
{
}

/// Keys move the selection of a selector with items, from the selected
/// item (the first when none is selected): Down and Tab to the next item,
/// from the last back to the first; Up and BackTab to the previous item,
/// from the first to the last. Nothing else changes. Without items, and for
/// other keys, the selector stays as it was.
pub proof fn law_keys_move_selection<T>(m: ModalSelector<T>, code: KeyCode)
    ensures
        ({
            let n = m.items@.len() as int;
            let cur: int = match m.state.selected {
                Some(i) => i as int,
                None => 0,
            };
            let down = code == KeyCode::Down || code == KeyCode::Tab;
            let up = code == KeyCode::Up || code == KeyCode::BackTab;
            &&& (n == 0 || !(down || up)) ==> after_key(m, code) == m
            &&& n > 0 && down ==> after_key(m, code) == (ModalSelector {
                state: TableState {
                    selected: Some((if cur + 1 < n { cur + 1 } else { 0 }) as usize),
                    ..m.state
                },
                ..m
            })
            &&& n > 0 && up ==> after_key(m, code) == (ModalSelector {
                state: TableState {
                    selected: Some((if cur > 0 { cur - 1 } else { n - 1 }) as usize),
                    ..m.state
                },
                ..m
            })
        }),
{
}

} // verus!
