//! State of a popover list selector: selection, scrolling, visibility,
//! loading and error display.

use vstd::prelude::*;

verus! {

/// A popover list selector.
#[derive(Debug, Clone, PartialEq)]
pub struct PopoverSelector {
    title: String,
    items: Vec<String>,
    selected_index: usize,
    scroll_offset: usize,
    last_render_height: Option<usize>,
    current_session_index: Option<usize>,
    is_visible: bool,
    loading: bool,
    error: Option<String>,
    max_height: Option<u16>,
    max_width: Option<u16>,
}

/// Events the selector handles.
#[derive(Debug, Clone, PartialEq)]
pub enum PopoverSelectorEvent {
    Up,
    Down,
    Select,
    Cancel,
    SetItems(Vec<String>),
    SetLoading(bool),
    SetError(Option<String>),
    Show,
    Hide,
}

/// Abstract state of a selector.
pub struct PopoverView {
    pub title: Seq<char>,
    pub items: Seq<Seq<char>>,
    pub selected_index: nat,
    pub scroll_offset: nat,
    pub last_render_height: Option<nat>,
    pub current_session_index: Option<nat>,
    pub is_visible: bool,
    pub loading: bool,
    pub error: Option<Seq<char>>,
    pub max_height: Option<u16>,
    pub max_width: Option<u16>,
}

/// Lines the list shows at once: the cached height, 3 before any render.
pub open spec fn visible_height(v: PopoverView) -> nat {
    match v.last_render_height {
        Some(h) => h,
        None => 3,
    }
}

/// Selection index after moving up, wrapping to the last item.
pub open spec fn index_up(sel: nat, len: nat) -> nat {
    if sel == 0 {
        (len - 1) as nat
    } else {
        (sel - 1) as nat
    }
}

/// Selection index after moving down, wrapping to the first item.
pub open spec fn index_down(sel: nat, len: nat) -> nat {
    ((sel + 1) % len) as nat
}

/// Scroll offset that keeps `sel` inside a window of `vh` lines over `len` items.
pub open spec fn scrolled(off: nat, sel: nat, vh: nat, len: nat) -> nat {
    if len == 0 || vh == 0 {
        off
    } else {
        let o1 = if sel < off {
            sel
        } else if sel >= off + vh {
            (sel - (vh - 1)) as nat
        } else {
            off
        };
        let max_scroll = if len >= vh {
            (len - vh) as nat
        } else {
            0
        };
        if o1 < max_scroll {
            o1
        } else {
            max_scroll
        }
    }
}

impl PopoverSelector {
    /// The selector's abstract state.
    pub closed spec fn view_state(&self) -> PopoverView {
        PopoverView {
            title: self.title@,
            items: self.items@.map_values(|s: String| s@),
            selected_index: self.selected_index as nat,
            scroll_offset: self.scroll_offset as nat,
            last_render_height: match self.last_render_height {
                Some(h) => Some(h as nat),
                None => None,
            },
            current_session_index: match self.current_session_index {
                Some(h) => Some(h as nat),
                None => None,
            },
            is_visible: self.is_visible,
            loading: self.loading,
            error: match self.error {
                Some(e) => Some(e@),
                None => None,
            },
            max_height: self.max_height,
            max_width: self.max_width,
        }
    }

    /// The selection points at an item (or is 0 when there are none) and the
    /// scroll offset does not pass the last item.
    pub closed spec fn wf(&self) -> bool {
        &&& (self.items@.len() == 0 ==> self.selected_index == 0)
        &&& (self.items@.len() > 0 ==> self.selected_index < self.items@.len())
        &&& self.scroll_offset <= self.items@.len()
    }

    /// A hidden, empty selector with the given title.
    pub fn new(title: &str) -> (s: Self)
        ensures
            s.wf(),
            s.view_state().title == title@,
            s.view_state().items.len() == 0,
            s.view_state().selected_index == 0,
            s.view_state().scroll_offset == 0,
            s.view_state().last_render_height is None,
            s.view_state().current_session_index is None,
            !s.view_state().is_visible,
            !s.view_state().loading,
            s.view_state().error is None,
            s.view_state().max_height is None,
            s.view_state().max_width is None,
    {
        Self::with_items(title, Vec::new())
    }

    /// A hidden selector with the given title and items.
    pub fn with_items(title: &str, items: Vec<String>) -> (s: Self)
        ensures
            s.wf(),
            s.view_state().title == title@,
            s.view_state().items == items@.map_values(|x: String| x@),
            s.view_state().selected_index == 0,
            s.view_state().scroll_offset == 0,
            s.view_state().last_render_height is None,
            s.view_state().current_session_index is None,
            !s.view_state().is_visible,
            !s.view_state().loading,
            s.view_state().error is None,
            s.view_state().max_height is None,
            s.view_state().max_width is None,
    {
        PopoverSelector {
            title: title.to_string(),
            items,
            selected_index: 0,
            scroll_offset: 0,
            last_render_height: None,
            current_session_index: None,
            is_visible: false,
            loading: false,
            error: None,
            max_height: None,
            max_width: None,
        }
    }

    /// Applies an event; `Select` on a visible selector with items returns the
    /// selected index.
    pub fn handle_event(&mut self, event: PopoverSelectorEvent) -> (r: Option<usize>)
        requires
            old(self).wf(),
        ensures
            final(self).wf(),
            ({
                let o = old(self).view_state();
                let n = final(self).view_state();
                let len = o.items.len();
                match event {
                    PopoverSelectorEvent::Up => r is None && if len > 0 {
                        n == PopoverView {
                            selected_index: index_up(o.selected_index, len),
                            scroll_offset: scrolled(
                                o.scroll_offset,
                                index_up(o.selected_index, len),
                                visible_height(o),
                                len,
                            ),
                            ..o
                        }
                    } else {
                        n == o
                    },
                    PopoverSelectorEvent::Down => r is None && if len > 0 {
                        n == PopoverView {
                            selected_index: index_down(o.selected_index, len),
                            scroll_offset: scrolled(
                                o.scroll_offset,
                                index_down(o.selected_index, len),
                                visible_height(o),
                                len,
                            ),
                            ..o
                        }
                    } else {
                        n == o
                    },
                    PopoverSelectorEvent::Select => n == o && r == if len > 0 && o.is_visible {
                        Some(o.selected_index as usize)
                    } else {
                        None
                    },
                    PopoverSelectorEvent::Cancel => r is None && n == PopoverView {
                        is_visible: false,
                        ..o
                    },
                    PopoverSelectorEvent::Hide => r is None && n == PopoverView {
                        is_visible: false,
                        ..o
                    },
                    PopoverSelectorEvent::Show => r is None && n == PopoverView {
                        is_visible: true,
                        ..o
                    },
                    PopoverSelectorEvent::SetItems(items) => r is None && n == PopoverView {
                        items: items@.map_values(|x: String| x@),
                        selected_index: 0,
                        scroll_offset: 0,
                        current_session_index: None,
                        loading: false,
                        error: None,
                        ..o
                    },
                    PopoverSelectorEvent::SetLoading(l) => r is None && n == PopoverView {
                        loading: l,
                        error: if l {
                            None
                        } else {
                            o.error
                        },
                        ..o
                    },
                    PopoverSelectorEvent::SetError(e) => r is None && n == PopoverView {
                        error: match e {
                            Some(x) => Some(x@),
                            None => None,
                        },
                        loading: false,
                        ..o
                    },
                }
            }),
    {
        match event {
            PopoverSelectorEvent::Up => {
                if self.items.len() > 0 {
                    self.selected_index = if self.selected_index == 0 {
                        self.items.len() - 1
                    } else {
                        self.selected_index - 1
                    };
                    self.update_scroll_position();
                }
                None
            },
            PopoverSelectorEvent::Down => {
                if self.items.len() > 0 {
                    self.selected_index = (self.selected_index + 1) % self.items.len();
                    self.update_scroll_position();
                }
                None
            },
            PopoverSelectorEvent::Select => {
                if self.items.len() > 0 && self.is_visible {
                    Some(self.selected_index)
                } else {
                    None
                }
            },
            PopoverSelectorEvent::Cancel => {
                self.is_visible = false;
                None
            },
            PopoverSelectorEvent::SetItems(items) => {
                self.items = items;
                self.selected_index = 0;
                self.scroll_offset = 0;
                self.current_session_index = None;
                self.loading = false;
                self.error = None;
                None
            },
            PopoverSelectorEvent::SetLoading(loading) => {
                self.loading = loading;
                if loading {
                    self.error = None;
                }
                None
            },
            PopoverSelectorEvent::SetError(error) => {
                self.error = error;
                self.loading = false;
                None
            },
            PopoverSelectorEvent::Show => {
                self.is_visible = true;
                None
            },
            PopoverSelectorEvent::Hide => {
                self.is_visible = false;
                None
            },
        }
    }

    /// Whether the selector is shown.
    pub fn is_visible(&self) -> (b: bool)
        ensures
            b == self.view_state().is_visible,
    {
        self.is_visible
    }

    /// Index of the highlighted item.
    pub fn selected_index(&self) -> (i: usize)
        ensures
            i == self.view_state().selected_index,
    {
        self.selected_index
    }

    /// The items.
    pub fn items(&self) -> (s: &[String])
        ensures
            s@.map_values(|x: String| x@) == self.view_state().items,
    {
        self.items.as_slice()
    }

    /// Whether the items are being loaded.
    pub fn is_loading(&self) -> (b: bool)
        ensures
            b == self.view_state().loading,
    {
        self.loading
    }

    /// The error shown, if any.
    pub fn error(&self) -> (e: Option<&String>)
        ensures
            match e {
                Some(x) => self.view_state().error == Some(x@),
                None => self.view_state().error is None,
            },
    {
        self.error.as_ref()
    }

    /// Index of the first visible item.
    pub fn scroll_offset(&self) -> (o: usize)
        ensures
            o == self.view_state().scroll_offset,
    {
        self.scroll_offset
    }

    /// Caches the number of list lines a popup would show on a terminal of
    /// height `terminal_height`: the popup is the maximum height, or the item
    /// count plus 4, capped at the terminal height, less 2 border lines.
    pub fn cache_render_height_for_terminal(&mut self, terminal_height: u16)
        requires
            old(self).view_state().max_height is None ==> (old(self).view_state().items.len() % 65536)
                + 4 <= u16::MAX,
        ensures
            ({
                let o = old(self).view_state();
                let popup: int = match o.max_height {
                    Some(h) => h as int,
                    None => (o.items.len() % 65536) as int + 4,
                };
                let capped = if popup < terminal_height as int {
                    popup
                } else {
                    terminal_height as int
                };
                final(self).view_state() == PopoverView {
                    last_render_height: Some(
                        if capped >= 2 {
                            (capped - 2) as nat
                        } else {
                            0
                        },
                    ),
                    ..o
                }
            }),
            old(self).wf() ==> final(self).wf(),
    {
        let len16: u16 = (self.items.len() % 65536) as u16;
        let popup_height: u16 = match self.max_height {
            Some(h) => h,
            None => len16 + 4,
        };
        let capped = if popup_height < terminal_height {
            popup_height
        } else {
            terminal_height
        };
        let content_height: u16 = if capped >= 2 {
            capped - 2
        } else {
            0
        };
        self.last_render_height = Some(content_height as usize);
    }

    /// Records which item is the current session.
    pub fn set_current_session_index(&mut self, index: Option<usize>)
        ensures
            final(self).view_state() == (PopoverView {
                current_session_index: match index {
                    Some(i) => Some(i as nat),
                    None => None,
                },
                ..old(self).view_state()
            }),
            old(self).wf() ==> final(self).wf(),
    {
        self.current_session_index = index;
    }

    /// Index of the current session's item.
    pub fn current_session_index(&self) -> (i: Option<usize>)
        ensures
            match i {
                Some(x) => self.view_state().current_session_index == Some(x as nat),
                None => self.view_state().current_session_index is None,
            },
    {
        self.current_session_index
    }

    /// Sets the popup's maximum size.
    pub fn set_max_dimensions(&mut self, max_width: Option<u16>, max_height: Option<u16>)
        ensures
            final(self).view_state() == (PopoverView {
                max_width: max_width,
                max_height: max_height,
                ..old(self).view_state()
            }),
            old(self).wf() ==> final(self).wf(),
    {
        self.max_width = max_width;
        self.max_height = max_height;
    }

    /// Moves the scroll window so that the selected item is visible.
    pub fn update_scroll_position(&mut self)
        requires
            old(self).wf(),
        ensures
            final(self).wf(),
            final(self).view_state() == (PopoverView {
                scroll_offset: scrolled(
                    old(self).view_state().scroll_offset,
                    old(self).view_state().selected_index,
                    visible_height(old(self).view_state()),
                    old(self).view_state().items.len(),
                ),
                ..old(self).view_state()
            }),
    {
        let visible_height: usize = match self.last_render_height {
            Some(h) => h,
            None => 3,
        };
        let len = self.items.len();
        if len == 0 || visible_height == 0 {
            return;
        }
        let sel = self.selected_index;
        let off = self.scroll_offset;
        let o1 = if sel < off {
            sel
        } else if sel - off >= visible_height {
            sel - (visible_height - 1)
        } else {
            off
        };
        let max_scroll = if len >= visible_height {
            len - visible_height
        } else {
            0
        };
        self.scroll_offset = if o1 < max_scroll {
            o1
        } else {
            max_scroll
        };
    }
}

/// After scrolling, the selected item lies inside the visible window.
pub proof fn law_selection_visible_after_scroll(off: nat, sel: nat, vh: nat, len: nat)
    requires
        vh > 0,
        sel < len,
    ensures
        scrolled(off, sel, vh, len) <= sel < scrolled(off, sel, vh, len) + vh,
{
}

/// Moving down then up returns to the same item.
pub proof fn law_down_then_up(sel: nat, len: nat)
    requires
        sel < len,
    ensures
        index_up(index_down(sel, len), len) == sel,
{
    if sel + 1 < len {
        assert((sel + 1) % len == sel + 1) by (nonlinear_arith)
            requires
                sel + 1 < len,
        ;
    } else {
        assert((sel + 1) % len == 0) by (nonlinear_arith)
            requires
                sel + 1 == len,
        ;
    }
}

/// Moving up then down returns to the same item.
pub proof fn law_up_then_down(sel: nat, len: nat)
    requires
        sel < len,
    ensures
        index_down(index_up(sel, len), len) == sel,
{
    if sel == 0 {
        assert(len % len == 0) by (nonlinear_arith)
            requires
                len > 0,
        ;
    } else {
        assert(sel % len == sel) by (nonlinear_arith)
            requires
                sel < len,
        ;
    }
}

/// The default selector: hidden and empty, titled "Select".
impl Default for PopoverSelector {
    fn default() -> (s: Self)
        ensures
            s.wf(),
            s.view_state().title == "Select"@,
            s.view_state().items.len() == 0,
            s.view_state().selected_index == 0,
            s.view_state().scroll_offset == 0,
            s.view_state().last_render_height is None,
            s.view_state().current_session_index is None,
            !s.view_state().is_visible,
            !s.view_state().loading,
            s.view_state().error is None,
            s.view_state().max_height is None,
            s.view_state().max_width is None,
    {
        Self::new("Select")
    }
}

/// A well-formed selector's selection points below its item count (it is 0
/// with no items), and its scroll offset does not pass the item count.
pub proof fn law_selection_below_count(p: PopoverSelector)
    requires
        p.wf(),
    ensures
        p.view_state().items.len() > 0 ==> p.view_state().selected_index < p.view_state().items.len(),
        p.view_state().items.len() == 0 ==> p.view_state().selected_index == 0,
        p.view_state().scroll_offset <= p.view_state().items.len(),
{
}

/// Moving the selection up or down over `len > 0` items keeps it below
/// `len`; the scroll offset that follows keeps the selection inside the
/// window of `vh` lines and does not pass the last full window.
pub proof fn law_navigation_stays_in_window(sel: nat, off: nat, vh: nat, len: nat)
    requires
        sel < len,
        vh > 0,
    ensures
        ({
            let d = index_down(sel, len);
            let u = index_up(sel, len);
            let max_scroll: nat = if len >= vh { (len - vh) as nat } else { 0 };
            &&& d < len
            &&& u < len
            &&& scrolled(off, d, vh, len) <= d < scrolled(off, d, vh, len) + vh
            &&& scrolled(off, u, vh, len) <= u < scrolled(off, u, vh, len) + vh
            &&& scrolled(off, d, vh, len) <= max_scroll
            &&& scrolled(off, u, vh, len) <= max_scroll
        }),
{
    assert((sel + 1) % len < len) by (nonlinear_arith)
        requires
            len > 0,
    ;
    law_selection_visible_after_scroll(off, index_down(sel, len), vh, len);
    law_selection_visible_after_scroll(off, index_up(sel, len), vh, len);
}

} // verus!
