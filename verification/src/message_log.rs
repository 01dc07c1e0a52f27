//! The full-screen message log: the rendered conversation and its scroll
//! positions, kept within the content's size.

use vstd::prelude::*;
use crate::message_state::{ContainerView, MessageContainer, views};
use crate::models::{Message, Part};
use crate::renderer::{
    Color, MessageContext, StyledLine, StyledSpan, concat_lines, lemma_concat_push, lines_view,
    render_spec, MessageRenderer,
};
use crate::text::{byte_len, byte_len_exec, chars_of, lines, lines_of, push_all, string_from_chars};

verus! {

/// Scroll position and content length of a scrollbar.
#[derive(Debug, Clone, Copy, PartialEq, Eq, Structural)]
pub struct ScrollbarState {
    pub content_length: usize,
    pub position: usize,
    pub viewport_content_length: usize,
}

impl ScrollbarState {
    /// A state with everything at zero.
    pub fn new_default() -> (r: Self)
        ensures
            r.content_length == 0,
            r.position == 0,
            r.viewport_content_length == 0,
    {
        ScrollbarState { content_length: 0, position: 0, viewport_content_length: 0 }
    }

    /// The same state with another content length.
    pub fn content_length(self, content_length: usize) -> (r: Self)
        ensures
            r == (ScrollbarState { content_length, ..self }),
    {
        ScrollbarState { content_length, ..self }
    }

    /// The same state with another position.
    pub fn position(self, position: usize) -> (r: Self)
        ensures
            r == (ScrollbarState { position, ..self }),
    {
        ScrollbarState { position, ..self }
    }
}

/// A scrollbar state with the given content length and position.
pub open spec fn scrolled(s: ScrollbarState, content_length: nat, position: nat) -> ScrollbarState {
    ScrollbarState { content_length: content_length as usize, position: position as usize, ..s }
}

/// Width of a line: the byte length of its spans together.
pub open spec fn line_width(l: Seq<(Seq<char>, Option<Color>)>) -> nat
    decreases l.len(),
{
    if l.len() == 0 {
        0
    } else {
        line_width(l.drop_last()) + byte_len(l.last().0)
    }
}

/// Width of the widest line.
pub open spec fn longest_width(ls: Seq<Seq<(Seq<char>, Option<Color>)>>) -> nat
    decreases ls.len(),
{
    if ls.len() == 0 {
        0
    } else {
        let a = longest_width(ls.drop_last());
        let b = line_width(ls.last());
        if a >= b {
            a
        } else {
            b
        }
    }
}

/// `n`, or `usize::MAX` when it does not fit.
pub open spec fn cap(n: nat) -> nat {
    if n <= usize::MAX {
        n
    } else {
        usize::MAX as nat
    }
}

/// The line for one line of a user's text.
pub open spec fn user_text_line(l: Seq<char>) -> Seq<(Seq<char>, Option<Color>)> {
    seq![("> "@, Some(Color::Gray)), (l, Some(Color::White))]
}

/// Lines of one part of a user message: each line of a text part.
pub open spec fn user_part_lines(p: Part) -> Seq<Seq<(Seq<char>, Option<Color>)>> {
    match p {
        Part::Text(t) => lines_of(t.text@).map_values(|l: Seq<char>| user_text_line(l)),
        _ => seq![],
    }
}

/// Lines of each part of a user message.
pub open spec fn user_parts_all(parts: Seq<Part>) -> Seq<Seq<Seq<(Seq<char>, Option<Color>)>>> {
    parts.map_values(|p: Part| user_part_lines(p))
}

/// Lines of one message in the log: a user message as a `> ` marker line
/// and its text; an assistant message through the renderer; then a blank
/// line.
pub open spec fn container_lines(c: ContainerView) -> Seq<Seq<(Seq<char>, Option<Color>)>> {
    match c.info {
        Message::User(_) => seq![seq![("> "@, Some(Color::Gray))]] + concat_lines(
            user_parts_all(c.parts),
        ),
        Message::Assistant(_) => render_spec(c.parts, MessageContext::Fullscreen, seq![]),
    }.push(seq![])
}

/// Lines of each message.
pub open spec fn containers_all(cs: Seq<ContainerView>) -> Seq<Seq<Seq<(Seq<char>, Option<Color>)>>> {
    cs.map_values(|c: ContainerView| container_lines(c))
}

/// All lines of the log.
pub open spec fn log_lines(cs: Seq<ContainerView>) -> Seq<Seq<(Seq<char>, Option<Color>)>> {
    concat_lines(containers_all(cs))
}

/// `(position as i16 + delta)` kept within `0..=max as i16`, as a `usize`
/// (the casts wrap).
pub open spec fn clamp_scroll(position: usize, delta: i16, max: usize) -> usize {
    let s: int = (position as i16) + delta;
    let v: int = if s < 0 {
        0
    } else {
        s
    };
    let m: int = (max as i16) as int;
    let r: int = if v <= m {
        v
    } else {
        m
    };
    (r as i16) as usize
}

/// Whether `position as i16 + delta` stays within `i16`.
pub open spec fn scroll_step_fits(position: usize, delta: i16) -> bool {
    i16::MIN <= (position as i16) + delta <= i16::MAX
}

/// `a - b`, or zero.
pub open spec fn sat_sub(a: nat, b: nat) -> nat {
    if a > b {
        (a - b) as nat
    } else {
        0
    }
}

/// The message log.
#[derive(Debug, Clone, PartialEq)]
pub struct MessageLog {
    message_containers: Vec<MessageContainer>,
    pub vertical_scroll_state: ScrollbarState,
    pub horizontal_scroll_state: ScrollbarState,
    vertical_scroll: usize,
    horizontal_scroll: usize,
    cached_content_lines: Option<usize>,
    cached_longest_line: Option<usize>,
    content_dirty: bool,
}

fn span_width(s: &StyledSpan) -> (w: usize)
    ensures
        w == cap(byte_len(s@.0)),
{
    let c = chars_of(s.content.as_str());
    byte_len_exec(c.as_slice())
}

fn line_width_exec(l: &StyledLine) -> (w: usize)
    ensures
        w == cap(line_width(l@)),
{
    let ghost lv = l@;
    let mut acc: usize = 0;
    let mut i: usize = 0;
    while i < l.spans.len()
        invariant
            i <= l.spans@.len(),
            lv == l@,
            lv == l.spans@.map_values(|s: StyledSpan| s@),
            acc == cap(line_width(lv.take(i as int))),
        decreases l.spans.len() - i,
    {
        assert(lv.take(i + 1).drop_last() =~= lv.take(i as int));
        assert(lv.take(i + 1).last() == l.spans@[i as int]@);
        let w = span_width(&l.spans[i]);
        acc = acc.saturating_add(w);
        i = i + 1;
    }
    assert(lv.take(i as int) =~= lv);
    acc
}

/// Number of lines and width of the widest line (capped) of rendered lines.
fn dimensions_of(ls: &Vec<StyledLine>) -> (r: (usize, usize))
    ensures
        r.0 == ls@.len(),
        r.1 == cap(longest_width(lines_view(ls@))),
{
    let ghost lv = lines_view(ls@);
    let mut best: usize = 0;
    let mut i: usize = 0;
    while i < ls.len()
        invariant
            i <= ls@.len(),
            lv == lines_view(ls@),
            best == cap(longest_width(lv.take(i as int))),
        decreases ls.len() - i,
    {
        assert(lv.take(i + 1).drop_last() =~= lv.take(i as int));
        assert(lv.take(i + 1).last() == ls@[i as int]@);
        let w = line_width_exec(&ls[i]);
        if w > best {
            best = w;
        }
        i = i + 1;
    }
    assert(lv.take(i as int) =~= lv);
    (ls.len(), best)
}

fn gray_marker() -> (r: StyledSpan)
    ensures
        r@ == ("> "@, Some(Color::Gray)),
{
    StyledSpan { content: string_from_chars(chars_of("> ").as_slice()), fg: Some(Color::Gray) }
}

fn append_lines(dst: &mut Vec<StyledLine>, src: Vec<StyledLine>)
    ensures
        lines_view(final(dst)@) == lines_view(old(dst)@) + lines_view(src@),
{
    let mut src = src;
    let ghost s0 = src@;
    dst.append(&mut src);
    assert(lines_view(old(dst)@ + s0) =~= lines_view(old(dst)@) + lines_view(s0));
}

fn push_line(dst: &mut Vec<StyledLine>, l: StyledLine)
    ensures
        lines_view(final(dst)@) == lines_view(old(dst)@).push(l@),
{
    let ghost v = l@;
    dst.push(l);
    assert(lines_view(final(dst)@) =~= lines_view(old(dst)@).push(v));
}

fn user_part_lines_exec(p: &Part) -> (r: Vec<StyledLine>)
    ensures
        lines_view(r@) == user_part_lines(*p),
{
    let mut out: Vec<StyledLine> = Vec::new();
    match p {
        Part::Text(t) => {
            let tc = chars_of(t.text.as_str());
            let ls = lines(tc.as_slice());
            let ghost lv = ls@.map_values(|w: Vec<char>| w@);
            let mut i: usize = 0;
            while i < ls.len()
                invariant
                    i <= ls@.len(),
                    lv == ls@.map_values(|w: Vec<char>| w@),
                    lv == lines_of(t.text@),
                    lines_view(out@) == lv.take(i as int).map_values(
                        |l: Seq<char>| user_text_line(l),
                    ),
                decreases ls.len() - i,
            {
                let ghost before = lines_view(out@);
                assert(lv[i as int] == ls@[i as int]@);
                let mut spans: Vec<StyledSpan> = Vec::new();
                spans.push(gray_marker());
                let mut content: Vec<char> = Vec::new();
                push_all(&mut content, ls[i].as_slice());
                spans.push(
                    StyledSpan {
                        content: string_from_chars(content.as_slice()),
                        fg: Some(Color::White),
                    },
                );
                let l = StyledLine { spans };
                assert(l@ =~= user_text_line(lv[i as int]));
                push_line(&mut out, l);
                assert(lv.take(i + 1).map_values(|l: Seq<char>| user_text_line(l)) =~= before.push(
                    user_text_line(lv[i as int]),
                ));
                i = i + 1;
            }
            assert(lv.take(i as int) =~= lv);
        },
        _ => {
            assert(lines_view(out@) =~= Seq::<Seq<(Seq<char>, Option<Color>)>>::empty());
        },
    }
    out
}

fn container_lines_exec(c: &MessageContainer) -> (r: Vec<StyledLine>)
    ensures
        lines_view(r@) == container_lines(c@),
{
    let mut out: Vec<StyledLine> = Vec::new();
    match &c.info {
        Message::User(_) => {
            let mut spans: Vec<StyledSpan> = Vec::new();
            spans.push(gray_marker());
            let head = StyledLine { spans };
            assert(head@ =~= seq![("> "@, Some(Color::Gray))]);
            push_line(&mut out, head);
            assert(lines_view(out@) =~= seq![seq![("> "@, Some(Color::Gray))]]);
            let ghost pv = c.parts@;
            let mut body: Vec<StyledLine> = Vec::new();
            let mut i: usize = 0;
            assert(user_parts_all(pv.take(0)) =~= Seq::<Seq<Seq<(Seq<char>, Option<Color>)>>>::empty());
            assert(lines_view(body@) =~= Seq::<Seq<(Seq<char>, Option<Color>)>>::empty());
            while i < c.parts.len()
                invariant
                    i <= pv.len(),
                    pv == c.parts@,
                    lines_view(body@) == concat_lines(user_parts_all(pv.take(i as int))),
                decreases c.parts.len() - i,
            {
                proof {
                    assert(user_parts_all(pv.take(i + 1)) =~= user_parts_all(pv.take(i as int)).push(
                        user_part_lines(pv[i as int]),
                    ));
                    lemma_concat_push(user_parts_all(pv.take(i as int)), user_part_lines(pv[i as int]));
                }
                append_lines(&mut body, user_part_lines_exec(&c.parts[i]));
                i = i + 1;
            }
            assert(pv.take(i as int) =~= pv);
            append_lines(&mut out, body);
        },
        Message::Assistant(_) => {
            let r = MessageRenderer::from_message_container(c, MessageContext::Fullscreen);
            out = r.render();
        },
    }
    let mut blank: Vec<StyledSpan> = Vec::new();
    let bl = StyledLine { spans: blank };
    assert(bl@ =~= Seq::<(Seq<char>, Option<Color>)>::empty());
    push_line(&mut out, bl);
    out
}

/// The log's lines.
fn render_log(cs: &Vec<MessageContainer>) -> (r: Vec<StyledLine>)
    ensures
        lines_view(r@) == log_lines(views(cs@)),
{
    let ghost cv = views(cs@);
    let mut out: Vec<StyledLine> = Vec::new();
    let mut i: usize = 0;
    assert(containers_all(cv.take(0)) =~= Seq::<Seq<Seq<(Seq<char>, Option<Color>)>>>::empty());
    assert(lines_view(out@) =~= Seq::<Seq<(Seq<char>, Option<Color>)>>::empty());
    while i < cs.len()
        invariant
            i <= cs@.len(),
            cv == views(cs@),
            lines_view(out@) == concat_lines(containers_all(cv.take(i as int))),
        decreases cs.len() - i,
    {
        proof {
            assert(cv[i as int] == cs@[i as int]@);
            assert(containers_all(cv.take(i + 1)) =~= containers_all(cv.take(i as int)).push(
                container_lines(cv[i as int]),
            ));
            lemma_concat_push(containers_all(cv.take(i as int)), container_lines(cv[i as int]));
        }
        append_lines(&mut out, container_lines_exec(&cs[i]));
        i = i + 1;
    }
    assert(cv.take(i as int) =~= cv);
    out
}

impl MessageLog {
    /// The messages shown.
    pub closed spec fn containers_view(&self) -> Seq<ContainerView> {
        views(self.message_containers@)
    }

    /// The vertical scrollbar's state.
    pub closed spec fn vertical_state(&self) -> ScrollbarState {
        self.vertical_scroll_state
    }

    /// The horizontal scrollbar's state.
    pub closed spec fn horizontal_state(&self) -> ScrollbarState {
        self.horizontal_scroll_state
    }

    /// Vertical scroll offset, in lines.
    pub closed spec fn vertical_view(&self) -> usize {
        self.vertical_scroll
    }

    /// Horizontal scroll offset, in bytes.
    pub closed spec fn horizontal_view(&self) -> usize {
        self.horizontal_scroll
    }

    /// Number of lines of the log.
    pub open spec fn content_lines(&self) -> nat {
        log_lines(self.containers_view()).len()
    }

    /// Width of the widest line of the log (capped to `usize`).
    pub open spec fn content_width(&self) -> nat {
        cap(longest_width(log_lines(self.containers_view())))
    }

    /// The cached dimensions, when present and current, are those of the
    /// content.
    pub closed spec fn wf(&self) -> bool {
        !self.content_dirty ==> (self.cached_content_lines matches Some(n) ==> n
            == self.content_lines()) && (self.cached_longest_line matches Some(w) ==> w
            == self.content_width())
    }

    /// An empty log scrolled to the top.
    pub fn new() -> (r: Self)
        ensures
            r.wf(),
            r.containers_view() == Seq::<ContainerView>::empty(),
            r.vertical_view() == 0,
            r.horizontal_view() == 0,
            r.vertical_state() == (ScrollbarState { content_length: 0, position: 0, viewport_content_length: 0 }),
            r.horizontal_state() == (ScrollbarState { content_length: 0, position: 0, viewport_content_length: 0 }),
    {
        let r = MessageLog {
            message_containers: Vec::new(),
            vertical_scroll_state: ScrollbarState::new_default(),
            horizontal_scroll_state: ScrollbarState::new_default(),
            vertical_scroll: 0,
            horizontal_scroll: 0,
            cached_content_lines: None,
            cached_longest_line: None,
            content_dirty: true,
        };
        assert(r.containers_view() =~= Seq::<ContainerView>::empty());
        r
    }

    /// Whether the log shows no message.
    pub fn is_empty(&self) -> (b: bool)
        ensures
            b == (self.containers_view().len() == 0),
    {
        self.message_containers.len() == 0
    }

    fn mark_content_dirty(&mut self)
        ensures
            final(self).wf(),
            final(self).containers_view() == old(self).containers_view(),
            final(self).vertical_scroll == old(self).vertical_scroll,
            final(self).horizontal_scroll == old(self).horizontal_scroll,
            final(self).vertical_state() == old(self).vertical_state(),
            final(self).horizontal_state() == old(self).horizontal_state(),
    {
        self.content_dirty = true;
        self.cached_content_lines = None;
        self.cached_longest_line = None;
    }

    fn calculate_content_dimensions(&mut self) -> (r: (usize, usize))
        requires
            old(self).wf(),
        ensures
            final(self).wf(),
            r.0 == old(self).content_lines(),
            r.1 == old(self).content_width(),
            final(self).containers_view() == old(self).containers_view(),
            final(self).vertical_scroll == old(self).vertical_scroll,
            final(self).horizontal_scroll == old(self).horizontal_scroll,
            final(self).vertical_state() == old(self).vertical_state(),
            final(self).horizontal_state() == old(self).horizontal_state(),
    {
        if !self.content_dirty {
            match (self.cached_content_lines, self.cached_longest_line) {
                (Some(n), Some(w)) => {
                    return (n, w);
                },
                _ => {},
            }
        }
        let content = render_log(&self.message_containers);
        let (n, w) = dimensions_of(&content);
        self.cached_content_lines = Some(n);
        self.cached_longest_line = Some(w);
        self.content_dirty = false;
        (n, w)
    }

    /// Scrolls up (negative) or down by `direction` lines, keeping at most
    /// ten lines' worth of content out of view below.
    pub fn scroll_vertical(&mut self, direction: &i16)
        requires
            old(self).wf(),
            scroll_step_fits(old(self).vertical_view(), *direction),
        ensures
            final(self).wf(),
            final(self).containers_view() == old(self).containers_view(),
            final(self).horizontal_view() == old(self).horizontal_view(),
            final(self).vertical_view() == clamp_scroll(
                old(self).vertical_view(),
                *direction,
                sat_sub(old(self).content_lines(), 10) as usize,
            ),
            final(self).vertical_state() == scrolled(old(self).vertical_state(), old(self).content_lines(), final(self).vertical_view() as nat),
            final(self).horizontal_state() == old(self).horizontal_state(),
    {
        let (content_lines, _) = self.calculate_content_dimensions();
        let min_viewport_height: usize = 10;
        let max_scroll: usize = if content_lines > min_viewport_height {
            content_lines - min_viewport_height
        } else {
            0
        };
        self.vertical_scroll = clamp_scroll_exec(self.vertical_scroll, *direction, max_scroll);
        self.vertical_scroll_state = self.vertical_scroll_state.content_length(
            content_lines,
        ).position(self.vertical_scroll);
    }

    /// Keeps the scroll offsets within the content for a viewport of the
    /// given size (borders included) and refreshes both scrollbars.
    pub fn validate_scroll_position(&mut self, viewport_height: u16, viewport_width: u16)
        requires
            old(self).wf(),
        ensures
            final(self).wf(),
            final(self).containers_view() == old(self).containers_view(),
            final(self).vertical_view() == min_usize(
                old(self).vertical_view(),
                sat_sub(old(self).content_lines(), sat_sub(viewport_height as nat, 2)) as usize,
            ),
            final(self).horizontal_view() == min_usize(
                old(self).horizontal_view(),
                sat_sub(old(self).content_width(), sat_sub(viewport_width as nat, 2)) as usize,
            ),
            final(self).vertical_state() == scrolled(old(self).vertical_state(), old(self).content_lines(), final(self).vertical_view() as nat),
            final(self).horizontal_state() == scrolled(old(self).horizontal_state(), old(self).content_width(), final(self).horizontal_view() as nat),
    {
        let (content_lines, longest) = self.calculate_content_dimensions();
        let available_height: usize = viewport_height.saturating_sub(2) as usize;
        let available_width: usize = viewport_width.saturating_sub(2) as usize;
        let max_v: usize = if content_lines > available_height {
            content_lines - available_height
        } else {
            0
        };
        let max_h: usize = if longest > available_width {
            longest - available_width
        } else {
            0
        };
        if max_v < self.vertical_scroll {
            self.vertical_scroll = max_v;
        }
        if max_h < self.horizontal_scroll {
            self.horizontal_scroll = max_h;
        }
        self.vertical_scroll_state = self.vertical_scroll_state.content_length(
            content_lines,
        ).position(self.vertical_scroll);
        self.horizontal_scroll_state = self.horizontal_scroll_state.content_length(
            longest,
        ).position(self.horizontal_scroll);
    }

    /// Sets both scrollbars to the content's size and the current offsets.
    pub fn refresh_scrollbar_states(&mut self)
        requires
            old(self).wf(),
        ensures
            final(self).wf(),
            final(self).containers_view() == old(self).containers_view(),
            final(self).vertical_view() == old(self).vertical_view(),
            final(self).horizontal_view() == old(self).horizontal_view(),
            final(self).vertical_state() == scrolled(old(self).vertical_state(), old(self).content_lines(), old(self).vertical_view() as nat),
            final(self).horizontal_state() == scrolled(old(self).horizontal_state(), old(self).content_width(), old(self).horizontal_view() as nat),
    {
        let (content_lines, longest) = self.calculate_content_dimensions();
        self.vertical_scroll_state = self.vertical_scroll_state.content_length(
            content_lines,
        ).position(self.vertical_scroll);
        self.horizontal_scroll_state = self.horizontal_scroll_state.content_length(
            longest,
        ).position(self.horizontal_scroll);
    }

    /// Scrolls left (negative) or right by `direction` bytes, keeping at most
    /// fifty bytes' worth of the widest line out of view.
    pub fn scroll_horizontal(&mut self, direction: i16)
        requires
            old(self).wf(),
            scroll_step_fits(old(self).horizontal_view(), direction),
        ensures
            final(self).wf(),
            final(self).containers_view() == old(self).containers_view(),
            final(self).vertical_view() == old(self).vertical_view(),
            final(self).horizontal_view() == clamp_scroll(
                old(self).horizontal_view(),
                direction,
                sat_sub(old(self).content_width(), 50) as usize,
            ),
            final(self).horizontal_state() == scrolled(old(self).horizontal_state(), old(self).content_width(), final(self).horizontal_view() as nat),
            final(self).vertical_state() == old(self).vertical_state(),
    {
        let min_viewport_width: usize = 50;
        let (_, longest) = self.calculate_content_dimensions();
        let max_scroll: usize = if longest > min_viewport_width {
            longest - min_viewport_width
        } else {
            0
        };
        self.horizontal_scroll = clamp_scroll_exec(self.horizontal_scroll, direction, max_scroll);
        self.horizontal_scroll_state = self.horizontal_scroll_state.content_length(
            longest,
        ).position(self.horizontal_scroll);
    }

    /// Scrolls to the last line and the left edge, and refreshes the
    /// scrollbars.
    pub fn touch_scroll(&mut self)
        requires
            old(self).wf(),
        ensures
            final(self).wf(),
            final(self).containers_view() == old(self).containers_view(),
            final(self).vertical_view() == sat_sub(old(self).content_lines(), 1),
            final(self).horizontal_view() == 0,
            final(self).vertical_state() == scrolled(old(self).vertical_state(), old(self).content_lines(), final(self).vertical_view() as nat),
            final(self).horizontal_state() == scrolled(old(self).horizontal_state(), old(self).content_width(), 0 as nat),
    {
        let (content_lines, _) = self.calculate_content_dimensions();
        self.vertical_scroll = content_lines.saturating_sub(1);
        self.horizontal_scroll = 0;
        self.refresh_scrollbar_states();
    }

    /// Replaces the messages and scrolls to the bottom.
    pub fn set_message_containers(&mut self, containers: Vec<MessageContainer>)
        requires
            old(self).wf(),
        ensures
            final(self).wf(),
            final(self).containers_view() == views(containers@),
            final(self).vertical_view() == sat_sub(log_lines(views(containers@)).len(), 1),
            final(self).horizontal_view() == 0,
    {
        let ghost cv = views(containers@);
        self.message_containers = containers;
        self.mark_content_dirty();
        self.touch_scroll();
    }

    /// Appends a message and scrolls to the bottom.
    pub fn add_message_container(&mut self, container: MessageContainer)
        requires
            old(self).wf(),
        ensures
            final(self).wf(),
            final(self).containers_view() == old(self).containers_view().push(container@),
            final(self).vertical_view() == sat_sub(
                log_lines(old(self).containers_view().push(container@)).len(),
                1,
            ),
            final(self).horizontal_view() == 0,
    {
        let ghost c = container@;
        self.message_containers.push(container);
        assert(self.containers_view() =~= old(self).containers_view().push(c));
        self.mark_content_dirty();
        self.touch_scroll();
    }

    /// The log's lines, for drawing.
    pub fn rendered_lines(&self) -> (r: Vec<StyledLine>)
        ensures
            lines_view(r@) == log_lines(self.containers_view()),
    {
        render_log(&self.message_containers)
    }

    /// The vertical scroll offset.
    pub fn vertical_scroll(&self) -> (r: usize)
        ensures
            r == self.vertical_view(),
    {
        self.vertical_scroll
    }

    /// The horizontal scroll offset.
    pub fn horizontal_scroll(&self) -> (r: usize)
        ensures
            r == self.horizontal_view(),
    {
        self.horizontal_scroll
    }
}

/// The smaller of two offsets.
pub open spec fn min_usize(a: usize, b: usize) -> usize {
    if a <= b {
        a
    } else {
        b
    }
}

fn clamp_scroll_exec(position: usize, delta: i16, max: usize) -> (r: usize)
    requires
        scroll_step_fits(position, delta),
    ensures
        r == clamp_scroll(position, delta, max),
{
    let a: i16 = #[verifier::truncate] (position as i16);
    let s: i16 = a + delta;
    let v: i16 = if s < 0 {
        0
    } else {
        s
    };
    let m: i16 = #[verifier::truncate] (max as i16);
    let r: i16 = if v <= m {
        v
    } else {
        m
    };
    #[verifier::truncate] (r as usize)
}


/// What the log draws in an area: its lines, the offsets kept within the
/// content for the area (borders excluded), the scrollbars' states, and
/// whether each scrollbar is needed.
#[derive(Debug)]
pub struct LogView {
    pub lines: Vec<StyledLine>,
    pub vertical: usize,
    pub horizontal: usize,
    pub vertical_state: ScrollbarState,
    pub horizontal_state: ScrollbarState,
    pub show_vertical_bar: bool,
    pub show_horizontal_bar: bool,
}

impl MessageLog {
    /// What the log draws in an area of the given height and width.
    pub fn render_plan(&self, area_height: u16, area_width: u16) -> (v: LogView)
        ensures
            lines_view(v.lines@) == log_lines(self.containers_view()),
            v.vertical == min_usize(
                self.vertical_view(),
                sat_sub(self.content_lines(), sat_sub(area_height as nat, 2)) as usize,
            ),
            v.horizontal == min_usize(
                self.horizontal_view(),
                sat_sub(self.content_width(), sat_sub(area_width as nat, 2)) as usize,
            ),
            v.vertical_state == scrolled(self.vertical_state(), self.content_lines(), v.vertical as nat),
            v.horizontal_state == scrolled(
                self.horizontal_state(),
                self.content_width(),
                v.horizontal as nat,
            ),
            v.show_vertical_bar == (self.content_lines() > sat_sub(area_height as nat, 2)),
            v.show_horizontal_bar == (self.content_width() > sat_sub(area_width as nat, 2)),
    {
        let lines = render_log(&self.message_containers);
        let (content_lines, longest) = dimensions_of(&lines);
        let available_height: usize = area_height.saturating_sub(2) as usize;
        let available_width: usize = area_width.saturating_sub(2) as usize;
        let max_v: usize = if content_lines > available_height {
            content_lines - available_height
        } else {
            0
        };
        let max_h: usize = if longest > available_width {
            longest - available_width
        } else {
            0
        };
        let vertical = if self.vertical_scroll <= max_v {
            self.vertical_scroll
        } else {
            max_v
        };
        let horizontal = if self.horizontal_scroll <= max_h {
            self.horizontal_scroll
        } else {
            max_h
        };
        LogView {
            lines,
            vertical,
            horizontal,
            vertical_state: self.vertical_scroll_state.content_length(content_lines).position(vertical),
            horizontal_state: self.horizontal_scroll_state.content_length(longest).position(horizontal),
            show_vertical_bar: content_lines > available_height,
            show_horizontal_bar: longest > available_width,
        }
    }
}


/// Scrolling keeps the position within `0..=max`; a step that stays within
/// that range moves by exactly the step, and the opposite step then brings
/// the position back.
pub proof fn law_scroll_within_bounds(position: usize, delta: i16, max: usize)
    requires
        max <= i16::MAX,
        position <= max,
        -i16::MAX <= delta,
    ensures
        clamp_scroll(position, delta, max) <= max,
        0 <= position + delta <= max ==> clamp_scroll(position, delta, max) == position + delta,
        0 <= position + delta <= max ==> clamp_scroll(
            clamp_scroll(position, delta, max),
            -delta as i16,
            max,
        ) == position,
{
}

} // verus!
