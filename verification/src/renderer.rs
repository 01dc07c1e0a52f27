//! Rendering of a message's parts into styled lines: text parts line by line,
//! tool calls as a header with a summary (and the todo list for
//! `todowrite`), grouped by step when the message has step markers.

use vstd::prelude::*;
use crate::json::{
    JsonField, JsonValue, get_str, json_get_str, json_map_get, json_text_of_strings, map_get,
    parse_json_text, strings_to_json_text,
};
use crate::models::{Part, SessionMessage, ToolPart, ToolState};
use crate::message_state::MessageContainer;
use crate::text::{all_ws, chars_of, is_blank, lines, lines_of, push_all, push_str, string_from_chars};
use crate::tool_summary::{deref_opt, format_tool_result_summary, todos_source, tool_summary_spec};
use crate::tool_text::{format_tool_args, tool_args_spec};

verus! {

/// Terminal colours used by the client.
#[derive(Debug, Clone, Copy, PartialEq, Eq, Structural)]
pub enum Color {
    Reset,
    Black,
    Red,
    Green,
    Yellow,
    Blue,
    Magenta,
    Cyan,
    Gray,
    DarkGray,
    LightRed,
    LightGreen,
    LightYellow,
    LightBlue,
    LightMagenta,
    LightCyan,
    White,
}

/// A run of text in one colour; `fg` is `None` for the default style.
#[derive(Debug, Clone, PartialEq)]
pub struct StyledSpan {
    pub content: String,
    pub fg: Option<Color>,
}

impl View for StyledSpan {
    type V = (Seq<char>, Option<Color>);

    open spec fn view(&self) -> (Seq<char>, Option<Color>) {
        (self.content@, self.fg)
    }
}

/// One line of styled text; a line without spans is blank.
#[derive(Debug, Clone, PartialEq)]
pub struct StyledLine {
    pub spans: Vec<StyledSpan>,
}

impl View for StyledLine {
    type V = Seq<(Seq<char>, Option<Color>)>;

    open spec fn view(&self) -> Seq<(Seq<char>, Option<Color>)> {
        self.spans@.map_values(|s: StyledSpan| s@)
    }
}

/// Views of a sequence of lines.
pub open spec fn lines_view(v: Seq<StyledLine>) -> Seq<Seq<(Seq<char>, Option<Color>)>> {
    v.map_values(|l: StyledLine| l@)
}

/// How much detail tool calls show.
#[derive(Debug, Clone, Copy, PartialEq, Eq, Structural)]
pub enum VerbosityLevel {
    Summary,
    Verbose,
}

/// Where a message is drawn: printed above the inline viewport, or in the
/// full-screen log (which offers to expand tool output).
#[derive(Debug, Clone, Copy, PartialEq, Eq, Structural)]
pub enum MessageContext {
    Inline,
    Fullscreen,
}

/// Concatenation of a sequence of line sequences, in order.
pub open spec fn concat_lines(s: Seq<Seq<Seq<(Seq<char>, Option<Color>)>>>) -> Seq<
    Seq<(Seq<char>, Option<Color>)>,
>
    decreases s.len(),
{
    if s.len() == 0 {
        seq![]
    } else {
        concat_lines(s.drop_last()) + s.last()
    }
}

/// A line holding one span.
pub open spec fn one_span(content: Seq<char>, fg: Option<Color>) -> Seq<(Seq<char>, Option<Color>)> {
    seq![(content, fg)]
}

/// The colour of a tool call's bullet, by state.
pub open spec fn status_color(s: ToolState) -> Color {
    match s {
        ToolState::Pending => Color::Yellow,
        ToolState::Running { .. } => Color::Blue,
        ToolState::Completed { .. } => Color::Green,
        ToolState::Error { .. } => Color::Red,
    }
}

/// The line for one line of a text part: blank when it holds only
/// whitespace, else the prefix and the text, both white.
pub open spec fn text_line_spec(l: Seq<char>, prefix: Seq<char>) -> Seq<(Seq<char>, Option<Color>)> {
    if all_ws(l) {
        seq![]
    } else {
        seq![(prefix, Some(Color::White)), (l, Some(Color::White))]
    }
}

/// The prefix of a text line: an indent inside a step group, a marker
/// outside.
pub open spec fn text_prefix(grouped: bool) -> Seq<char> {
    if grouped {
        "  "@
    } else {
        "> "@
    }
}

/// Lines of a text item; synthetic text shows nothing.
pub open spec fn text_item_lines(text: Seq<char>, synthetic: bool, grouped: bool) -> Seq<
    Seq<(Seq<char>, Option<Color>)>,
> {
    if synthetic {
        seq![]
    } else {
        lines_of(text).map_values(|l: Seq<char>| text_line_spec(l, text_prefix(grouped)))
    }
}

/// The header of a tool call: a bullet, the tool's name and, when there is
/// any, its argument in parentheses.
pub open spec fn tool_header(p: ToolPart) -> Seq<char> {
    let args = tool_args_spec(p);
    if args.len() == 0 {
        "● "@ + p.tool@
    } else {
        "● "@ + p.tool@ + "("@ + args + ")"@
    }
}

/// The summary line under a tool call; the full-screen log adds the
/// expand/collapse hint.
pub open spec fn summary_line(p: ToolPart, ctx: MessageContext, expanded: Seq<Seq<char>>) -> Seq<
    char,
> {
    let s = tool_summary_spec(p);
    match ctx {
        MessageContext::Inline => "  ⎿  "@ + s,
        MessageContext::Fullscreen => if expanded.contains(p.call_id@) {
            "  ⎿  "@ + s + " (ctrl+r to collapse)"@
        } else {
            "  ⎿  "@ + s + " (ctrl+r to expand)"@
        },
    }
}

/// A JSON value's string entry under `key`, when it is an object.
pub open spec fn value_get_str(v: JsonValue, key: Seq<char>) -> Option<Seq<char>> {
    match v {
        JsonValue::Object(o) => get_str(o@, key),
        _ => None,
    }
}

/// The checkbox shown for a todo status.
pub open spec fn checkbox(status: Seq<char>) -> Seq<char> {
    if status == "completed"@ || status == "cancelled"@ {
        "☒"@
    } else if status == "in_progress"@ {
        "◐"@
    } else {
        "☐"@
    }
}

/// The checkbox colour for a todo status.
pub open spec fn checkbox_color(status: Seq<char>) -> Color {
    if status == "completed"@ {
        Color::Green
    } else if status == "in_progress"@ {
        Color::Yellow
    } else if status == "cancelled"@ {
        Color::Red
    } else {
        Color::Gray
    }
}

/// The line of one todo, when it has both a content and a status string.
pub open spec fn todo_item_line(todo: JsonValue) -> Option<Seq<(Seq<char>, Option<Color>)>> {
    match (value_get_str(todo, "content"@), value_get_str(todo, "status"@)) {
        (Some(content), Some(status)) => Some(
            seq![
                ("     "@, None),
                (checkbox(status), Some(checkbox_color(status))),
                (" "@, None),
                (content, Some(Color::White)),
            ],
        ),
        _ => None,
    }
}

/// Lines of a todo array, skipping entries without content or status.
pub open spec fn todo_item_lines(a: Seq<JsonValue>) -> Seq<Seq<(Seq<char>, Option<Color>)>>
    decreases a.len(),
{
    if a.len() == 0 {
        seq![]
    } else {
        todo_item_lines(a.drop_last()) + match todo_item_line(a.last()) {
            Some(l) => seq![l],
            None => seq![],
        }
    }
}

/// The line shown when the todos cannot be read.
pub open spec fn todo_fallback_line() -> Seq<(Seq<char>, Option<Color>)> {
    seq![("     "@, None), ("⎿ "@, Some(Color::Gray)), ("Todo list updated"@, Some(Color::Gray))]
}

/// The todo lines for a todo source: one line per readable todo when it is
/// an array, else the fallback line.
pub open spec fn todo_source_lines(source: Option<JsonValue>) -> Seq<Seq<(Seq<char>, Option<Color>)>> {
    match source {
        Some(JsonValue::Array(a)) => todo_item_lines(a@),
        _ => seq![todo_fallback_line()],
    }
}

/// The todo list of a completed `todowrite` call: read from the metadata's
/// `todos` entry when present, else from the output read as JSON.
pub open spec fn todo_lines_spec(p: ToolPart) -> Seq<Seq<(Seq<char>, Option<Color>)>> {
    match p.state {
        ToolState::Completed { metadata, output, .. } => todo_source_lines(
            todos_source(metadata@, output@),
        ),
        _ => seq![],
    }
}

/// Lines of a tool call.
pub open spec fn tool_lines_spec(p: ToolPart, ctx: MessageContext, expanded: Seq<Seq<char>>) -> Seq<
    Seq<(Seq<char>, Option<Color>)>,
> {
    seq![
        one_span(tool_header(p), Some(status_color(p.state))),
        one_span(summary_line(p, ctx, expanded), Some(Color::Gray)),
    ] + (if p.tool@ == "todowrite"@ {
        todo_lines_spec(p)
    } else {
        seq![]
    }) + (if ctx == MessageContext::Fullscreen && expanded.contains(p.call_id@)
        && p.state is Completed {
        seq![one_span("    [Expanded output would go here]"@, Some(Color::DarkGray))]
    } else {
        seq![]
    })
}

fn span_of(content: Vec<char>, fg: Option<Color>) -> (r: StyledSpan)
    ensures
        r@ == (content@, fg),
{
    StyledSpan { content: string_from_chars(content.as_slice()), fg }
}

fn span_str(content: &str, fg: Option<Color>) -> (r: StyledSpan)
    ensures
        r@ == (content@, fg),
{
    let c = chars_of(content);
    span_of(c, fg)
}

fn line_of(spans: Vec<StyledSpan>) -> (r: StyledLine)
    ensures
        r@ == spans@.map_values(|s: StyledSpan| s@),
{
    StyledLine { spans }
}

fn single_line(content: Vec<char>, fg: Option<Color>) -> (r: StyledLine)
    ensures
        r@ == one_span(content@, fg),
{
    let mut spans: Vec<StyledSpan> = Vec::new();
    spans.push(span_of(content, fg));
    let r = line_of(spans);
    assert(r@ =~= one_span(content@, fg));
    r
}

fn blank_line() -> (r: StyledLine)
    ensures
        r@ == Seq::<(Seq<char>, Option<Color>)>::empty(),
{
    let r = StyledLine { spans: Vec::new() };
    assert(r@ =~= Seq::<(Seq<char>, Option<Color>)>::empty());
    r
}

/// Appends `src` to `dst`.
fn append_lines(dst: &mut Vec<StyledLine>, src: Vec<StyledLine>)
    ensures
        lines_view(final(dst)@) == lines_view(old(dst)@) + lines_view(src@),
{
    let mut src = src;
    let ghost s0 = src@;
    dst.append(&mut src);
    assert(lines_view(old(dst)@ + s0) =~= lines_view(old(dst)@) + lines_view(s0));
}

/// Appends one line to `dst`.
fn push_line(dst: &mut Vec<StyledLine>, l: StyledLine)
    ensures
        lines_view(final(dst)@) == lines_view(old(dst)@).push(l@),
{
    let ghost v = l@;
    dst.push(l);
    assert(lines_view(final(dst)@) =~= lines_view(old(dst)@).push(v));
}

fn status_color_exec(s: &ToolState) -> (c: Color)
    ensures
        c == status_color(*s),
{
    match s {
        ToolState::Pending => Color::Yellow,
        ToolState::Running { .. } => Color::Blue,
        ToolState::Completed { .. } => Color::Green,
        ToolState::Error { .. } => Color::Red,
    }
}

/// The lines of a text item.
fn text_item_lines_exec(text: &str, synthetic: bool, grouped: bool) -> (r: Vec<StyledLine>)
    ensures
        lines_view(r@) == text_item_lines(text@, synthetic, grouped),
{
    let mut out: Vec<StyledLine> = Vec::new();
    if synthetic {
        assert(lines_view(out@) =~= text_item_lines(text@, synthetic, grouped));
        return out;
    }
    let prefix: &str = if grouped {
        "  "
    } else {
        "> "
    };
    let tc = chars_of(text);
    let ls = lines(tc.as_slice());
    let ghost lv = ls@.map_values(|w: Vec<char>| w@);
    let mut i: usize = 0;
    while i < ls.len()
        invariant
            i <= ls@.len(),
            lv == ls@.map_values(|w: Vec<char>| w@),
            lv == lines_of(text@),
            prefix@ == text_prefix(grouped),
            lines_view(out@) == lv.take(i as int).map_values(
                |l: Seq<char>| text_line_spec(l, text_prefix(grouped)),
            ),
        decreases ls.len() - i,
    {
        let ghost before = lines_view(out@);
        assert(lv[i as int] == ls@[i as int]@);
        if is_blank(ls[i].as_slice()) {
            push_line(&mut out, blank_line());
        } else {
            let mut spans: Vec<StyledSpan> = Vec::new();
            spans.push(span_str(prefix, Some(Color::White)));
            let mut content: Vec<char> = Vec::new();
            push_all(&mut content, ls[i].as_slice());
            spans.push(span_of(content, Some(Color::White)));
            let l = line_of(spans);
            assert(l@ =~= text_line_spec(lv[i as int], text_prefix(grouped)));
            push_line(&mut out, l);
        }
        assert(lv.take(i + 1).map_values(|l: Seq<char>| text_line_spec(l, text_prefix(grouped)))
            =~= before.push(text_line_spec(lv[i as int], text_prefix(grouped))));
        i = i + 1;
    }
    assert(lv.take(i as int) =~= lv);
    out
}

fn str_in(set: &Vec<String>, s: &String) -> (b: bool)
    ensures
        b == set@.map_values(|x: String| x@).contains(s@),
{
    let ghost sv = set@.map_values(|x: String| x@);
    let mut i: usize = 0;
    while i < set.len()
        invariant
            i <= set@.len(),
            sv == set@.map_values(|x: String| x@),
            forall|k: int| 0 <= k < i ==> sv[k] != s@,
        decreases set.len() - i,
    {
        if crate::models::string_eq(&set[i], s) {
            assert(sv[i as int] == s@);
            return true;
        }
        i = i + 1;
    }
    proof {
        if sv.contains(s@) {
            let k = choose|k: int| 0 <= k < sv.len() && sv[k] == s@;
            assert(sv[k] != s@);
        }
    }
    false
}

fn value_get_str_exec(v: &JsonValue, key: &str) -> (r: Option<Vec<char>>)
    ensures
        match r {
            Some(x) => value_get_str(*v, key@) == Some(x@),
            None => value_get_str(*v, key@) is None,
        },
{
    match v {
        JsonValue::Object(o) => match json_get_str(o, key) {
            Some(s) => Some(chars_of(s)),
            None => None,
        },
        _ => None,
    }
}

fn todo_item_line_exec(todo: &JsonValue) -> (r: Option<StyledLine>)
    ensures
        match r {
            Some(l) => todo_item_line(*todo) == Some(l@),
            None => todo_item_line(*todo) is None,
        },
{
    let content = value_get_str_exec(todo, "content");
    let status = value_get_str_exec(todo, "status");
    match (content, status) {
        (Some(c), Some(s)) => {
            let completed = chars_of("completed");
            let in_progress = chars_of("in_progress");
            let cancelled = chars_of("cancelled");
            let is_completed = crate::text::chars_eq(s.as_slice(), completed.as_slice());
            let is_in_progress = crate::text::chars_eq(s.as_slice(), in_progress.as_slice());
            let is_cancelled = crate::text::chars_eq(s.as_slice(), cancelled.as_slice());
            let glyph: &str = if is_completed || is_cancelled {
                "☒"
            } else if is_in_progress {
                "◐"
            } else {
                "☐"
            };
            let color = if is_completed {
                Color::Green
            } else if is_in_progress {
                Color::Yellow
            } else if is_cancelled {
                Color::Red
            } else {
                Color::Gray
            };
            let mut spans: Vec<StyledSpan> = Vec::new();
            spans.push(span_str("     ", None));
            spans.push(span_str(glyph, Some(color)));
            spans.push(span_str(" ", None));
            spans.push(span_of(c, Some(Color::White)));
            let l = line_of(spans);
            assert(l@ =~= todo_item_line(*todo)->0);
            Some(l)
        },
        _ => None,
    }
}

fn todo_fallback_exec() -> (r: StyledLine)
    ensures
        r@ == todo_fallback_line(),
{
    let mut spans: Vec<StyledSpan> = Vec::new();
    spans.push(span_str("     ", None));
    spans.push(span_str("⎿ ", Some(Color::Gray)));
    spans.push(span_str("Todo list updated", Some(Color::Gray)));
    let l = line_of(spans);
    assert(l@ =~= todo_fallback_line());
    l
}

fn todo_items_exec(a: &Vec<JsonValue>) -> (r: Vec<StyledLine>)
    ensures
        lines_view(r@) == todo_item_lines(a@),
{
    let mut out: Vec<StyledLine> = Vec::new();
    let mut i: usize = 0;
    while i < a.len()
        invariant
            i <= a@.len(),
            lines_view(out@) == todo_item_lines(a@.take(i as int)),
        decreases a.len() - i,
    {
        assert(a@.take(i + 1).drop_last() =~= a@.take(i as int));
        assert(a@.take(i + 1).last() == a@[i as int]);
        let ghost before = lines_view(out@);
        match todo_item_line_exec(&a[i]) {
            Some(l) => {
                push_line(&mut out, l);
                assert(lines_view(out@) =~= todo_item_lines(a@.take(i + 1)));
            },
            None => {
                assert(before + Seq::<Seq<(Seq<char>, Option<Color>)>>::empty() =~= before);
            },
        }
        i = i + 1;
    }
    assert(a@.take(i as int) =~= a@);
    out
}

/// The todo list drawn for the todos read from `source`: one line per todo
/// that has a `content` and a `status` string when it is an array, else the
/// line saying that the list was updated.
pub fn todo_list_lines(source: Option<&JsonValue>) -> (r: Vec<StyledLine>)
    ensures
        lines_view(r@) == todo_source_lines(deref_opt(source)),
{
    match source {
        Some(JsonValue::Array(a)) => todo_items_exec(a),
        _ => {
            let mut out: Vec<StyledLine> = Vec::new();
            push_line(&mut out, todo_fallback_exec());
            assert(lines_view(out@) =~= seq![todo_fallback_line()]);
            out
        },
    }
}

fn todo_lines_exec(p: &ToolPart) -> (r: Vec<StyledLine>)
    ensures
        lines_view(r@) == todo_lines_spec(*p),
{
    match &p.state {
        ToolState::Completed { metadata, output, .. } => match json_map_get(metadata, "todos") {
            Some(v) => todo_list_lines(Some(v)),
            None => {
                let parsed = parse_json_text(output.as_str());
                todo_list_lines(parsed.as_ref())
            },
        },
        _ => {
            let out: Vec<StyledLine> = Vec::new();
            assert(lines_view(out@) =~= Seq::<Seq<(Seq<char>, Option<Color>)>>::empty());
            out
        },
    }
}

fn tool_header_exec(p: &ToolPart) -> (r: Vec<char>)
    ensures
        r@ == tool_header(*p),
{
    let args = format_tool_args(p);
    let mut h: Vec<char> = Vec::new();
    push_str(&mut h, "● ");
    push_str(&mut h, p.tool.as_str());
    if args.as_str().unicode_len() > 0 {
        push_str(&mut h, "(");
        push_str(&mut h, args.as_str());
        push_str(&mut h, ")");
    } else {
        proof {
            assert(args@.len() == 0);
        }
    }
    h
}

/// The lines of a tool call.
fn tool_lines_exec(p: &ToolPart, ctx: MessageContext, expanded: &Vec<String>) -> (r: Vec<
    StyledLine,
>)
    ensures
        lines_view(r@) == tool_lines_spec(*p, ctx, expanded@.map_values(|x: String| x@)),
{
    let ghost ev = expanded@.map_values(|x: String| x@);
    let mut out: Vec<StyledLine> = Vec::new();
    let header = tool_header_exec(p);
    push_line(&mut out, single_line(header, Some(status_color_exec(&p.state))));
    let summary = format_tool_result_summary(p);
    let is_expanded = str_in(expanded, &p.call_id);
    let mut sl: Vec<char> = Vec::new();
    push_str(&mut sl, "  ⎿  ");
    push_str(&mut sl, summary.as_str());
    match ctx {
        MessageContext::Inline => {},
        MessageContext::Fullscreen => {
            if is_expanded {
                push_str(&mut sl, " (ctrl+r to collapse)");
            } else {
                push_str(&mut sl, " (ctrl+r to expand)");
            }
        },
    }
    assert(sl@ == summary_line(*p, ctx, ev));
    push_line(&mut out, single_line(sl, Some(Color::Gray)));
    let ghost first_two = lines_view(out@);
    assert(first_two =~= seq![
        one_span(tool_header(*p), Some(status_color(p.state))),
        one_span(summary_line(*p, ctx, ev), Some(Color::Gray)),
    ]);
    let todo = crate::json::str_eq_strs(p.tool.as_str(), "todowrite");
    if todo {
        append_lines(&mut out, todo_lines_exec(p));
    } else {
        assert(lines_view(out@) + Seq::<Seq<(Seq<char>, Option<Color>)>>::empty() =~= lines_view(
            out@,
        ));
    }
    let ghost mid = lines_view(out@);
    let completed = match &p.state {
        ToolState::Completed { .. } => true,
        _ => false,
    };
    if ctx == MessageContext::Fullscreen && is_expanded && completed {
        let c = chars_of("    [Expanded output would go here]");
        push_line(&mut out, single_line(c, Some(Color::DarkGray)));
        assert(lines_view(out@) =~= mid + seq![
            one_span("    [Expanded output would go here]"@, Some(Color::DarkGray)),
        ]);
    } else {
        assert(lines_view(out@) =~= mid + Seq::<Seq<(Seq<char>, Option<Color>)>>::empty());
    }
    out
}


/// A step group: the text items, tool calls and files between a step's
/// start and finish markers.
pub struct GroupView {
    pub texts: Seq<(Seq<char>, bool)>,
    pub tools: Seq<ToolPart>,
    pub files: nat,
}

/// The empty group.
pub open spec fn empty_group() -> GroupView {
    GroupView { texts: seq![], tools: seq![], files: 0 }
}

/// Whether a group holds anything.
pub open spec fn group_nonempty(g: GroupView) -> bool {
    g.texts.len() > 0 || g.tools.len() > 0 || g.files > 0
}

/// The JSON text of a patch's file list, `-` when it cannot be written.
pub open spec fn files_text(files: Seq<Seq<char>>) -> Seq<char> {
    match json_text_of_strings(files) {
        Some(t) => t,
        None => "-"@,
    }
}

/// The text item a part contributes to its group (text and whether it is
/// synthetic): text parts as they are, snapshot, reasoning, patch and agent
/// parts as a placeholder line.
pub open spec fn part_text_item(p: Part) -> Option<(Seq<char>, bool)> {
    match p {
        Part::Text(t) => Some((t.text@, t.synthetic == Some(true))),
        Part::Snapshot(x) => Some(("TODO(snapshot) "@ + x.snapshot@, false)),
        Part::Reasoning(x) => Some(("TODO(reasoning) "@ + x.text@, false)),
        Part::Patch(x) => Some(("TODO(patch) files="@ + files_text(x.files@.map_values(|f: String| f@)), false)),
        Part::Agent(x) => Some(("TODO(agent) name="@ + x.name@ + " source="@ + x.source_json@, false)),
        _ => None,
    }
}

/// The finished groups with `cur` added when it holds anything.
pub open spec fn close_group(gs: Seq<GroupView>, cur: GroupView) -> Seq<GroupView> {
    if group_nonempty(cur) {
        gs.push(cur)
    } else {
        gs
    }
}

/// One step of grouping: finished groups, the open group, and whether a
/// step is open.
pub open spec fn group_step(st: (Seq<GroupView>, GroupView, bool), p: Part) -> (
    Seq<GroupView>,
    GroupView,
    bool,
) {
    let (gs, cur, in_step) = st;
    match p {
        Part::StepStart(_) => (if in_step {
            close_group(gs, cur)
        } else {
            gs
        }, empty_group(), true),
        Part::StepFinish(_) => if in_step {
            (close_group(gs, cur), empty_group(), false)
        } else {
            (gs, cur, false)
        },
        Part::Tool(t) => (gs, GroupView { tools: cur.tools.push(t), ..cur }, in_step),
        Part::File(_) => (gs, GroupView { files: cur.files + 1, ..cur }, in_step),
        _ => match part_text_item(p) {
            Some(ti) => (gs, GroupView { texts: cur.texts.push(ti), ..cur }, in_step),
            None => st,
        },
    }
}

/// Grouping state after the given parts.
pub open spec fn group_fold(parts: Seq<Part>) -> (Seq<GroupView>, GroupView, bool)
    decreases parts.len(),
{
    if parts.len() == 0 {
        (seq![], empty_group(), false)
    } else {
        group_step(group_fold(parts.drop_last()), parts.last())
    }
}

/// The step groups of a message's parts; an open step at the end counts.
pub open spec fn step_groups(parts: Seq<Part>) -> Seq<GroupView> {
    let (gs, cur, in_step) = group_fold(parts);
    if in_step {
        close_group(gs, cur)
    } else {
        gs
    }
}

/// Whether a part is a step marker.
pub open spec fn is_step_marker(p: Part) -> bool {
    p is StepStart || p is StepFinish
}

/// The text items of a run of parts, in order.
pub open spec fn text_items(s: Seq<Part>) -> Seq<(Seq<char>, bool)>
    decreases s.len(),
{
    if s.len() == 0 {
        seq![]
    } else {
        text_items(s.drop_last()) + match part_text_item(s.last()) {
            Some(ti) => seq![ti],
            None => seq![],
        }
    }
}

/// The tool calls of a run of parts, in order.
pub open spec fn tool_calls(s: Seq<Part>) -> Seq<ToolPart>
    decreases s.len(),
{
    if s.len() == 0 {
        seq![]
    } else {
        tool_calls(s.drop_last()) + match s.last() {
            Part::Tool(t) => seq![t],
            _ => seq![],
        }
    }
}

/// The number of file parts in a run of parts.
pub open spec fn file_count(s: Seq<Part>) -> nat
    decreases s.len(),
{
    if s.len() == 0 {
        0
    } else {
        file_count(s.drop_last()) + if s.last() is File {
            1nat
        } else {
            0nat
        }
    }
}

/// The group a run of parts makes: its text items, its tool calls and the
/// number of its files.
pub open spec fn content_group(s: Seq<Part>) -> GroupView {
    GroupView { texts: text_items(s), tools: tool_calls(s), files: file_count(s) }
}

/// The index of the first step marker at or after `i`, or the length when
/// there is none.
pub open spec fn next_marker(parts: Seq<Part>, i: int) -> int
    decreases parts.len() - i,
{
    if i >= parts.len() {
        parts.len() as int
    } else if is_step_marker(parts[i]) {
        i
    } else {
        next_marker(parts, i + 1)
    }
}

/// The index of the last step start before `n`, or -1 when there is none.
pub open spec fn last_step_start(parts: Seq<Part>, n: int) -> int
    decreases n,
{
    if n <= 0 {
        -1
    } else if parts[n - 1] is StepStart {
        n - 1
    } else {
        last_step_start(parts, n - 1)
    }
}

/// The last step start before `n` is a step start before `n`, with none
/// after it.
pub proof fn lemma_last_step_start_range(parts: Seq<Part>, n: int)
    requires
        n <= parts.len(),
    ensures
        -1 <= last_step_start(parts, n) < if n > 0 { n } else { 0 },
        last_step_start(parts, n) >= 0 ==> parts[last_step_start(parts, n)] is StepStart,
        forall|k: int| last_step_start(parts, n) < k < n ==> !(#[trigger] parts[k] is StepStart),
    decreases n,
{
    if n > 0 && !(parts[n - 1] is StepStart) {
        lemma_last_step_start_range(parts, n - 1);
    }
}

/// The groups of a message's steps, span by span: each step start opens a
/// span that runs to the next step marker or to the end; a span's group is
/// kept when it holds anything; parts outside every span belong to no group.
pub open spec fn span_groups(parts: Seq<Part>) -> Seq<GroupView>
    decreases parts.len(),
{
    let j = last_step_start(parts, parts.len() as int);
    if j < 0 {
        seq![]
    } else {
        proof {
            lemma_last_step_start_range(parts, parts.len() as int);
        }
        close_group(
            span_groups(parts.take(j)),
            content_group(parts.subrange(j + 1, next_marker(parts, j + 1))),
        )
    }
}

/// The index of the last step marker before `n`, or -1 when there is none.
spec fn last_marker(parts: Seq<Part>, n: int) -> int
    decreases n,
{
    if n <= 0 {
        -1
    } else if is_step_marker(parts[n - 1]) {
        n - 1
    } else {
        last_marker(parts, n - 1)
    }
}

proof fn lemma_last_marker_range(parts: Seq<Part>, n: int)
    requires
        n <= parts.len(),
    ensures
        -1 <= last_marker(parts, n) < if n > 0 { n } else { 0 },
        last_marker(parts, n) >= 0 ==> is_step_marker(parts[last_marker(parts, n)]),
        forall|k: int| last_marker(parts, n) < k < n ==> !is_step_marker(#[trigger] parts[k]),
    decreases n,
{
    if n > 0 && !is_step_marker(parts[n - 1]) {
        lemma_last_marker_range(parts, n - 1);
    }
}

proof fn lemma_last_marker_is(parts: Seq<Part>, n: int, r: int)
    requires
        -1 <= r < n <= parts.len(),
        r >= 0 ==> is_step_marker(parts[r]),
        forall|k: int| r < k < n ==> !is_step_marker(#[trigger] parts[k]),
    ensures
        last_marker(parts, n) == r,
    decreases n,
{
    if n - 1 > r {
        assert(!is_step_marker(parts[n - 1]));
        lemma_last_marker_is(parts, n - 1, r);
    }
}

proof fn lemma_last_step_start_is(parts: Seq<Part>, n: int, r: int)
    requires
        -1 <= r < n <= parts.len(),
        r >= 0 ==> parts[r] is StepStart,
        forall|k: int| r < k < n ==> !(#[trigger] parts[k] is StepStart),
    ensures
        last_step_start(parts, n) == r,
    decreases n,
{
    if n - 1 > r {
        assert(!(parts[n - 1] is StepStart));
        lemma_last_step_start_is(parts, n - 1, r);
    }
}

proof fn lemma_next_marker_range(parts: Seq<Part>, i: int)
    requires
        0 <= i <= parts.len(),
    ensures
        i <= next_marker(parts, i) <= parts.len(),
        next_marker(parts, i) < parts.len() ==> is_step_marker(parts[next_marker(parts, i)]),
        forall|k: int| i <= k < next_marker(parts, i) ==> !is_step_marker(#[trigger] parts[k]),
    decreases parts.len() - i,
{
    if i < parts.len() && !is_step_marker(parts[i]) {
        lemma_next_marker_range(parts, i + 1);
    }
}

proof fn lemma_next_marker_is(parts: Seq<Part>, i: int, r: int)
    requires
        0 <= i <= r <= parts.len(),
        r < parts.len() ==> is_step_marker(parts[r]),
        forall|k: int| i <= k < r ==> !is_step_marker(#[trigger] parts[k]),
    ensures
        next_marker(parts, i) == r,
    decreases r - i,
{
    if i < r {
        assert(!is_step_marker(parts[i]));
        lemma_next_marker_is(parts, i + 1, r);
    }
}

/// When the last marker is a step start, the last span runs from it to the
/// end.
proof fn lemma_open_span(q: Seq<Part>, m: int)
    requires
        m == last_marker(q, q.len() as int),
        m >= 0,
        q[m] is StepStart,
    ensures
        span_groups(q) == close_group(span_groups(q.take(m)), content_group(q.skip(m + 1))),
{
    lemma_last_marker_range(q, q.len() as int);
    lemma_last_step_start_is(q, q.len() as int, m);
    lemma_next_marker_is(q, m + 1, q.len() as int);
    assert(q.subrange(m + 1, q.len() as int) =~= q.skip(m + 1));
}

/// Outside a span, a part that opens no step adds no group.
proof fn lemma_outside_span(q: Seq<Part>, p: Part)
    requires
        !(p is StepStart),
        last_marker(q, q.len() as int) < 0 || !(q[last_marker(q, q.len() as int)] is StepStart),
    ensures
        span_groups(q.push(p)) == span_groups(q),
{
    let n = q.len() as int;
    let pp = q.push(p);
    let m = last_marker(q, n);
    lemma_last_marker_range(q, n);
    lemma_last_step_start_range(q, n);
    let j = last_step_start(q, n);
    assert forall|k: int| j < k < n + 1 implies !(#[trigger] pp[k] is StepStart) by {
        if k < n {
            assert(pp[k] == q[k]);
        }
    }
    lemma_last_step_start_is(pp, n + 1, j);
    if j >= 0 {
        assert(pp[j] == q[j]);
        assert(m >= j);
        assert(m > j);
        lemma_next_marker_range(q, j + 1);
        let r = next_marker(q, j + 1);
        assert(r <= m);
        assert(pp[r] == q[r]);
        assert forall|k: int| j + 1 <= k < r implies !is_step_marker(#[trigger] pp[k]) by {
            assert(pp[k] == q[k]);
        }
        lemma_next_marker_is(pp, j + 1, r);
        assert(pp.take(j) =~= q.take(j));
        assert(pp.subrange(j + 1, r) =~= q.subrange(j + 1, r));
    }
}

/// The grouping state after some parts, described by spans: a step is open
/// exactly when the last marker is a step start; then the open group is the
/// content after it and the finished groups are those of the spans before
/// it; otherwise the finished groups are all the span groups.
proof fn lemma_fold_by_spans(parts: Seq<Part>)
    ensures
        ({
            let (gs, cur, in_step) = group_fold(parts);
            let m = last_marker(parts, parts.len() as int);
            &&& in_step == (m >= 0 && parts[m] is StepStart)
            &&& in_step ==> cur == content_group(parts.skip(m + 1)) && gs == span_groups(
                parts.take(m),
            )
            &&& !in_step ==> gs == span_groups(parts)
        }),
    decreases parts.len(),
{
    let n = parts.len() as int;
    if n == 0 {
        assert(span_groups(parts) == Seq::<GroupView>::empty());
    } else {
        let q = parts.drop_last();
        let p = parts.last();
        assert(parts =~= q.push(p));
        lemma_fold_by_spans(q);
        let (gs, cur, in_step) = group_fold(q);
        let m = last_marker(q, n - 1);
        lemma_last_marker_range(q, n - 1);
        if in_step {
            lemma_open_span(q, m);
        }
        if is_step_marker(p) {
            assert forall|k: int| n - 1 < k < n implies !is_step_marker(#[trigger] parts[k]) by {}
            lemma_last_marker_is(parts, n, n - 1);
            assert(parts.skip(n) =~= Seq::<Part>::empty());
            assert(parts.take(n - 1) =~= q);
            if p is StepFinish && in_step {
                assert forall|k: int| m < k < n implies !(#[trigger] parts[k] is StepStart) by {
                    if k < n - 1 {
                        assert(parts[k] == q[k]);
                    }
                }
                assert(parts[m] == q[m]);
                lemma_last_step_start_is(parts, n, m);
                assert forall|k: int| m + 1 <= k < n - 1 implies !is_step_marker(#[trigger] parts[k]) by {
                    assert(parts[k] == q[k]);
                }
                lemma_next_marker_is(parts, m + 1, n - 1);
                assert(parts.take(m) =~= q.take(m));
                assert(parts.subrange(m + 1, n - 1) =~= q.skip(m + 1));
            } else if p is StepFinish {
                lemma_outside_span(q, p);
            }
        } else {
            assert forall|k: int| m < k < n implies !is_step_marker(#[trigger] parts[k]) by {
                if k < n - 1 {
                    assert(parts[k] == q[k]);
                }
            }
            if m >= 0 {
                assert(parts[m] == q[m]);
            }
            lemma_last_marker_is(parts, n, m);
            if in_step {
                assert(parts.skip(m + 1) =~= q.skip(m + 1).push(p));
                assert(parts.skip(m + 1).drop_last() =~= q.skip(m + 1));
                assert(parts.take(m) =~= q.take(m));
                let c = content_group(q.skip(m + 1));
                match p {
                    Part::Tool(t) => {
                        assert(tool_calls(parts.skip(m + 1)) =~= c.tools.push(t));
                        assert(text_items(parts.skip(m + 1)) =~= c.texts);
                    },
                    Part::File(_) => {
                        assert(text_items(parts.skip(m + 1)) =~= c.texts);
                        assert(tool_calls(parts.skip(m + 1)) =~= c.tools);
                    },
                    _ => {
                        assert(tool_calls(parts.skip(m + 1)) =~= c.tools);
                        match part_text_item(p) {
                            Some(ti) => {
                                assert(text_items(parts.skip(m + 1)) =~= c.texts.push(ti));
                            },
                            None => {
                                assert(text_items(parts.skip(m + 1)) =~= c.texts);
                            },
                        }
                    },
                }
            } else {
                lemma_outside_span(q, p);
            }
        }
    }
}

/// The step groups of a message are its span groups: the content between
/// each step start and the next step marker (or the end), in order, leaving
/// out the spans that hold nothing and every part outside a span.
pub proof fn law_step_groups_by_spans(parts: Seq<Part>)
    ensures
        step_groups(parts) == span_groups(parts),
{
    lemma_fold_by_spans(parts);
    let (gs, cur, in_step) = group_fold(parts);
    if in_step {
        lemma_open_span(parts, last_marker(parts, parts.len() as int));
    }
}

/// Lines of each grouped text item.
pub open spec fn grouped_text_lines(texts: Seq<(Seq<char>, bool)>) -> Seq<
    Seq<Seq<(Seq<char>, Option<Color>)>>,
> {
    texts.map_values(|t: (Seq<char>, bool)| text_item_lines(t.0, t.1, true))
}

/// Lines of each grouped tool call, each followed by a blank line.
pub open spec fn grouped_tool_lines(
    tools: Seq<ToolPart>,
    ctx: MessageContext,
    expanded: Seq<Seq<char>>,
) -> Seq<Seq<Seq<(Seq<char>, Option<Color>)>>> {
    tools.map_values(
        |p: ToolPart|
            tool_lines_spec(p, ctx, expanded).push(Seq::<(Seq<char>, Option<Color>)>::empty()),
    )
}

/// Lines of a group: its text items, its tool calls each followed by a
/// blank line, then two blank lines.
pub open spec fn group_lines(g: GroupView, ctx: MessageContext, expanded: Seq<Seq<char>>) -> Seq<
    Seq<(Seq<char>, Option<Color>)>,
> {
    concat_lines(grouped_text_lines(g.texts)) + concat_lines(
        grouped_tool_lines(g.tools, ctx, expanded),
    ) + seq![Seq::<(Seq<char>, Option<Color>)>::empty(), Seq::<(Seq<char>, Option<Color>)>::empty()]
}

/// Lines of a part outside any step group: text and tool parts only.
pub open spec fn ungrouped_lines(p: Part, ctx: MessageContext, expanded: Seq<Seq<char>>) -> Seq<
    Seq<(Seq<char>, Option<Color>)>,
> {
    match p {
        Part::Text(t) => text_item_lines(t.text@, t.synthetic == Some(true), false),
        Part::Tool(t) => tool_lines_spec(t, ctx, expanded),
        _ => seq![],
    }
}

/// Lines of each part, outside step groups.
pub open spec fn ungrouped_all(parts: Seq<Part>, ctx: MessageContext, expanded: Seq<Seq<char>>) -> Seq<
    Seq<Seq<(Seq<char>, Option<Color>)>>,
> {
    parts.map_values(|p: Part| ungrouped_lines(p, ctx, expanded))
}

/// Lines of each step group.
pub open spec fn groups_all(gs: Seq<GroupView>, ctx: MessageContext, expanded: Seq<Seq<char>>) -> Seq<
    Seq<Seq<(Seq<char>, Option<Color>)>>,
> {
    gs.map_values(|g: GroupView| group_lines(g, ctx, expanded))
}

/// The rendering of a message's parts: by step group when there are any,
/// else part by part.
pub open spec fn render_spec(parts: Seq<Part>, ctx: MessageContext, expanded: Seq<Seq<char>>) -> Seq<
    Seq<(Seq<char>, Option<Color>)>,
> {
    let gs = step_groups(parts);
    if gs.len() == 0 {
        concat_lines(ungrouped_all(parts, ctx, expanded))
    } else {
        concat_lines(groups_all(gs, ctx, expanded))
    }
}

/// A text item of a group.
struct TextItem {
    text: String,
    synthetic: bool,
}

/// A step group, with its tool calls given by their index among the parts.
struct StepGroup {
    texts: Vec<TextItem>,
    tools: Vec<usize>,
    files: usize,
}

spec fn group_view(g: StepGroup, parts: Seq<Part>) -> GroupView {
    GroupView {
        texts: g.texts@.map_values(|t: TextItem| (t.text@, t.synthetic)),
        tools: g.tools@.map_values(|i: usize| parts[i as int]->Tool_0),
        files: g.files as nat,
    }
}

spec fn group_indices_ok(g: StepGroup, parts: Seq<Part>) -> bool {
    forall|k: int|
        0 <= k < g.tools@.len() ==> #[trigger] g.tools@[k] < parts.len() && parts[g.tools@[k] as int] is Tool
}

spec fn groups_view(gs: Seq<StepGroup>, parts: Seq<Part>) -> Seq<GroupView> {
    gs.map_values(|g: StepGroup| group_view(g, parts))
}

fn new_group() -> (g: StepGroup)
    ensures
        g.tools@.len() == 0,
        g.files == 0,
        forall|parts: Seq<Part>| #[trigger] group_view(g, parts) == empty_group(),
{
    let g = StepGroup { texts: Vec::new(), tools: Vec::new(), files: 0 };
    assert forall|parts: Seq<Part>| #[trigger] group_view(g, parts) == empty_group() by {
        assert(group_view(g, parts).texts =~= Seq::<(Seq<char>, bool)>::empty());
        assert(group_view(g, parts).tools =~= Seq::<ToolPart>::empty());
    }
    g
}

fn text_item_of(p: &Part) -> (r: Option<TextItem>)
    ensures
        match r {
            Some(t) => part_text_item(*p) == Some((t.text@, t.synthetic)),
            None => part_text_item(*p) is None,
        },
{
    match p {
        Part::Text(t) => {
            let synthetic = match t.synthetic {
                Some(b) => b,
                None => false,
            };
            Some(TextItem { text: t.text.clone(), synthetic })
        },
        Part::Snapshot(x) => {
            let mut v: Vec<char> = Vec::new();
            push_str(&mut v, "TODO(snapshot) ");
            push_str(&mut v, x.snapshot.as_str());
            Some(TextItem { text: string_from_chars(v.as_slice()), synthetic: false })
        },
        Part::Reasoning(x) => {
            let mut v: Vec<char> = Vec::new();
            push_str(&mut v, "TODO(reasoning) ");
            push_str(&mut v, x.text.as_str());
            Some(TextItem { text: string_from_chars(v.as_slice()), synthetic: false })
        },
        Part::Patch(x) => {
            let mut v: Vec<char> = Vec::new();
            push_str(&mut v, "TODO(patch) files=");
            match strings_to_json_text(&x.files) {
                Some(t) => push_str(&mut v, t.as_str()),
                None => push_str(&mut v, "-"),
            }
            Some(TextItem { text: string_from_chars(v.as_slice()), synthetic: false })
        },
        Part::Agent(x) => {
            let mut v: Vec<char> = Vec::new();
            push_str(&mut v, "TODO(agent) name=");
            push_str(&mut v, x.name.as_str());
            push_str(&mut v, " source=");
            push_str(&mut v, x.source_json.as_str());
            Some(TextItem { text: string_from_chars(v.as_slice()), synthetic: false })
        },
        _ => None,
    }
}

fn group_is_nonempty(g: &StepGroup) -> (b: bool)
    ensures
        forall|parts: Seq<Part>| b == group_nonempty(#[trigger] group_view(*g, parts)),
{
    g.texts.len() > 0 || g.tools.len() > 0 || g.files > 0
}

/// Splits the parts into step groups.
fn group_parts_into_steps(parts: &Vec<Part>) -> (r: Vec<StepGroup>)
    ensures
        groups_view(r@, parts@) == step_groups(parts@),
        forall|k: int| 0 <= k < r@.len() ==> group_indices_ok(#[trigger] r@[k], parts@),
{
    let ghost pv = parts@;
    let mut groups: Vec<StepGroup> = Vec::new();
    let mut cur = new_group();
    let mut in_step = false;
    let mut i: usize = 0;
    assert(groups_view(groups@, pv) =~= Seq::<GroupView>::empty());
    assert(group_view(cur, pv) == empty_group());
    assert(pv.take(0) =~= Seq::<Part>::empty());
    while i < parts.len()
        invariant
            i <= pv.len(),
            pv == parts@,
            (groups_view(groups@, pv), group_view(cur, pv), in_step) == group_fold(pv.take(i as int)),
            forall|k: int| 0 <= k < groups@.len() ==> group_indices_ok(#[trigger] groups@[k], pv),
            group_indices_ok(cur, pv),
            cur.files <= i,
        decreases parts.len() - i,
    {
        assert(pv.take(i + 1).drop_last() =~= pv.take(i as int));
        assert(pv.take(i + 1).last() == pv[i as int]);
        let ghost gs0 = groups_view(groups@, pv);
        let ghost cur0 = group_view(cur, pv);
        match &parts[i] {
            Part::StepStart(_) => {
                if in_step && group_is_nonempty(&cur) {
                    let mut old_cur = new_group();
                    std::mem::swap(&mut old_cur, &mut cur);
                    groups.push(old_cur);
                    assert(groups_view(groups@, pv) =~= gs0.push(cur0));
                } else {
                    cur = new_group();
                }
                in_step = true;
            },
            Part::StepFinish(_) => {
                if in_step {
                    if group_is_nonempty(&cur) {
                        let mut old_cur = new_group();
                    std::mem::swap(&mut old_cur, &mut cur);
                        groups.push(old_cur);
                        assert(groups_view(groups@, pv) =~= gs0.push(cur0));
                    } else {
                        cur = new_group();
                    }
                }
                in_step = false;
            },
            Part::Tool(_) => {
                cur.tools.push(i);
                assert(group_view(cur, pv).tools =~= cur0.tools.push(pv[i as int]->Tool_0));
            },
            Part::File(_) => {
                cur.files = cur.files + 1;
            },
            _ => {
                match text_item_of(&parts[i]) {
                    Some(t) => {
                        let ghost tv = (t.text@, t.synthetic);
                        cur.texts.push(t);
                        assert(group_view(cur, pv).texts =~= cur0.texts.push(tv));
                    },
                    None => {},
                }
            },
        }
        i = i + 1;
    }
    assert(pv.take(i as int) =~= pv);
    if in_step && group_is_nonempty(&cur) {
        let ghost gs0 = groups_view(groups@, pv);
        let ghost cur0 = group_view(cur, pv);
        groups.push(cur);
        assert(groups_view(groups@, pv) =~= gs0.push(cur0));
    }
    groups
}


/// Concatenating one more line sequence appends it.
pub proof fn lemma_concat_push(
    s: Seq<Seq<Seq<(Seq<char>, Option<Color>)>>>,
    y: Seq<Seq<(Seq<char>, Option<Color>)>>,
)
    ensures
        concat_lines(s.push(y)) == concat_lines(s) + y,
{
    assert(s.push(y).drop_last() =~= s);
}

fn blank_lines_after(out: &mut Vec<StyledLine>)
    ensures
        lines_view(final(out)@) == lines_view(old(out)@).push(
            Seq::<(Seq<char>, Option<Color>)>::empty(),
        ),
{
    push_line(out, blank_line());
}

/// The lines of one step group.
fn group_lines_exec(
    g: &StepGroup,
    parts: &Vec<Part>,
    ctx: MessageContext,
    expanded: &Vec<String>,
) -> (r: Vec<StyledLine>)
    requires
        group_indices_ok(*g, parts@),
    ensures
        lines_view(r@) == group_lines(
            group_view(*g, parts@),
            ctx,
            expanded@.map_values(|x: String| x@),
        ),
{
    let ghost ev = expanded@.map_values(|x: String| x@);
    let ghost gv = group_view(*g, parts@);
    let mut out: Vec<StyledLine> = Vec::new();
    let mut i: usize = 0;
    assert(grouped_text_lines(gv.texts.take(0)) =~= Seq::<Seq<Seq<(Seq<char>, Option<Color>)>>>::empty());
    assert(lines_view(out@) =~= Seq::<Seq<(Seq<char>, Option<Color>)>>::empty());
    while i < g.texts.len()
        invariant
            i <= g.texts@.len(),
            gv == group_view(*g, parts@),
            lines_view(out@) == concat_lines(grouped_text_lines(gv.texts.take(i as int))),
        decreases g.texts.len() - i,
    {
        let t = &g.texts[i];
        let ls = text_item_lines_exec(t.text.as_str(), t.synthetic, true);
        proof {
            assert(gv.texts[i as int] == (t.text@, t.synthetic));
            assert(grouped_text_lines(gv.texts.take(i + 1)) =~= grouped_text_lines(
                gv.texts.take(i as int),
            ).push(text_item_lines(t.text@, t.synthetic, true)));
            lemma_concat_push(
                grouped_text_lines(gv.texts.take(i as int)),
                text_item_lines(t.text@, t.synthetic, true),
            );
        }
        append_lines(&mut out, ls);
        i = i + 1;
    }
    assert(gv.texts.take(i as int) =~= gv.texts);
    let ghost after_texts = lines_view(out@);
    let mut tool_out: Vec<StyledLine> = Vec::new();
    let mut j: usize = 0;
    assert(grouped_tool_lines(gv.tools.take(0), ctx, ev) =~= Seq::<Seq<Seq<(Seq<char>, Option<Color>)>>>::empty());
    assert(lines_view(tool_out@) =~= Seq::<Seq<(Seq<char>, Option<Color>)>>::empty());
    while j < g.tools.len()
        invariant
            j <= g.tools@.len(),
            gv == group_view(*g, parts@),
            group_indices_ok(*g, parts@),
            ev == expanded@.map_values(|x: String| x@),
            lines_view(tool_out@) == concat_lines(grouped_tool_lines(gv.tools.take(j as int), ctx, ev)),
        decreases g.tools.len() - j,
    {
        let idx = g.tools[j];
        assert(g.tools@[j as int] < parts@.len());
        match &parts[idx] {
            Part::Tool(t) => {
                let mut ls = tool_lines_exec(t, ctx, expanded);
                blank_lines_after(&mut ls);
                proof {
                    assert(gv.tools[j as int] == *t);
                    let ghost y = tool_lines_spec(*t, ctx, ev).push(
                        Seq::<(Seq<char>, Option<Color>)>::empty(),
                    );
                    assert(grouped_tool_lines(gv.tools.take(j + 1), ctx, ev) =~= grouped_tool_lines(
                        gv.tools.take(j as int),
                        ctx,
                        ev,
                    ).push(y));
                    lemma_concat_push(grouped_tool_lines(gv.tools.take(j as int), ctx, ev), y);
                }
                append_lines(&mut tool_out, ls);
            },
            _ => {
                proof {
                    assert(false);
                }
            },
        }
        j = j + 1;
    }
    assert(gv.tools.take(j as int) =~= gv.tools);
    append_lines(&mut out, tool_out);
    blank_lines_after(&mut out);
    blank_lines_after(&mut out);
    assert(lines_view(out@) =~= group_lines(gv, ctx, ev));
    out
}


/// Renders parts that hold no step markers, part by part.
fn render_ungrouped(parts: &Vec<Part>, ctx: MessageContext, expanded: &Vec<String>) -> (r: Vec<
    StyledLine,
>)
    ensures
        lines_view(r@) == concat_lines(
            ungrouped_all(parts@, ctx, expanded@.map_values(|x: String| x@)),
        ),
{
    let ghost ev = expanded@.map_values(|x: String| x@);
    let mut out: Vec<StyledLine> = Vec::new();
    let mut i: usize = 0;
    assert(ungrouped_all(parts@.take(0), ctx, ev) =~= Seq::<Seq<Seq<(Seq<char>, Option<Color>)>>>::empty());
    assert(lines_view(out@) =~= Seq::<Seq<(Seq<char>, Option<Color>)>>::empty());
    while i < parts.len()
        invariant
            i <= parts@.len(),
            ev == expanded@.map_values(|x: String| x@),
            lines_view(out@) == concat_lines(ungrouped_all(parts@.take(i as int), ctx, ev)),
        decreases parts.len() - i,
    {
        let ghost y = ungrouped_lines(parts@[i as int], ctx, ev);
        proof {
            assert(ungrouped_all(parts@.take(i + 1), ctx, ev) =~= ungrouped_all(
                parts@.take(i as int),
                ctx,
                ev,
            ).push(y));
            lemma_concat_push(ungrouped_all(parts@.take(i as int), ctx, ev), y);
        }
        match &parts[i] {
            Part::Text(t) => {
                let synthetic = match t.synthetic {
                    Some(b) => b,
                    None => false,
                };
                append_lines(&mut out, text_item_lines_exec(t.text.as_str(), synthetic, false));
            },
            Part::Tool(t) => {
                append_lines(&mut out, tool_lines_exec(t, ctx, expanded));
            },
            _ => {
                assert(lines_view(out@) + y =~= lines_view(out@));
            },
        }
        i = i + 1;
    }
    assert(parts@.take(i as int) =~= parts@);
    out
}

/// Renders a message's parts.
fn render_parts(parts: &Vec<Part>, ctx: MessageContext, expanded: &Vec<String>) -> (r: Vec<
    StyledLine,
>)
    ensures
        lines_view(r@) == render_spec(parts@, ctx, expanded@.map_values(|x: String| x@)),
{
    let ghost ev = expanded@.map_values(|x: String| x@);
    let groups = group_parts_into_steps(parts);
    let ghost gv = groups_view(groups@, parts@);
    if groups.len() == 0 {
        return render_ungrouped(parts, ctx, expanded);
    }
    let mut out: Vec<StyledLine> = Vec::new();
    let mut k: usize = 0;
    assert(groups_all(gv.take(0), ctx, ev) =~= Seq::<Seq<Seq<(Seq<char>, Option<Color>)>>>::empty());
    assert(lines_view(out@) =~= Seq::<Seq<(Seq<char>, Option<Color>)>>::empty());
    while k < groups.len()
        invariant
            k <= groups@.len(),
            gv == groups_view(groups@, parts@),
            gv == step_groups(parts@),
            ev == expanded@.map_values(|x: String| x@),
            forall|m: int| 0 <= m < groups@.len() ==> group_indices_ok(#[trigger] groups@[m], parts@),
            lines_view(out@) == concat_lines(groups_all(gv.take(k as int), ctx, ev)),
        decreases groups.len() - k,
    {
        let ghost y = group_lines(gv[k as int], ctx, ev);
        proof {
            assert(groups_all(gv.take(k + 1), ctx, ev) =~= groups_all(gv.take(k as int), ctx, ev).push(y));
            lemma_concat_push(groups_all(gv.take(k as int), ctx, ev), y);
        }
        assert(group_indices_ok(groups@[k as int], parts@));
        append_lines(&mut out, group_lines_exec(&groups[k], parts, ctx, expanded));
        k = k + 1;
    }
    assert(gv.take(k as int) =~= gv);
    out
}

/// Renders a message's parts into lines for the inline view or the
/// full-screen log.
pub struct MessageRenderer<'a> {
    parts: &'a Vec<Part>,
    context: MessageContext,
    expanded_tools: Vec<String>,
}

impl<'a> MessageRenderer<'a> {
    /// The parts rendered.
    pub closed spec fn parts_view(&self) -> Seq<Part> {
        self.parts@
    }

    /// Where the parts are drawn.
    pub closed spec fn context_view(&self) -> MessageContext {
        self.context
    }

    /// Call ids of the tool calls shown expanded.
    pub closed spec fn expanded_view(&self) -> Seq<Seq<char>> {
        self.expanded_tools@.map_values(|x: String| x@)
    }

    /// A renderer of the given parts, with no tool call expanded.
    pub fn new(parts: &'a Vec<Part>, context: MessageContext) -> (r: Self)
        ensures
            r.parts_view() == parts@,
            r.context_view() == context,
            r.expanded_view() == Seq::<Seq<char>>::empty(),
    {
        let r = MessageRenderer { parts, context, expanded_tools: Vec::new() };
        assert(r.expanded_view() =~= Seq::<Seq<char>>::empty());
        r
    }

    /// A renderer of a listed message's parts.
    pub fn from_message(message: &'a SessionMessage, context: MessageContext) -> (r: Self)
        ensures
            r.parts_view() == message.parts@,
            r.context_view() == context,
            r.expanded_view() == Seq::<Seq<char>>::empty(),
    {
        Self::new(&message.parts, context)
    }

    /// A renderer of a stored message's parts, in their order.
    pub fn from_message_container(container: &'a MessageContainer, context: MessageContext) -> (r:
        Self)
        ensures
            r.parts_view() == container.parts@,
            r.context_view() == context,
            r.expanded_view() == Seq::<Seq<char>>::empty(),
    {
        Self::new(&container.parts, context)
    }

    /// The rendered lines.
    pub fn render(&self) -> (r: Vec<StyledLine>)
        ensures
            lines_view(r@) == render_spec(self.parts_view(), self.context_view(), self.expanded_view()),
    {
        render_parts(self.parts, self.context, &self.expanded_tools)
    }

    /// The number of rendered lines, as a `u16` (wrapping).
    pub fn height(&self) -> (h: u16)
        ensures
            h == render_spec(self.parts_view(), self.context_view(), self.expanded_view()).len()
                % 65536,
    {
        let lines = self.render();
        let n: usize = lines.len();
        let h: u16 = #[verifier::truncate] (n as u16);
        assert(h == n % 65536) by (bit_vector)
            requires
                h == n as u16,
        ;
        h
    }
}

} // verus!
