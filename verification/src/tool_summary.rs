//! The one-line summary shown under a tool call: what the call produced,
//! read from its output text and metadata, per tool.

use vstd::prelude::*;
use crate::json::{
    JsonField, JsonValue, as_u64_spec, json_as_u64, json_map_get, json_of_text, map_get,
    parse_json_text,
};
use crate::models::{ToolPart, ToolState};
use crate::text::{
    all_ws, byte_len, byte_len_exec, chars_of, contains_seq, count_nonblank, decimal,
    find_first_nonblank, first_nonblank, is_blank, lines, lines_of, nonblank_count, push_decimal,
    push_str, starts_with_chars, starts_with_seq, str_contains, string_from_chars, trim,
    trim_chars, truncate_output, truncate_spec,
};

verus! {

/// Number of lines of `s` that hold more than whitespace.
pub open spec fn nonblank_lines(s: Seq<char>) -> nat {
    nonblank_count(lines_of(s))
}

/// Byte length of `s` as a `usize` reports it.
pub open spec fn shown_len(s: Seq<char>) -> nat {
    if byte_len(s) <= usize::MAX {
        byte_len(s)
    } else {
        usize::MAX as nat
    }
}

/// `"Found <n><what>"`.
pub open spec fn found_text(n: nat, what: Seq<char>) -> Seq<char> {
    "Found "@ + decimal(n) + what
}

/// Where the todos of a `todowrite` call are read: the metadata's `todos`
/// entry when present, else the output read as JSON (`None` when it is not).
pub open spec fn todos_source(metadata: Seq<JsonField>, output: Seq<char>) -> Option<JsonValue> {
    match map_get(metadata, "todos"@) {
        Some(v) => Some(v),
        None => json_of_text(output),
    }
}

/// The value an optional reference points to.
pub open spec fn deref_opt(v: Option<&JsonValue>) -> Option<JsonValue> {
    match v {
        Some(x) => Some(*x),
        None => None,
    }
}

/// The count line for a todo source: the number of todos when it is an
/// array.
pub open spec fn todo_count_text(source: Option<JsonValue>) -> Seq<char> {
    match source {
        Some(JsonValue::Array(a)) => decimal(a@.len()) + " todos"@,
        _ => "Updated todo list"@,
    }
}

/// Summary of `todowrite`: the number of todos, taken from the metadata's
/// `todos` entry when present, else from the output read as JSON.
pub open spec fn todowrite_summary(metadata: Seq<JsonField>, output: Seq<char>) -> Seq<char> {
    todo_count_text(todos_source(metadata, output))
}

/// Summary of `glob`.
pub open spec fn glob_summary(output: Seq<char>, metadata: Seq<JsonField>) -> Seq<char> {
    match map_get(metadata, "count"@) {
        Some(v) => match as_u64_spec(v) {
            Some(c) => found_text(c as nat, " files"@),
            None => found_text(nonblank_lines(output), " files"@),
        },
        None => if nonblank_lines(output) > 0 {
            found_text(nonblank_lines(output), " files"@)
        } else {
            "No files found"@
        },
    }
}

/// Summary of `grep`.
pub open spec fn grep_summary(output: Seq<char>, metadata: Seq<JsonField>) -> Seq<char> {
    match map_get(metadata, "matches"@) {
        Some(v) => match as_u64_spec(v) {
            Some(m) => if m > 0 {
                found_text(m as nat, " matches"@)
            } else {
                "No matches found"@
            },
            None => "Search completed"@,
        },
        None => if contains_seq(output, "Found"@) && contains_seq(output, "matches"@) {
            if lines_of(output).len() > 0 {
                lines_of(output)[0]
            } else {
                "Search completed"@
            }
        } else if nonblank_lines(output) > 0 {
            found_text(nonblank_lines(output), " matches"@)
        } else {
            "No matches found"@
        },
    }
}

/// Summary of `read`: lines between the `<file>` markers, else the length.
pub open spec fn read_summary(output: Seq<char>) -> Seq<char> {
    if starts_with_seq(output, "<file>"@) && contains_seq(output, "</file>"@) {
        let n = lines_of(output).len();
        "Read "@ + decimal(if n >= 2 { (n - 2) as nat } else { 0 }) + " lines"@
    } else {
        "Read "@ + decimal(shown_len(output)) + " chars"@
    }
}

/// Summary of `write`.
pub open spec fn write_summary(output: Seq<char>) -> Seq<char> {
    if trim(output).len() == 0 || contains_seq(output, "successfully"@) || contains_seq(
        output,
        "created"@,
    ) {
        "File written"@
    } else {
        "Output: "@ + truncate_spec(output, 30)
    }
}

/// Summary of `edit`.
pub open spec fn edit_summary(output: Seq<char>) -> Seq<char> {
    if trim(output).len() == 0 {
        "File edited"@
    } else {
        "Output: "@ + truncate_spec(output, 30)
    }
}

/// Whether `output` mentions a warning.
pub open spec fn mentions_warning(output: Seq<char>) -> bool {
    contains_seq(output, "warning"@) || contains_seq(output, "Warning"@)
}

/// Summary of `bash`, from the exit code in the metadata when present, else
/// from the output text.
pub open spec fn bash_summary(output: Seq<char>, metadata: Seq<JsonField>) -> Seq<char> {
    match map_get(metadata, "exit"@) {
        Some(v) => match as_u64_spec(v) {
            Some(code) => if code == 0 {
                if mentions_warning(output) {
                    "Command completed with warnings"@
                } else if trim(output).len() == 0 {
                    "Command completed successfully"@
                } else {
                    match first_nonblank(lines_of(output)) {
                        Some(l) => truncate_spec(trim(l), 40),
                        None => "Command completed successfully"@,
                    }
                }
            } else {
                "Command failed (exit "@ + decimal(code as nat) + ")"@
            },
            None => "Command completed"@,
        },
        None => if contains_seq(output, "error"@) || contains_seq(output, "Error"@)
            || contains_seq(output, "ERROR"@) {
            "Command failed"@
        } else if mentions_warning(output) {
            "Command completed with warnings"@
        } else if trim(output).len() == 0 {
            "Command completed"@
        } else {
            match first_nonblank(lines_of(output)) {
                Some(l) => truncate_spec(l, 40),
                None => "Command completed"@,
            }
        },
    }
}

/// Summary of `webfetch`.
pub open spec fn webfetch_summary(output: Seq<char>) -> Seq<char> {
    if byte_len(output) > 100 {
        "Fetched "@ + decimal(shown_len(output)) + " chars"@
    } else {
        "Content fetched"@
    }
}

/// Summary of a completed call of `tool`.
pub open spec fn completed_summary(
    tool: Seq<char>,
    output: Seq<char>,
    metadata: Seq<JsonField>,
) -> Seq<char> {
    if tool == "todowrite"@ {
        todowrite_summary(metadata, output)
    } else if tool == "glob"@ {
        glob_summary(output, metadata)
    } else if tool == "grep"@ {
        grep_summary(output, metadata)
    } else if tool == "read"@ {
        read_summary(output)
    } else if tool == "write"@ {
        write_summary(output)
    } else if tool == "edit"@ {
        edit_summary(output)
    } else if tool == "list"@ {
        found_text(nonblank_lines(output), " items"@)
    } else if tool == "bash"@ {
        bash_summary(output, metadata)
    } else if tool == "webfetch"@ {
        webfetch_summary(output)
    } else {
        truncate_spec(output, 50)
    }
}

/// The summary line of a tool call, by state.
pub open spec fn tool_summary_spec(p: ToolPart) -> Seq<char> {
    match p.state {
        ToolState::Completed { output, metadata, .. } => completed_summary(
            p.tool@,
            output@,
            metadata@,
        ),
        ToolState::Running { .. } => "Running..."@,
        ToolState::Pending => "Pending..."@,
        ToolState::Error { error, .. } => "Error: "@ + truncate_spec(error@, 40),
    }
}

fn nonblank_lines_exec(s: &[char]) -> (n: usize)
    ensures
        n == nonblank_lines(s@),
{
    let ls = lines(s);
    count_nonblank(&ls)
}

fn found_exec(n: u64, what: &str) -> (r: Vec<char>)
    ensures
        r@ == found_text(n as nat, what@),
{
    let mut r: Vec<char> = Vec::new();
    push_str(&mut r, "Found ");
    push_decimal(&mut r, n);
    push_str(&mut r, what);
    r
}

fn text_of(s: &str) -> (r: Vec<char>)
    ensures
        r@ == s@,
{
    chars_of(s)
}

fn todo_count_exec(source: Option<&JsonValue>) -> (r: Vec<char>)
    ensures
        r@ == todo_count_text(deref_opt(source)),
{
    match source {
        Some(JsonValue::Array(a)) => {
            let mut r: Vec<char> = Vec::new();
            push_decimal(&mut r, a.len() as u64);
            push_str(&mut r, " todos");
            r
        },
        _ => text_of("Updated todo list"),
    }
}

/// The count line of a `todowrite` call for the todos read from `source`:
/// `"<n> todos"` when it is an array of `n` items, else `"Updated todo list"`.
pub fn todo_count_summary(source: Option<&JsonValue>) -> (r: String)
    ensures
        r@ == todo_count_text(deref_opt(source)),
{
    let v = todo_count_exec(source);
    string_from_chars(v.as_slice())
}

fn todowrite_exec(metadata: &Vec<JsonField>, output: &str) -> (r: Vec<char>)
    ensures
        r@ == todowrite_summary(metadata@, output@),
{
    match json_map_get(metadata, "todos") {
        Some(v) => todo_count_exec(Some(v)),
        None => {
            let parsed = parse_json_text(output);
            todo_count_exec(parsed.as_ref())
        },
    }
}

fn glob_exec(output: &[char], metadata: &Vec<JsonField>) -> (r: Vec<char>)
    ensures
        r@ == glob_summary(output@, metadata@),
{
    match json_map_get(metadata, "count") {
        Some(v) => match json_as_u64(v) {
            Some(c) => found_exec(c, " files"),
            None => found_exec(nonblank_lines_exec(output) as u64, " files"),
        },
        None => {
            let n = nonblank_lines_exec(output);
            if n > 0 {
                found_exec(n as u64, " files")
            } else {
                text_of("No files found")
            }
        },
    }
}

fn grep_exec(output: &[char], metadata: &Vec<JsonField>) -> (r: Vec<char>)
    ensures
        r@ == grep_summary(output@, metadata@),
{
    match json_map_get(metadata, "matches") {
        Some(v) => match json_as_u64(v) {
            Some(m) => if m > 0 {
                found_exec(m, " matches")
            } else {
                text_of("No matches found")
            },
            None => text_of("Search completed"),
        },
        None => {
            let f = chars_of("Found");
            let m = chars_of("matches");
            if crate::text::contains_chars(output, f.as_slice()) && crate::text::contains_chars(
                output,
                m.as_slice(),
            ) {
                let ls = lines(output);
                if ls.len() > 0 {
                    proof {
                        assert(ls@.map_values(|w: Vec<char>| w@)[0] == ls@[0]@);
                    }
                    let mut r: Vec<char> = Vec::new();
                    crate::text::push_all(&mut r, ls[0].as_slice());
                    r
                } else {
                    text_of("Search completed")
                }
            } else {
                let n = nonblank_lines_exec(output);
                if n > 0 {
                    found_exec(n as u64, " matches")
                } else {
                    text_of("No matches found")
                }
            }
        },
    }
}

fn read_exec(output: &[char]) -> (r: Vec<char>)
    ensures
        r@ == read_summary(output@),
{
    let open = chars_of("<file>");
    let close = chars_of("</file>");
    let mut r: Vec<char> = Vec::new();
    push_str(&mut r, "Read ");
    if starts_with_chars(output, open.as_slice()) && crate::text::contains_chars(
        output,
        close.as_slice(),
    ) {
        let ls = lines(output);
        proof {
            assert(ls@.map_values(|w: Vec<char>| w@).len() == ls@.len());
        }
        let n: usize = if ls.len() >= 2 {
            ls.len() - 2
        } else {
            0
        };
        push_decimal(&mut r, n as u64);
        push_str(&mut r, " lines");
    } else {
        let n = byte_len_exec(output);
        push_decimal(&mut r, n as u64);
        push_str(&mut r, " chars");
    }
    r
}

fn output_prefixed(output: &[char], max_len: usize) -> (r: Vec<char>)
    ensures
        r@ == "Output: "@ + truncate_spec(output@, max_len as nat),
{
    let mut r: Vec<char> = Vec::new();
    push_str(&mut r, "Output: ");
    let t = truncate_output(output, max_len);
    crate::text::push_all(&mut r, t.as_slice());
    r
}

fn write_exec(output: &[char]) -> (r: Vec<char>)
    ensures
        r@ == write_summary(output@),
{
    let s1 = chars_of("successfully");
    let s2 = chars_of("created");
    if is_blank(output) || crate::text::contains_chars(output, s1.as_slice())
        || crate::text::contains_chars(output, s2.as_slice()) {
        text_of("File written")
    } else {
        output_prefixed(output, 30)
    }
}

fn edit_exec(output: &[char]) -> (r: Vec<char>)
    ensures
        r@ == edit_summary(output@),
{
    if is_blank(output) {
        text_of("File edited")
    } else {
        output_prefixed(output, 30)
    }
}

fn mentions_warning_exec(output: &[char]) -> (b: bool)
    ensures
        b == mentions_warning(output@),
{
    let w1 = chars_of("warning");
    let w2 = chars_of("Warning");
    crate::text::contains_chars(output, w1.as_slice()) || crate::text::contains_chars(
        output,
        w2.as_slice(),
    )
}

/// The first line of `output` that holds more than whitespace, truncated to
/// `max_len` bytes, trimmed first when `trimmed`; `fallback` when there is none.
fn first_line_summary(output: &[char], trimmed: bool, max_len: usize, fallback: &str) -> (r: Vec<
    char,
>)
    ensures
        r@ == match first_nonblank(lines_of(output@)) {
            Some(l) => truncate_spec(if trimmed { trim(l) } else { l }, max_len as nat),
            None => fallback@,
        },
{
    let ls = lines(output);
    match find_first_nonblank(&ls) {
        Some(i) => {
            if trimmed {
                let t = trim_chars(ls[i].as_slice());
                truncate_output(t.as_slice(), max_len)
            } else {
                truncate_output(ls[i].as_slice(), max_len)
            }
        },
        None => text_of(fallback),
    }
}

fn bash_exec(output: &[char], metadata: &Vec<JsonField>) -> (r: Vec<char>)
    ensures
        r@ == bash_summary(output@, metadata@),
{
    match json_map_get(metadata, "exit") {
        Some(v) => match json_as_u64(v) {
            Some(code) => if code == 0 {
                if mentions_warning_exec(output) {
                    text_of("Command completed with warnings")
                } else if is_blank(output) {
                    text_of("Command completed successfully")
                } else {
                    first_line_summary(output, true, 40, "Command completed successfully")
                }
            } else {
                let mut r: Vec<char> = Vec::new();
                push_str(&mut r, "Command failed (exit ");
                push_decimal(&mut r, code);
                push_str(&mut r, ")");
                r
            },
            None => text_of("Command completed"),
        },
        None => {
            let e1 = chars_of("error");
            let e2 = chars_of("Error");
            let e3 = chars_of("ERROR");
            if crate::text::contains_chars(output, e1.as_slice()) || crate::text::contains_chars(
                output,
                e2.as_slice(),
            ) || crate::text::contains_chars(output, e3.as_slice()) {
                text_of("Command failed")
            } else if mentions_warning_exec(output) {
                text_of("Command completed with warnings")
            } else if is_blank(output) {
                text_of("Command completed")
            } else {
                first_line_summary(output, false, 40, "Command completed")
            }
        },
    }
}

fn webfetch_exec(output: &[char]) -> (r: Vec<char>)
    ensures
        r@ == webfetch_summary(output@),
{
    let n = byte_len_exec(output);
    if n > 100 {
        let mut r: Vec<char> = Vec::new();
        push_str(&mut r, "Fetched ");
        push_decimal(&mut r, n as u64);
        push_str(&mut r, " chars");
        r
    } else {
        text_of("Content fetched")
    }
}

fn completed_exec(
    tool: &str,
    output: &str,
    metadata: &Vec<JsonField>,
) -> (r: Vec<char>)
    ensures
        r@ == completed_summary(tool@, output@, metadata@),
{
    let out = chars_of(output);
    let o = out.as_slice();
    if crate::json::str_eq_strs(tool, "todowrite") {
        todowrite_exec(metadata, output)
    } else if crate::json::str_eq_strs(tool, "glob") {
        glob_exec(o, metadata)
    } else if crate::json::str_eq_strs(tool, "grep") {
        grep_exec(o, metadata)
    } else if crate::json::str_eq_strs(tool, "read") {
        read_exec(o)
    } else if crate::json::str_eq_strs(tool, "write") {
        write_exec(o)
    } else if crate::json::str_eq_strs(tool, "edit") {
        edit_exec(o)
    } else if crate::json::str_eq_strs(tool, "list") {
        found_exec(nonblank_lines_exec(o) as u64, " items")
    } else if crate::json::str_eq_strs(tool, "bash") {
        bash_exec(o, metadata)
    } else if crate::json::str_eq_strs(tool, "webfetch") {
        webfetch_exec(o)
    } else {
        truncate_output(o, 50)
    }
}

/// The summary line shown under a tool call.
pub fn format_tool_result_summary(tool_part: &ToolPart) -> (r: String)
    ensures
        r@ == tool_summary_spec(*tool_part),
{
    let v: Vec<char> = match &tool_part.state {
        ToolState::Completed { output, metadata, .. } => completed_exec(
            tool_part.tool.as_str(),
            output.as_str(),
            metadata,
        ),
        ToolState::Running { .. } => text_of("Running..."),
        ToolState::Pending => text_of("Pending..."),
        ToolState::Error { error, .. } => {
            let mut r: Vec<char> = Vec::new();
            push_str(&mut r, "Error: ");
            let e = chars_of(error.as_str());
            let t = truncate_output(e.as_slice(), 40);
            crate::text::push_all(&mut r, t.as_slice());
            r
        },
    };
    string_from_chars(v.as_slice())
}

proof fn lemma_first_nonblank_is_a_line(ls: Seq<Seq<char>>)
    ensures
        first_nonblank(ls) matches Some(l) ==> ls.contains(l) && !all_ws(l),
    decreases ls.len(),
{
    if ls.len() > 0 && all_ws(ls[0]) {
        lemma_first_nonblank_is_a_line(ls.drop_first());
        match first_nonblank(ls.drop_first()) {
            Some(l) => {
                let j = choose|j: int| 0 <= j < ls.drop_first().len() && ls.drop_first()[j] == l;
                assert(ls[j + 1] == l);
            },
            None => {},
        }
    } else if ls.len() > 0 {
        assert(ls[0] == ls[0]);
    }
}

/// With an exit code in the metadata, a bash call is summarised as failed
/// exactly when the code is non-zero, as `Command failed (exit <code>)`;
/// with code 0 the summary reports completion (with warnings when the
/// output mentions one) or shows a line of the output that holds more than
/// whitespace, trimmed and cut to 40 bytes.
pub proof fn law_bash_exit_code_decides(output: Seq<char>, metadata: Seq<JsonField>, v: JsonValue, code: u64)
    requires
        map_get(metadata, "exit"@) == Some(v),
        as_u64_spec(v) == Some(code),
    ensures
        code != 0 ==> bash_summary(output, metadata) == "Command failed (exit "@ + decimal(code as nat)
            + ")"@,
        code == 0 ==> {
            ||| bash_summary(output, metadata) == "Command completed with warnings"@ && mentions_warning(output)
            ||| bash_summary(output, metadata) == "Command completed successfully"@ && !mentions_warning(output)
            ||| exists|l: Seq<char>|
                lines_of(output).contains(l) && !all_ws(l) && !mentions_warning(output)
                    && bash_summary(output, metadata) == truncate_spec(trim(l), 40)
        },
{
    lemma_first_nonblank_is_a_line(lines_of(output));
    if code == 0 && !mentions_warning(output) && trim(output).len() != 0 {
        match first_nonblank(lines_of(output)) {
            Some(l) => {
                assert(lines_of(output).contains(l) && !all_ws(l));
            },
            None => {},
        }
    }
}

} // verus!
