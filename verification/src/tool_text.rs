//! The one-line descriptions of tool calls: their arguments and a summary
//! of their result.

use vstd::prelude::*;
use crate::json::{JsonField, JsonValue, get_str, json_get_str, str_eq_strs};
use crate::models::{ToolPart, ToolState};
use crate::text::{
    after_last, after_last_exec, all_ws, byte_len, byte_len_exec, chars_of, contains_chars,
    contains_seq, count_nonblank, decimal, find_first_nonblank, find_seq, first_nonblank, is_blank,
    lines, lines_of, nonblank_count, occurs_at, push_all, push_decimal, push_str, starts_with_chars,
    starts_with_seq, string_from_chars, sub_chars, trim, trim_chars, truncate_output, truncate_spec,
};

verus! {

/// First position at which `pat` occurs in `s`, or -1.
#[verifier::opaque]
pub open spec fn find_spec(s: Seq<char>, pat: Seq<char>) -> int {
    if exists|i: int| occurs_at(s, pat, i) {
        choose|i: int| occurs_at(s, pat, i) && forall|j: int| 0 <= j < i ==> !occurs_at(s, pat, j)
    } else {
        -1
    }
}

proof fn lemma_find_spec(s: Seq<char>, pat: Seq<char>, i: int)
    requires
        occurs_at(s, pat, i),
        forall|j: int| 0 <= j < i ==> !occurs_at(s, pat, j),
    ensures
        find_spec(s, pat) == i,
{
    reveal(find_spec);
    assert(exists|k: int| occurs_at(s, pat, k));
    let k = choose|k: int| occurs_at(s, pat, k) && forall|j: int| 0 <= j < k ==> !occurs_at(s, pat, j);
    assert(occurs_at(s, pat, k) && forall|j: int| 0 <= j < k ==> !occurs_at(s, pat, j));
    if k < i {
        assert(!occurs_at(s, pat, k));
    } else if k > i {
        assert(!occurs_at(s, pat, i));
    }
}

/// First position of `pat` in `s`.
fn find_index(s: &[char], pat: &[char]) -> (r: Option<usize>)
    ensures
        match r {
            Some(i) => find_spec(s@, pat@) == i && occurs_at(s@, pat@, i as int),
            None => find_spec(s@, pat@) == -1,
        },
{
    match find_seq(s, pat) {
        Some(i) => {
            proof {
                lemma_find_spec(s@, pat@, i as int);
            }
            Some(i)
        },
        None => {
            proof {
                reveal(find_spec);
            }
            None
        },
    }
}

/// What follows position `ds` of a URL up to the next `/`.
pub open spec fn domain_after(url: Seq<char>, ds: int) -> Seq<char> {
    let rest = url.skip(ds);
    let p = find_spec(rest, "/"@);
    if p >= 0 {
        url.subrange(ds, ds + p)
    } else {
        rest
    }
}

/// The domain part of a URL: the text between `://` and the next `/`, for
/// `http://` and `https://` URLs; other text is kept whole.
pub open spec fn url_domain(url: Seq<char>) -> Seq<char> {
    if (starts_with_seq(url, "http://"@) || starts_with_seq(url, "https://"@)) && find_spec(
        url,
        "://"@,
    ) >= 0 {
        domain_after(url, find_spec(url, "://"@) + 3)
    } else {
        url
    }
}

/// The argument a tool call shows, read from its input: the command for
/// `bash`, the file name for file tools (`patch` only when `with_patch`), a
/// quoted pattern for searches, the directory name for `list`, a fixed label
/// for the todo tools, the domain for `webfetch`; nothing otherwise.
pub open spec fn tool_arg_spec(tool: Seq<char>, input: Seq<JsonField>, with_patch: bool) -> Seq<
    char,
> {
    let s = |k: Seq<char>| get_str(input, k);
    if tool == "bash"@ {
        match s("command"@) {
            Some(c) => c,
            None => seq![],
        }
    } else if tool == "read"@ || tool == "write"@ || tool == "edit"@ || (with_patch && tool
        == "patch"@) {
        match s("filePath"@) {
            Some(p) => after_last(p, '/'),
            None => seq![],
        }
    } else if tool == "glob"@ || tool == "grep"@ {
        match s("pattern"@) {
            Some(p) => "pattern: \""@ + p + "\""@,
            None => seq![],
        }
    } else if tool == "list"@ {
        match s("path"@) {
            Some(p) => after_last(p, '/'),
            None => seq![],
        }
    } else if tool == "todowrite"@ {
        "Update Todos"@
    } else if tool == "todoread"@ {
        "Read Todos"@
    } else if tool == "webfetch"@ {
        match s("url"@) {
            Some(u) => url_domain(u),
            None => seq![],
        }
    } else {
        seq![]
    }
}

fn field_str<'a>(input: &'a Vec<JsonField>, key: &str) -> (r: Option<&'a str>)
    ensures
        match r {
            Some(x) => get_str(input@, key@) == Some(x@),
            None => get_str(input@, key@) is None,
        },
{
    json_get_str(input, key)
}

fn domain_after_exec(u: &[char], ds: usize) -> (r: Vec<char>)
    requires
        ds <= u@.len(),
    ensures
        r@ == domain_after(u@, ds as int),
{
    let rest = sub_chars(u, ds, u.len());
    assert(rest@ =~= u@.skip(ds as int));
    let slash = chars_of("/");
    match find_index(rest.as_slice(), slash.as_slice()) {
        Some(p) => sub_chars(u, ds, ds + p),
        None => rest,
    }
}

fn url_domain_exec(url: &str) -> (r: Vec<char>)
    ensures
        r@ == url_domain(url@),
{
    let u = chars_of(url);
    let h1 = chars_of("http://");
    let h2 = chars_of("https://");
    if starts_with_chars(u.as_slice(), h1.as_slice()) || starts_with_chars(u.as_slice(), h2.as_slice()) {
        let sep = chars_of("://");
        match find_index(u.as_slice(), sep.as_slice()) {
            Some(f) => {
                proof {
                    reveal_strlit("://");
                    assert(sep@.len() == 3);
                    assert(f + 3 <= u@.len());
                    assert(u@.len() == u.len());
                }
                let ds: usize = f + 3;
                domain_after_exec(u.as_slice(), ds)
            },
            None => u,
        }
    } else {
        u
    }
}

fn push_field_or_nothing(out: &mut Vec<char>, v: Option<&str>)
    ensures
        final(out)@ == old(out)@ + match v {
            Some(x) => x@,
            None => Seq::<char>::empty(),
        },
{
    match v {
        Some(x) => push_str(out, x),
        None => {
            assert(old(out)@ + Seq::<char>::empty() =~= old(out)@);
        },
    }
}

fn tool_arg(tool: &str, input: &Vec<JsonField>, with_patch: bool) -> (r: String)
    ensures
        r@ == tool_arg_spec(tool@, input@, with_patch),
{
    let mut out: Vec<char> = Vec::new();
    if str_eq_strs(tool, "bash") {
        push_field_or_nothing(&mut out, field_str(input, "command"));
    } else if str_eq_strs(tool, "read") || str_eq_strs(tool, "write") || str_eq_strs(tool, "edit")
        || (with_patch && str_eq_strs(tool, "patch")) {
        match field_str(input, "filePath") {
            Some(p) => {
                let pc = chars_of(p);
                out = after_last_exec(pc.as_slice(), '/');
            },
            None => {},
        }
    } else if str_eq_strs(tool, "glob") || str_eq_strs(tool, "grep") {
        match field_str(input, "pattern") {
            Some(p) => {
                push_str(&mut out, "pattern: \"");
                push_str(&mut out, p);
                push_str(&mut out, "\"");
            },
            None => {},
        }
    } else if str_eq_strs(tool, "list") {
        match field_str(input, "path") {
            Some(p) => {
                let pc = chars_of(p);
                out = after_last_exec(pc.as_slice(), '/');
            },
            None => {},
        }
    } else if str_eq_strs(tool, "todowrite") {
        push_str(&mut out, "Update Todos");
    } else if str_eq_strs(tool, "todoread") {
        push_str(&mut out, "Read Todos");
    } else if str_eq_strs(tool, "webfetch") {
        match field_str(input, "url") {
            Some(u) => {
                out = url_domain_exec(u);
            },
            None => {},
        }
    }
    assert(out@ =~= tool_arg_spec(tool@, input@, with_patch));
    string_from_chars(out.as_slice())
}

/// The argument text of a tool call with the given input map.
pub fn parse_tool_input(tool_name: &str, input: &Vec<JsonField>) -> (r: String)
    ensures
        r@ == tool_arg_spec(tool_name@, input@, false),
{
    tool_arg(tool_name, input, false)
}

/// The argument text of a running tool call with the given input object;
/// unlike `parse_tool_input` it also names `patch`'s file.
pub fn parse_tool_input_from_value(tool_name: &str, input: &Vec<JsonField>) -> (r: String)
    ensures
        r@ == tool_arg_spec(tool_name@, input@, true),
{
    tool_arg(tool_name, input, true)
}

/// The argument text shown for a tool call, by state: completed and failed
/// calls read their input map, running calls their input object (when the
/// input is an object), pending calls show nothing.
pub open spec fn tool_args_spec(p: ToolPart) -> Seq<char> {
    match p.state {
        ToolState::Completed { input, .. } => tool_arg_spec(p.tool@, input@, false),
        ToolState::Running { input } => match input {
            Some(JsonValue::Object(o)) => tool_arg_spec(p.tool@, o@, true),
            _ => seq![],
        },
        ToolState::Error { input, .. } => tool_arg_spec(p.tool@, input@, false),
        ToolState::Pending => seq![],
    }
}

/// The argument text shown for a tool call.
pub fn format_tool_args(tool_part: &ToolPart) -> (r: String)
    ensures
        r@ == tool_args_spec(*tool_part),
{
    match &tool_part.state {
        ToolState::Completed { input, .. } => parse_tool_input(tool_part.tool.as_str(), input),
        ToolState::Running { input } => match input {
            Some(JsonValue::Object(o)) => parse_tool_input_from_value(tool_part.tool.as_str(), o),
            _ => String::new(),
        },
        ToolState::Error { input, .. } => parse_tool_input(tool_part.tool.as_str(), input),
        ToolState::Pending => String::new(),
    }
}

} // verus!
