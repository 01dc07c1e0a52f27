//! Where the last used session is remembered, and how the saved file is read.

use vstd::prelude::*;
use crate::error::OpenCodeError;
use crate::models::Session;
use crate::text::{
    chars_of, ends_with_seq, is_ws, push_str, string_from_chars, trim, trim_chars, trim_end, trim_start,
};

verus! {

/// `Path::join` of a relative component onto `base`.
pub open spec fn path_join(base: Seq<char>, comp: Seq<char>) -> Seq<char> {
    if base.len() == 0 {
        comp
    } else if base.last() == '/' {
        base + comp
    } else {
        base + seq!['/'] + comp
    }
}

/// Joins a relative path component onto a base path.
pub fn join_path(base: &str, comp: &str) -> (r: String)
    ensures
        r@ == path_join(base@, comp@),
{
    let b = chars_of(base);
    let mut out: Vec<char> = Vec::new();
    if b.len() == 0 {
        push_str(&mut out, comp);
    } else if b[b.len() - 1] == '/' {
        push_str(&mut out, base);
        push_str(&mut out, comp);
    } else {
        push_str(&mut out, base);
        out.push('/');
        push_str(&mut out, comp);
        assert(out@ =~= base@ + seq!['/'] + comp@);
    }
    string_from_chars(out.as_slice())
}

/// The state directory: `$HOME/.opencode`, or `.opencode` without a home.
pub fn state_dir_from_home(home: Option<&str>) -> (r: String)
    ensures
        match home {
            Some(h) => r@ == path_join(h@, ".opencode"@),
            None => r@ == ".opencode"@,
        },
{
    match home {
        Some(h) => join_path(h, ".opencode"),
        None => ".opencode".to_string(),
    }
}

/// The file holding the last session id inside the state directory.
pub fn last_session_file(state_dir: &str) -> (r: String)
    ensures
        r@ == path_join(state_dir@, "last_session"@),
{
    join_path(state_dir, "last_session")
}

/// Reads the saved session id from the file's contents: the trimmed text,
/// or a persistence error when nothing but whitespace is saved.
pub fn parse_saved_session_id(content: &str) -> (r: Result<String, OpenCodeError>)
    ensures
        trim(content@).len() > 0 ==> (r matches Ok(id) && id@ == trim(content@)),
        trim(content@).len() == 0 ==> (r matches Err(OpenCodeError::SessionPersistence(m)) && m@
            == "Empty session ID"@),
{
    let c = chars_of(content);
    let t = trim_chars(c.as_slice());
    if t.len() == 0 {
        Err(OpenCodeError::session_persistence_error("Empty session ID"))
    } else {
        Ok(string_from_chars(t.as_slice()))
    }
}

/// The error reported when no session was saved.
pub fn no_saved_session_error() -> (e: OpenCodeError)
    ensures
        e matches OpenCodeError::SessionPersistence(m) && m@ == "No saved session"@,
{
    OpenCodeError::session_persistence_error("No saved session")
}

/// Position of the first session with the given id.
pub fn find_session_by_id(sessions: &Vec<Session>, id: &str) -> (r: Option<usize>)
    ensures
        match r {
            Some(i) => i < sessions@.len() && sessions@[i as int].id@ == id@ && forall|k: int|
                0 <= k < i ==> sessions@[k].id@ != id@,
            None => forall|k: int| 0 <= k < sessions@.len() ==> sessions@[k].id@ != id@,
        },
{
    let mut i: usize = 0;
    while i < sessions.len()
        invariant
            i <= sessions@.len(),
            forall|k: int| 0 <= k < i ==> sessions@[k].id@ != id@,
        decreases sessions.len() - i,
    {
        if crate::json::str_eq_strs(sessions[i].id.as_str(), id) {
            return Some(i);
        }
        i = i + 1;
    }
    None
}


/// A saved session id reads back unchanged when it does not begin or end
/// with whitespace (as the server's ids do not).
pub proof fn law_saved_id_reads_back(id: Seq<char>)
    requires
        id.len() > 0,
        !is_ws(id[0]),
        !is_ws(id.last()),
    ensures
        trim(id) == id,
        trim(id).len() > 0,
{
    assert(trim_start(id) == id);
    assert(trim_end(id) == id);
}

} // verus!
