//! Character-level text helpers with exact specifications.
//!
//! Strings are viewed as `Seq<char>`. The helpers mirror the behaviour of the
//! standard string operations the client relies on (`trim`, `lines`,
//! `split_whitespace`, `contains`, number formatting and parsing).

use vstd::prelude::*;
use vstd::string::*;

verus! {

/// The Unicode `White_Space` property, which `char::is_whitespace` tests.
pub open spec fn is_ws(c: char) -> bool {
    let n = c as u32;
    ||| (9 <= n && n <= 13)
    ||| n == 32
    ||| n == 0x85
    ||| n == 0xA0
    ||| n == 0x1680
    ||| (0x2000 <= n && n <= 0x200A)
    ||| n == 0x2028
    ||| n == 0x2029
    ||| n == 0x202F
    ||| n == 0x205F
    ||| n == 0x3000
}

/// Whether `c` is a whitespace character.
pub fn is_whitespace_char(c: char) -> (b: bool)
    ensures
        b == is_ws(c),
{
    let n = c as u32;
    (9 <= n && n <= 13) || n == 32 || n == 0x85 || n == 0xA0 || n == 0x1680 || (0x2000 <= n
        && n <= 0x200A) || n == 0x2028 || n == 0x2029 || n == 0x202F || n == 0x205F || n == 0x3000
}

/// The characters of a string slice, in order.
pub fn chars_of(s: &str) -> (v: Vec<char>)
    ensures
        v@ == s@,
{
    let n = s.unicode_len();
    let mut v: Vec<char> = Vec::new();
    for i in 0..n
        invariant
            n == s@.len(),
            v@ == s@.take(i as int),
    {
        let c = s.get_char(i);
        v.push(c);
        assert(s@.take(i + 1) =~= s@.take(i as int).push(c));
    }
    assert(s@.take(n as int) =~= s@);
    v
}

/// Builds a `String` holding exactly the given characters.
/// The contract says that collecting a slice of characters with
/// `Iterator::collect` yields a string whose characters are those of the slice.
#[verifier::external_body]
pub fn string_from_chars(chars: &[char]) -> (s: String)
    ensures
        s@ == chars@,
{
    chars.iter().collect()
}

/// Appends a character sequence to a vector of characters.
pub fn push_all(dst: &mut Vec<char>, src: &[char])
    ensures
        final(dst)@ == old(dst)@ + src@,
{
    let n = src.len();
    for i in 0..n
        invariant
            n == src@.len(),
            dst@ == old(dst)@ + src@.take(i as int),
    {
        dst.push(src[i]);
        assert(src@.take(i + 1) =~= src@.take(i as int).push(src@[i as int]));
    }
    assert(src@.take(n as int) =~= src@);
}

/// Appends the characters of a string slice.
pub fn push_str(dst: &mut Vec<char>, src: &str)
    ensures
        final(dst)@ == old(dst)@ + src@,
{
    let cs = chars_of(src);
    push_all(dst, cs.as_slice());
}

// ---------------------------------------------------------------------------
// Trimming
// ---------------------------------------------------------------------------

/// Removes leading whitespace.
pub open spec fn trim_start(s: Seq<char>) -> Seq<char>
    decreases s.len(),
{
    if s.len() > 0 && is_ws(s[0]) {
        trim_start(s.drop_first())
    } else {
        s
    }
}

/// Removes trailing whitespace.
pub open spec fn trim_end(s: Seq<char>) -> Seq<char>
    decreases s.len(),
{
    if s.len() > 0 && is_ws(s.last()) {
        trim_end(s.drop_last())
    } else {
        s
    }
}

/// Removes leading and trailing whitespace, as `str::trim` does.
pub open spec fn trim(s: Seq<char>) -> Seq<char> {
    trim_end(trim_start(s))
}

proof fn lemma_trim_start_skip(s: Seq<char>, i: int)
    requires
        0 <= i <= s.len(),
        forall|k: int| 0 <= k < i ==> is_ws(#[trigger] s[k]),
    ensures
        trim_start(s) == trim_start(s.skip(i)),
    decreases i,
{
    if i > 0 {
        assert(s.drop_first().skip(i - 1) =~= s.skip(i));
        lemma_trim_start_skip(s.drop_first(), i - 1);
    } else {
        assert(s.skip(0) =~= s);
    }
}

proof fn lemma_trim_end_take(s: Seq<char>, j: int)
    requires
        0 <= j <= s.len(),
        forall|k: int| j <= k < s.len() ==> is_ws(#[trigger] s[k]),
    ensures
        trim_end(s) == trim_end(s.take(j)),
    decreases s.len() - j,
{
    if j < s.len() {
        assert(s.drop_last().take(j) =~= s.take(j));
        lemma_trim_end_take(s.drop_last(), j);
    } else {
        assert(s.take(j) =~= s);
    }
}

/// Index of the first non-whitespace character (or the length).
fn first_non_ws(s: &[char]) -> (i: usize)
    ensures
        i <= s@.len(),
        trim_start(s@) == s@.skip(i as int),
{
    let mut i: usize = 0;
    while i < s.len() && is_whitespace_char(s[i])
        invariant
            i <= s@.len(),
            forall|k: int| 0 <= k < i ==> is_ws(#[trigger] s@[k]),
        decreases s.len() - i,
    {
        i = i + 1;
    }
    proof {
        lemma_trim_start_skip(s@, i as int);
    }
    i
}

/// Trailing-whitespace-free length of `s[..end]`.
fn last_non_ws_end(s: &[char], start: usize) -> (j: usize)
    requires
        start <= s@.len(),
    ensures
        start <= j <= s@.len(),
        trim_end(s@.skip(start as int)) == s@.subrange(start as int, j as int),
{
    let mut j: usize = s.len();
    while j > start && is_whitespace_char(s[j - 1])
        invariant
            start <= j <= s@.len(),
            forall|k: int| j <= k < s@.len() ==> is_ws(#[trigger] s@[k]),
        decreases j - start,
    {
        j = j - 1;
    }
    proof {
        let t = s@.skip(start as int);
        assert forall|k: int| (j - start) <= k < t.len() implies is_ws(#[trigger] t[k]) by {
            assert(t[k] == s@[k + start]);
        }
        lemma_trim_end_take(t, j - start);
        assert(t.take(j - start) =~= s@.subrange(start as int, j as int));
    }
    j
}

/// `str::trim` on a character vector.
pub fn trim_chars(s: &[char]) -> (r: Vec<char>)
    ensures
        r@ == trim(s@),
{
    let i = first_non_ws(s);
    let j = last_non_ws_end(s, i);
    let mut r: Vec<char> = Vec::new();
    let mut k = i;
    while k < j
        invariant
            i <= k <= j <= s@.len(),
            r@ == s@.subrange(i as int, k as int),
        decreases j - k,
    {
        r.push(s[k]);
        assert(s@.subrange(i as int, k + 1) =~= s@.subrange(i as int, k as int).push(s@[k as int]));
        k = k + 1;
    }
    r
}

/// `str::trim_end` on a character vector.
pub fn trim_end_chars(s: &[char]) -> (r: Vec<char>)
    ensures
        r@ == trim_end(s@),
{
    let j = last_non_ws_end(s, 0);
    assert(s@.skip(0) =~= s@);
    let mut r: Vec<char> = Vec::new();
    let mut k: usize = 0;
    while k < j
        invariant
            k <= j <= s@.len(),
            r@ == s@.subrange(0, k as int),
        decreases j - k,
    {
        r.push(s[k]);
        assert(s@.subrange(0, k + 1) =~= s@.subrange(0, k as int).push(s@[k as int]));
        k = k + 1;
    }
    r
}

/// Whether a sequence holds only whitespace.
pub open spec fn all_ws(s: Seq<char>) -> bool {
    forall|k: int| 0 <= k < s.len() ==> is_ws(#[trigger] s[k])
}

pub proof fn lemma_trim_empty_iff_all_ws(s: Seq<char>)
    ensures
        (trim(s).len() == 0) <==> all_ws(s),
        (trim_start(s).len() == 0) <==> all_ws(s),
    decreases s.len(),
{
    if s.len() > 0 {
        lemma_trim_empty_iff_all_ws(s.drop_first());
        if is_ws(s[0]) {
            assert(all_ws(s) <==> all_ws(s.drop_first())) by {
                if all_ws(s.drop_first()) {
                    assert forall|k: int| 0 <= k < s.len() implies is_ws(#[trigger] s[k]) by {
                        if k > 0 {
                            assert(s[k] == s.drop_first()[k - 1]);
                        }
                    }
                }
                if all_ws(s) {
                    assert forall|k: int| 0 <= k < s.drop_first().len() implies is_ws(
                        #[trigger] s.drop_first()[k],
                    ) by {
                        assert(s.drop_first()[k] == s[k + 1]);
                    }
                }
            }
        } else {
            assert(!all_ws(s));
            lemma_trim_end_nonempty(s);
        }
    } else {
        assert(trim_start(s) == s);
        assert(trim_end(s) == s);
    }
}

proof fn lemma_trim_end_nonempty(s: Seq<char>)
    requires
        s.len() > 0,
        !is_ws(s[0]),
    ensures
        trim_end(s).len() > 0,
        trim_end(s)[0] == s[0],
    decreases s.len(),
{
    if is_ws(s.last()) {
        assert(s.len() > 1);
        assert(s.drop_last()[0] == s[0]);
        lemma_trim_end_nonempty(s.drop_last());
    }
}

/// Whether a string is empty after trimming (`s.trim().is_empty()`).
pub fn is_blank(s: &[char]) -> (b: bool)
    ensures
        b == (trim(s@).len() == 0),
        b == all_ws(s@),
{
    proof {
        lemma_trim_empty_iff_all_ws(s@);
    }
    let i = first_non_ws(s);
    proof {
        if i < s@.len() {
            assert(s@.skip(i as int).len() > 0);
        }
    }
    i == s.len()
}

// ---------------------------------------------------------------------------
// Searching
// ---------------------------------------------------------------------------

/// `pat` occurs in `s` at position `i`.
pub open spec fn occurs_at(s: Seq<char>, pat: Seq<char>, i: int) -> bool {
    0 <= i && i + pat.len() <= s.len() && s.subrange(i, i + pat.len()) == pat
}

/// `pat` occurs somewhere in `s` (`str::contains`).
pub open spec fn contains_seq(s: Seq<char>, pat: Seq<char>) -> bool {
    exists|i: int| occurs_at(s, pat, i)
}

/// `s` begins with `pat`.
pub open spec fn starts_with_seq(s: Seq<char>, pat: Seq<char>) -> bool {
    pat.len() <= s.len() && s.take(pat.len() as int) == pat
}

/// `s` ends with `pat`.
pub open spec fn ends_with_seq(s: Seq<char>, pat: Seq<char>) -> bool {
    pat.len() <= s.len() && s.skip(s.len() - pat.len()) == pat
}

/// Whether `pat` occurs in `s` at position `i`.
pub fn occurs_at_exec(s: &[char], pat: &[char], i: usize) -> (b: bool)
    ensures
        b == occurs_at(s@, pat@, i as int),
{
    if i > s.len() || pat.len() > s.len() - i {
        return false;
    }
    let slen = s.len();
    let mut k: usize = 0;
    while k < pat.len()
        invariant
            slen == s@.len(),
            i + pat@.len() <= s@.len(),
            k <= pat@.len(),
            forall|m: int| 0 <= m < k ==> s@[i + m] == pat@[m],
        decreases pat.len() - k,
    {
        if s[i + k] != pat[k] {
            assert(s@.subrange(i as int, i + pat@.len())[k as int] != pat@[k as int]);
            return false;
        }
        k = k + 1;
    }
    assert(s@.subrange(i as int, i + pat@.len()) =~= pat@);
    true
}

/// First position at which `pat` occurs in `s` (`str::find`).
pub fn find_seq(s: &[char], pat: &[char]) -> (r: Option<usize>)
    ensures
        r matches Some(i) ==> occurs_at(s@, pat@, i as int) && forall|j: int|
            0 <= j < i ==> !occurs_at(s@, pat@, j),
        r is None ==> !contains_seq(s@, pat@),
{
    let mut i: usize = 0;
    loop
        invariant
            i <= s@.len(),
            forall|j: int| 0 <= j < i ==> !occurs_at(s@, pat@, j),
        ensures
            forall|j: int| 0 <= j <= s@.len() ==> !occurs_at(s@, pat@, j),
        decreases s.len() - i,
    {
        if occurs_at_exec(s, pat, i) {
            return Some(i);
        }
        if i == s.len() {
            break;
        }
        i = i + 1;
    }
    assert forall|j: int| !occurs_at(s@, pat@, j) by {
        if 0 <= j <= s@.len() {
        }
    }
    None
}

/// `str::contains` on character slices.
pub fn contains_chars(s: &[char], pat: &[char]) -> (b: bool)
    ensures
        b == contains_seq(s@, pat@),
{
    match find_seq(s, pat) {
        Some(_) => true,
        None => false,
    }
}

/// `str::contains` on string slices.
pub fn str_contains(s: &str, pat: &str) -> (b: bool)
    ensures
        b == contains_seq(s@, pat@),
{
    let a = chars_of(s);
    let p = chars_of(pat);
    contains_chars(a.as_slice(), p.as_slice())
}

/// `str::starts_with` on character slices.
pub fn starts_with_chars(s: &[char], pat: &[char]) -> (b: bool)
    ensures
        b == starts_with_seq(s@, pat@),
{
    let b = occurs_at_exec(s, pat, 0);
    assert(s@.subrange(0, pat@.len() as int) =~= s@.take(pat@.len() as int));
    b
}

/// `str::ends_with` on character slices.
pub fn ends_with_chars(s: &[char], pat: &[char]) -> (b: bool)
    ensures
        b == ends_with_seq(s@, pat@),
{
    if pat.len() > s.len() {
        return false;
    }
    let b = occurs_at_exec(s, pat, s.len() - pat.len());
    assert(s@.subrange(s@.len() - pat@.len(), s@.len() as int) =~= s@.skip(
        s@.len() - pat@.len(),
    ));
    b
}

/// Whether two character slices are equal.
pub fn chars_eq(a: &[char], b: &[char]) -> (r: bool)
    ensures
        r == (a@ == b@),
{
    if a.len() != b.len() {
        return false;
    }
    let r = occurs_at_exec(a, b, 0);
    assert(a@.subrange(0, b@.len() as int) =~= a@);
    r
}

/// Whether a string slice equals a character sequence.
pub fn str_eq_chars(a: &str, b: &[char]) -> (r: bool)
    ensures
        r == (a@ == b@),
{
    let ac = chars_of(a);
    chars_eq(ac.as_slice(), b)
}

// ---------------------------------------------------------------------------
// Splitting
// ---------------------------------------------------------------------------

/// Tokens of `s` separated by whitespace, with `cur` the token being built.
pub open spec fn words_acc(s: Seq<char>, cur: Seq<char>) -> Seq<Seq<char>>
    decreases s.len(),
{
    if s.len() == 0 {
        if cur.len() > 0 {
            seq![cur]
        } else {
            seq![]
        }
    } else if is_ws(s[0]) {
        (if cur.len() > 0 {
            seq![cur]
        } else {
            seq![]
        }) + words_acc(s.drop_first(), seq![])
    } else {
        words_acc(s.drop_first(), cur.push(s[0]))
    }
}

/// `str::split_whitespace`.
pub open spec fn words(s: Seq<char>) -> Seq<Seq<char>> {
    words_acc(s, seq![])
}

/// The whitespace-separated tokens of `s`.
pub fn split_whitespace(s: &[char]) -> (r: Vec<Vec<char>>)
    ensures
        r@.map_values(|w: Vec<char>| w@) == words(s@),
{
    let mut out: Vec<Vec<char>> = Vec::new();
    let mut cur: Vec<char> = Vec::new();
    let mut i: usize = 0;
    assert(s@.skip(0) =~= s@);
    assert(out@.map_values(|w: Vec<char>| w@) =~= Seq::<Seq<char>>::empty());
    assert(cur@ =~= Seq::<char>::empty());
    while i < s.len()
        invariant
            i <= s@.len(),
            out@.map_values(|w: Vec<char>| w@) + words_acc(s@.skip(i as int), cur@) == words(
                s@,
            ),
        decreases s.len() - i,
    {
        let ghost rest = s@.skip(i as int);
        assert(rest.drop_first() =~= s@.skip(i + 1));
        let c = s[i];
        if is_whitespace_char(c) {
            if cur.len() > 0 {
                let ghost before = out@.map_values(|w: Vec<char>| w@);
                out.push(cur);
                assert(out@.map_values(|w: Vec<char>| w@) =~= before.push(cur@));
                cur = Vec::new();
                assert(before + (seq![cur@] + words_acc(s@.skip(i + 1), seq![])) =~= before.push(
                    cur@,
                ) + words_acc(s@.skip(i + 1), seq![]));
                proof {
                    // cur was replaced; restate with the old value
                }
            } else {
                assert(cur@ =~= Seq::<char>::empty());
                assert(seq![] + words_acc(s@.skip(i + 1), seq![]) =~= words_acc(
                    s@.skip(i + 1),
                    seq![],
                ));
            }
        } else {
            cur.push(c);
        }
        i = i + 1;
    }
    if cur.len() > 0 {
        let ghost before = out@.map_values(|w: Vec<char>| w@);
        let ghost last = cur@;
        out.push(cur);
        assert(out@.map_values(|w: Vec<char>| w@) =~= before.push(last));
        assert(before + seq![last] =~= before.push(last));
    } else {
        assert(out@.map_values(|w: Vec<char>| w@) + seq![] =~= out@.map_values(
            |w: Vec<char>| w@,
        ));
    }
    out
}

/// Drops a trailing carriage return.
pub open spec fn strip_cr(s: Seq<char>) -> Seq<char> {
    if s.len() > 0 && s.last() == '\r' {
        s.drop_last()
    } else {
        s
    }
}

/// Lines of `s`, with `cur` the line being built (`str::lines`).
pub open spec fn lines_acc(s: Seq<char>, cur: Seq<char>) -> Seq<Seq<char>>
    decreases s.len(),
{
    if s.len() == 0 {
        if cur.len() > 0 {
            seq![cur]
        } else {
            seq![]
        }
    } else if s[0] == '\n' {
        seq![strip_cr(cur)] + lines_acc(s.drop_first(), seq![])
    } else {
        lines_acc(s.drop_first(), cur.push(s[0]))
    }
}

/// The lines of `s`: split at `\n`, a `\r` before the `\n` dropped, and no
/// final empty line after a trailing `\n`.
pub open spec fn lines_of(s: Seq<char>) -> Seq<Seq<char>> {
    lines_acc(s, seq![])
}

/// Drops a trailing `\r` from a character vector.
fn strip_cr_exec(v: Vec<char>) -> (r: Vec<char>)
    ensures
        r@ == strip_cr(v@),
{
    let mut v = v;
    if v.len() > 0 && v[v.len() - 1] == '\r' {
        v.pop();
    }
    v
}

/// `str::lines` on a character slice.
pub fn lines(s: &[char]) -> (r: Vec<Vec<char>>)
    ensures
        r@.map_values(|w: Vec<char>| w@) == lines_of(s@),
{
    let mut out: Vec<Vec<char>> = Vec::new();
    let mut cur: Vec<char> = Vec::new();
    let mut i: usize = 0;
    assert(s@.skip(0) =~= s@);
    assert(out@.map_values(|w: Vec<char>| w@) =~= Seq::<Seq<char>>::empty());
    assert(cur@ =~= Seq::<char>::empty());
    while i < s.len()
        invariant
            i <= s@.len(),
            out@.map_values(|w: Vec<char>| w@) + lines_acc(s@.skip(i as int), cur@) == lines_of(
                s@,
            ),
        decreases s.len() - i,
    {
        assert(s@.skip(i as int).drop_first() =~= s@.skip(i + 1));
        let c = s[i];
        if c == '\n' {
            let ghost before = out@.map_values(|w: Vec<char>| w@);
            let done = strip_cr_exec(cur);
            let ghost d = done@;
            out.push(done);
            assert(out@.map_values(|w: Vec<char>| w@) =~= before.push(d));
            cur = Vec::new();
            assert(before + (seq![d] + lines_acc(s@.skip(i + 1), seq![])) =~= before.push(d)
                + lines_acc(s@.skip(i + 1), seq![]));
            assert(cur@ =~= Seq::<char>::empty());
        } else {
            cur.push(c);
        }
        i = i + 1;
    }
    if cur.len() > 0 {
        let ghost before = out@.map_values(|w: Vec<char>| w@);
        let ghost last = cur@;
        out.push(cur);
        assert(out@.map_values(|w: Vec<char>| w@) =~= before.push(last));
        assert(before + seq![last] =~= before.push(last));
    } else {
        assert(out@.map_values(|w: Vec<char>| w@) + seq![] =~= out@.map_values(
            |w: Vec<char>| w@,
        ));
    }
    out
}

/// Concatenation of `parts` separated by `sep` (`slice::join`).
pub open spec fn join_seq(parts: Seq<Seq<char>>, sep: Seq<char>) -> Seq<char>
    decreases parts.len(),
{
    if parts.len() == 0 {
        seq![]
    } else if parts.len() == 1 {
        parts[0]
    } else {
        join_seq(parts.drop_last(), sep) + sep + parts.last()
    }
}

/// Whether a text has no carriage return.
pub open spec fn no_cr(s: Seq<char>) -> bool {
    forall|i: int| 0 <= i < s.len() ==> s[i] != '\r'
}

proof fn lemma_join_cons(a: Seq<char>, l: Seq<Seq<char>>, sep: Seq<char>)
    requires
        l.len() > 0,
    ensures
        join_seq(seq![a] + l, sep) == a + sep + join_seq(l, sep),
    decreases l.len(),
{
    let m = seq![a] + l;
    assert(m.len() >= 2);
    assert(join_seq(m, sep) == join_seq(m.drop_last(), sep) + sep + m.last());
    if l.len() == 1 {
        assert(m.drop_last() =~= seq![a]);
        assert(join_seq(seq![a], sep) == a);
        assert(m.last() == l[0]);
        assert(join_seq(l, sep) == l[0]);
    } else {
        assert(m.drop_last() =~= seq![a] + l.drop_last());
        assert(m.last() == l.last());
        lemma_join_cons(a, l.drop_last(), sep);
        assert(join_seq(l, sep) == join_seq(l.drop_last(), sep) + sep + l.last());
        assert(a + sep + join_seq(l.drop_last(), sep) + sep + l.last() =~= a + sep + (join_seq(
            l.drop_last(),
            sep,
        ) + sep + l.last()));
    }
}

proof fn lemma_lines_acc_nonempty(s: Seq<char>, cur: Seq<char>)
    requires
        s.len() > 0 || cur.len() > 0,
    ensures
        lines_acc(s, cur).len() > 0,
    decreases s.len(),
{
    if s.len() > 0 && s[0] != '\n' {
        lemma_lines_acc_nonempty(s.drop_first(), cur.push(s[0]));
    }
}

proof fn lemma_join_lines_acc(s: Seq<char>, cur: Seq<char>)
    requires
        no_cr(s),
        no_cr(cur),
        s.len() == 0 || s.last() != '\n',
    ensures
        join_seq(lines_acc(s, cur), "\n"@) == cur + s,
    decreases s.len(),
{
    if s.len() == 0 {
        assert(cur + s =~= cur);
        if cur.len() > 0 {
            assert(seq![cur].len() == 1);
        }
    } else if s[0] == '\n' {
        let rest = s.drop_first();
        assert(rest.len() > 0);
        assert(rest.last() == s.last());
        assert(no_cr(rest));
        lemma_join_lines_acc(rest, seq![]);
        lemma_lines_acc_nonempty(rest, seq![]);
        assert(strip_cr(cur) == cur) by {
            if cur.len() > 0 {
                assert(cur.last() == cur[cur.len() - 1]);
            }
        }
        lemma_join_cons(cur, lines_acc(rest, seq![]), "\n"@);
        assert(seq![] + rest =~= rest);
        assert(cur + "\n"@ + rest =~= cur + s) by {
            assert(s =~= seq!['\n'] + rest);
            assert("\n"@ =~= seq!['\n']) by {
                reveal_strlit("\n");
            }
        }
    } else {
        let rest = s.drop_first();
        assert(no_cr(rest));
        assert(no_cr(cur.push(s[0])));
        if rest.len() > 0 {
            assert(rest.last() == s.last());
        }
        lemma_join_lines_acc(rest, cur.push(s[0]));
        assert(cur.push(s[0]) + rest =~= cur + s);
    }
}

/// Joining the lines of a text by newlines gives the text back, when it has
/// no carriage return and does not end in a newline.
pub proof fn law_lines_join_roundtrip(s: Seq<char>)
    requires
        no_cr(s),
        s.len() == 0 || s.last() != '\n',
    ensures
        join_seq(lines_of(s), "\n"@) == s,
{
    assert(no_cr(seq![]));
    lemma_join_lines_acc(s, seq![]);
    assert(seq![] + s =~= s);
}

/// A text with some character has some line.
pub proof fn lemma_lines_of_nonempty(s: Seq<char>)
    requires
        s.len() > 0,
    ensures
        lines_of(s).len() > 0,
{
    lemma_lines_acc_nonempty(s, seq![]);
}

// ---------------------------------------------------------------------------
// Numbers
// ---------------------------------------------------------------------------

/// The ASCII digit for `d < 10`.
pub open spec fn digit_char(d: nat) -> char {
    ((48 + d) as u32) as char
}

/// Decimal representation of a natural number, without leading zeros.
pub open spec fn decimal(n: nat) -> Seq<char>
    decreases n,
{
    if n < 10 {
        seq![digit_char(n)]
    } else {
        decimal(n / 10).push(digit_char(n % 10))
    }
}

fn digit_of(d: u64) -> (c: char)
    requires
        d < 10,
    ensures
        c == digit_char(d as nat),
{
    if d == 0 {
        '0'
    } else if d == 1 {
        '1'
    } else if d == 2 {
        '2'
    } else if d == 3 {
        '3'
    } else if d == 4 {
        '4'
    } else if d == 5 {
        '5'
    } else if d == 6 {
        '6'
    } else if d == 7 {
        '7'
    } else if d == 8 {
        '8'
    } else {
        '9'
    }
}

/// Appends the decimal digits of `n` (`format!("{}", n)`).
pub fn push_decimal(dst: &mut Vec<char>, n: u64)
    ensures
        final(dst)@ == old(dst)@ + decimal(n as nat),
    decreases n,
{
    if n < 10 {
        dst.push(digit_of(n));
        assert(old(dst)@.push(digit_char(n as nat)) =~= old(dst)@ + seq![digit_char(n as nat)]);
    } else {
        push_decimal(dst, n / 10);
        dst.push(digit_of(n % 10));
        assert(old(dst)@ + decimal((n / 10) as nat).push(digit_char((n % 10) as nat)) =~= (
        old(dst)@ + decimal((n / 10) as nat)).push(digit_char((n % 10) as nat)));
    }
}

/// Whether `c` is an ASCII digit.
pub open spec fn is_digit(c: char) -> bool {
    48 <= (c as u32) && (c as u32) <= 57
}

/// Numeric value of a string of ASCII digits.
pub open spec fn digits_value(d: Seq<char>) -> nat
    decreases d.len(),
{
    if d.len() == 0 {
        0
    } else {
        digits_value(d.drop_last()) * 10 + ((d.last() as u32) - 48) as nat
    }
}

/// The digits that `u16::from_str` reads: a single leading `+` is allowed
/// when more characters follow.
pub open spec fn unsigned_digits(s: Seq<char>) -> Seq<char> {
    if s.len() > 1 && s[0] == '+' {
        s.drop_first()
    } else {
        s
    }
}

/// Every character is an ASCII digit.
pub open spec fn all_digits(d: Seq<char>) -> bool {
    forall|k: int| 0 <= k < d.len() ==> is_digit(#[trigger] d[k])
}

/// What `s.parse::<u16>().ok()` returns.
pub open spec fn parse_u16_spec(s: Seq<char>) -> Option<u16> {
    if s.len() > 0 && all_digits(unsigned_digits(s)) && digits_value(unsigned_digits(s))
        <= 65535 {
        Some(digits_value(unsigned_digits(s)) as u16)
    } else {
        None
    }
}

proof fn lemma_digits_value_prefix_le(d: Seq<char>, k: int)
    requires
        0 <= k <= d.len(),
        forall|m: int| 0 <= m < d.len() ==> is_digit(#[trigger] d[m]),
    ensures
        digits_value(d.take(k)) <= digits_value(d),
    decreases d.len() - k,
{
    if k < d.len() {
        assert(d.drop_last().take(k) =~= d.take(k));
        assert forall|m: int| 0 <= m < d.drop_last().len() implies is_digit(
            #[trigger] d.drop_last()[m],
        ) by {
            assert(d.drop_last()[m] == d[m]);
        }
        lemma_digits_value_prefix_le(d.drop_last(), k);
    } else {
        assert(d.take(k) =~= d);
    }
}

/// `s.parse::<u16>().ok()` on a character slice.
pub fn parse_u16(s: &[char]) -> (r: Option<u16>)
    ensures
        r == parse_u16_spec(s@),
{
    if s.len() == 0 {
        return None;
    }
    let start: usize = if s.len() > 1 && s[0] == '+' {
        1
    } else {
        0
    };
    let ghost d = unsigned_digits(s@);
    assert(d =~= s@.skip(start as int));
    let mut val: u32 = 0;
    let mut i: usize = start;
    while i < s.len()
        invariant
            start <= i <= s@.len(),
            s@.len() > 0,
            d == unsigned_digits(s@),
            d == s@.skip(start as int),
            val as nat == digits_value(d.take(i - start)),
            val <= 65535,
            forall|m: int| 0 <= m < i - start ==> is_digit(#[trigger] d[m]),
        decreases s.len() - i,
    {
        let c = s[i];
        let n = c as u32;
        assert(d[i - start] == c);
        if n < 48 || n > 57 {
            assert(!is_digit(d[i - start]));
            assert(!all_digits(d));
            return None;
        }
        assert(d.take(i + 1 - start).drop_last() =~= d.take(i - start));
        let next = val * 10 + (n - 48);
        assert(d.take(i + 1 - start).last() == c);
        assert(digits_value(d.take(i + 1 - start)) == next);
        if next > 65535 {
            proof {
                assert forall|m: int| 0 <= m < (i + 1 - start) implies is_digit(
                    #[trigger] d.take(i + 1 - start)[m],
                ) by {
                    assert(d.take(i + 1 - start)[m] == d[m]);
                }
                if all_digits(d) {
                    lemma_digits_value_prefix_le(d, i + 1 - start);
                }
            }
            return None;
        }
        val = next;
        i = i + 1;
    }
    assert(d.take(s@.len() - start) =~= d);
    Some(val as u16)
}

} // verus!

verus! {

// ---------------------------------------------------------------------------
// Byte lengths, truncation and line statistics
// ---------------------------------------------------------------------------

/// Bytes the UTF-8 encoding of `c` takes.
pub open spec fn utf8_width(c: char) -> nat {
    let n = c as u32;
    if n < 0x80 {
        1
    } else if n < 0x800 {
        2
    } else if n < 0x10000 {
        3
    } else {
        4
    }
}

/// Length in bytes of the UTF-8 encoding of `s` (`str::len`).
pub open spec fn byte_len(s: Seq<char>) -> nat
    decreases s.len(),
{
    if s.len() == 0 {
        0
    } else {
        byte_len(s.drop_last()) + utf8_width(s.last())
    }
}

fn utf8_width_exec(c: char) -> (w: usize)
    ensures
        w == utf8_width(c),
{
    let n = c as u32;
    if n < 0x80 {
        1
    } else if n < 0x800 {
        2
    } else if n < 0x10000 {
        3
    } else {
        4
    }
}

/// Byte length of a character slice, saturating at `usize::MAX`.
pub fn byte_len_exec(s: &[char]) -> (n: usize)
    ensures
        byte_len(s@) <= usize::MAX ==> n == byte_len(s@),
        byte_len(s@) > usize::MAX ==> n == usize::MAX,
{
    let mut n: usize = 0;
    let mut i: usize = 0;
    while i < s.len()
        invariant
            i <= s@.len(),
            byte_len(s@.take(i as int)) <= usize::MAX ==> n == byte_len(s@.take(i as int)),
            byte_len(s@.take(i as int)) > usize::MAX ==> n == usize::MAX,
        decreases s.len() - i,
    {
        assert(s@.take(i + 1).drop_last() =~= s@.take(i as int));
        let w = utf8_width_exec(s[i]);
        if n > usize::MAX - w {
            n = usize::MAX;
        } else {
            n = n + w;
        }
        i = i + 1;
    }
    assert(s@.take(i as int) =~= s@);
    n
}

/// The longest prefix of `s` whose encoding fits in `max` bytes.
pub open spec fn prefix_within_bytes(s: Seq<char>, max: nat) -> Seq<char>
    decreases s.len(),
{
    if s.len() == 0 || byte_len(s) <= max {
        s
    } else {
        prefix_within_bytes(s.drop_last(), max)
    }
}

/// Text cut to `max_len` bytes with `...` appended when it is longer; the cut
/// is made at the last character boundary within `max_len` bytes.
pub open spec fn truncate_spec(s: Seq<char>, max_len: nat) -> Seq<char> {
    if byte_len(s) > max_len {
        prefix_within_bytes(s, max_len) + "..."@
    } else {
        s
    }
}

proof fn lemma_byte_len_take_mono(s: Seq<char>, i: int)
    requires
        0 <= i <= s.len(),
    ensures
        byte_len(s.take(i)) <= byte_len(s),
    decreases s.len() - i,
{
    if i < s.len() {
        assert(s.drop_last().take(i) =~= s.take(i));
        lemma_byte_len_take_mono(s.drop_last(), i);
    } else {
        assert(s.take(i) =~= s);
    }
}

proof fn lemma_prefix_within_take(s: Seq<char>, max: nat, j: int)
    requires
        0 <= j <= s.len(),
        forall|k: int| j < k <= s.len() ==> byte_len(#[trigger] s.take(k)) > max,
        j == 0 || byte_len(s.take(j)) <= max,
    ensures
        prefix_within_bytes(s, max) == s.take(j),
    decreases s.len(),
{
    if s.len() == 0 {
        assert(s.take(j) =~= s);
    } else if byte_len(s) <= max {
        if j < s.len() {
            assert(s.take(s.len() as int) =~= s);
            assert(byte_len(s.take(s.len() as int)) > max);
        }
        assert(s.take(j) =~= s);
    } else {
        if j == s.len() {
            assert(s.take(j) =~= s);
        }
        assert(j < s.len());
        let t = s.drop_last();
        assert forall|k: int| j < k <= t.len() implies byte_len(#[trigger] t.take(k)) > max by {
            assert(t.take(k) =~= s.take(k));
        }
        assert(t.take(j) =~= s.take(j));
        lemma_prefix_within_take(t, max, j);
    }
}

/// `text` cut to `max_len` bytes followed by `...`, when longer.
pub fn truncate_output(text: &[char], max_len: usize) -> (r: Vec<char>)
    ensures
        r@ == truncate_spec(text@, max_len as nat),
{
    let mut used: usize = 0;
    let mut j: usize = 0;
    while j < text.len()
        invariant
            j <= text@.len(),
            used == byte_len(text@.take(j as int)),
            used <= max_len,
        ensures
            j <= text@.len(),
            used == byte_len(text@.take(j as int)),
            j < text@.len() ==> byte_len(text@.take(j + 1)) > max_len,
        decreases text.len() - j,
    {
        assert(text@.take(j + 1).drop_last() =~= text@.take(j as int));
        let w = utf8_width_exec(text[j]);
        if w > max_len - used {
            assert(text@.take(j + 1).last() == text@[j as int]);
            break;
        }
        used = used + w;
        j = j + 1;
    }
    if j == text.len() {
        assert(text@.take(j as int) =~= text@);
        let mut r: Vec<char> = Vec::new();
        push_all(&mut r, text);
        return r;
    }
    proof {
        assert forall|k: int| j < k <= text@.len() implies byte_len(#[trigger] text@.take(k))
            > max_len by {
            lemma_byte_len_take_mono(text@.take(k), j + 1);
            assert(text@.take(k).take(j + 1) =~= text@.take(j + 1));
        }
        lemma_prefix_within_take(text@, max_len as nat, j as int);
    }
    let mut r: Vec<char> = Vec::new();
    let mut k: usize = 0;
    while k < j
        invariant
            k <= j,
            j < text@.len(),
            r@ == text@.take(k as int),
        decreases j - k,
    {
        r.push(text[k]);
        assert(text@.take(k + 1) =~= text@.take(k as int).push(text@[k as int]));
        k = k + 1;
    }
    push_str(&mut r, "...");
    r
}

/// Number of lines that are not blank.
pub open spec fn nonblank_count(ls: Seq<Seq<char>>) -> nat
    decreases ls.len(),
{
    if ls.len() == 0 {
        0
    } else {
        nonblank_count(ls.drop_last()) + if all_ws(ls.last()) {
            0nat
        } else {
            1nat
        }
    }
}

/// The first line that is not blank.
pub open spec fn first_nonblank(ls: Seq<Seq<char>>) -> Option<Seq<char>>
    decreases ls.len(),
{
    if ls.len() == 0 {
        None
    } else if !all_ws(ls[0]) {
        Some(ls[0])
    } else {
        first_nonblank(ls.drop_first())
    }
}

/// Counts the non-blank lines.
pub fn count_nonblank(ls: &Vec<Vec<char>>) -> (n: usize)
    ensures
        n == nonblank_count(ls@.map_values(|w: Vec<char>| w@)),
{
    let ghost lv = ls@.map_values(|w: Vec<char>| w@);
    let mut n: usize = 0;
    let mut i: usize = 0;
    while i < ls.len()
        invariant
            i <= ls@.len(),
            lv == ls@.map_values(|w: Vec<char>| w@),
            n == nonblank_count(lv.take(i as int)),
            n <= i,
        decreases ls.len() - i,
    {
        assert(lv.take(i + 1).drop_last() =~= lv.take(i as int));
        assert(lv[i as int] == ls@[i as int]@);
        if !is_blank(ls[i].as_slice()) {
            n = n + 1;
        }
        i = i + 1;
    }
    assert(lv.take(i as int) =~= lv);
    n
}

/// The first non-blank line, if any.
pub fn find_first_nonblank(ls: &Vec<Vec<char>>) -> (r: Option<usize>)
    ensures
        match r {
            Some(i) => i < ls@.len() && first_nonblank(ls@.map_values(|w: Vec<char>| w@))
                == Some(ls@[i as int]@),
            None => first_nonblank(ls@.map_values(|w: Vec<char>| w@)) is None,
        },
{
    let ghost lv = ls@.map_values(|w: Vec<char>| w@);
    let mut i: usize = 0;
    assert(lv.skip(0) =~= lv);
    while i < ls.len()
        invariant
            i <= ls@.len(),
            lv == ls@.map_values(|w: Vec<char>| w@),
            first_nonblank(lv.skip(i as int)) == first_nonblank(lv),
        decreases ls.len() - i,
    {
        assert(lv.skip(i as int).drop_first() =~= lv.skip(i + 1));
        assert(lv.skip(i as int)[0] == ls@[i as int]@);
        if !is_blank(ls[i].as_slice()) {
            return Some(i);
        }
        i = i + 1;
    }
    None
}

/// The part of `s` after the last `c` (all of `s` when there is none).
pub open spec fn after_last(s: Seq<char>, c: char) -> Seq<char>
    decreases s.len(),
{
    if s.len() == 0 {
        s
    } else if s.last() == c {
        seq![]
    } else {
        after_last(s.drop_last(), c).push(s.last())
    }
}

/// The part of `s` after the last `c`.
pub fn after_last_exec(s: &[char], c: char) -> (r: Vec<char>)
    ensures
        r@ == after_last(s@, c),
{
    let mut r: Vec<char> = Vec::new();
    let mut i: usize = 0;
    while i < s.len()
        invariant
            i <= s@.len(),
            r@ == after_last(s@.take(i as int), c),
        decreases s.len() - i,
    {
        assert(s@.take(i + 1).drop_last() =~= s@.take(i as int));
        if s[i] == c {
            r = Vec::new();
            assert(r@ =~= Seq::<char>::empty());
        } else {
            r.push(s[i]);
        }
        i = i + 1;
    }
    assert(s@.take(i as int) =~= s@);
    r
}

/// The characters of `s` from position `from` to `to`.
pub fn sub_chars(s: &[char], from: usize, to: usize) -> (r: Vec<char>)
    requires
        from <= to <= s@.len(),
    ensures
        r@ == s@.subrange(from as int, to as int),
{
    let mut r: Vec<char> = Vec::new();
    let mut k = from;
    while k < to
        invariant
            from <= k <= to,
            to <= s@.len(),
            r@ == s@.subrange(from as int, k as int),
        decreases to - k,
    {
        r.push(s[k]);
        assert(s@.subrange(from as int, k + 1) =~= s@.subrange(from as int, k as int).push(
            s@[k as int],
        ));
        k = k + 1;
    }
    r
}


proof fn lemma_decimal_digits(n: nat)
    ensures
        decimal(n).len() > 0,
        all_digits(decimal(n)),
        digits_value(decimal(n)) == n,
        decimal(n)[0] != '+',
    decreases n,
{
    if n < 10 {
        let one = seq![digit_char(n)];
        assert(digit_char(n) as u32 == 48 + n);
        assert(one.drop_last() =~= Seq::<char>::empty());
        assert(one.last() == digit_char(n));
        assert(digits_value(one.drop_last()) == 0);
        assert(digits_value(one) == 0nat * 10 + n);
        assert(decimal(n) == one);
    } else {
        lemma_decimal_digits(n / 10);
        let d = decimal(n / 10);
        let c = digit_char(n % 10);
        assert(c as u32 == 48 + n % 10);
        assert(d.push(c).drop_last() =~= d);
        assert(d.push(c)[0] == d[0]);
        assert forall|k: int| 0 <= k < d.push(c).len() implies is_digit(#[trigger] d.push(c)[k]) by {
            if k < d.len() {
                assert(d.push(c)[k] == d[k]);
            }
        }
        assert(digits_value(d.push(c)) == n / 10 * 10 + n % 10);
        assert(n / 10 * 10 + n % 10 == n);
        assert(decimal(n) == d.push(c));
    }
}

/// A number written in decimal reads back as the same number: a port
/// printed into a URL or a command line parses back to that port.
pub proof fn law_decimal_parse_roundtrip(p: u16)
    ensures
        parse_u16_spec(decimal(p as nat)) == Some(p),
{
    lemma_decimal_digits(p as nat);
    assert(unsigned_digits(decimal(p as nat)) == decimal(p as nat));
}

} // verus!
