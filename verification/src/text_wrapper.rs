//! Word wrapping of plain text to a column width.

use vstd::prelude::*;
use crate::text::{
    chars_of, is_blank, is_whitespace_char, is_ws, lemma_trim_empty_iff_all_ws, lines, lines_acc,
    lines_of, string_from_chars, strip_cr, trim, trim_end, trim_end_chars, push_str,
};

verus! {

/// Wraps text at a width, preferring to break at whitespace found within
/// `tolerance` columns before the width.
#[derive(Debug, Clone, PartialEq, Eq)]
pub struct TextWrapper {
    width: u16,
    tolerance: usize,
}

/// Position of the last whitespace character in `line[lo..hi]`, or -1.
pub open spec fn last_ws_in(line: Seq<char>, lo: int, hi: int) -> int
    decreases hi - lo,
{
    if hi <= lo {
        -1
    } else if 0 <= hi - 1 < line.len() && is_ws(line[hi - 1]) {
        hi - 1
    } else {
        last_ws_in(line, lo, hi - 1)
    }
}

/// Where the segment starting at `start` ends: the line's end when the rest
/// fits; else the last whitespace within `tolerance` before `start + width`;
/// else `start + width`.
pub open spec fn split_point(line: Seq<char>, start: int, width: nat, tolerance: nat) -> int {
    let n = line.len() as int;
    if n - start <= width {
        n
    } else {
        let ideal = start + width;
        let lo = if ideal - tolerance > 0 {
            ideal - tolerance
        } else {
            0
        };
        let w = last_ws_in(line, lo, ideal);
        if w >= 0 {
            w
        } else if ideal < n {
            ideal
        } else {
            n
        }
    }
}

/// First position at or after `i` that is not whitespace (or the end).
pub open spec fn skip_ws(line: Seq<char>, i: int) -> int
    decreases line.len() - i,
{
    if i < line.len() && i >= 0 && is_ws(line[i]) {
        skip_ws(line, i + 1)
    } else {
        i
    }
}

/// Segments of a non-blank line from `start` on.
pub open spec fn wrap_from(line: Seq<char>, start: int, width: nat, tolerance: nat) -> Seq<
    Seq<char>,
>
    decreases line.len() - start,
{
    if start < 0 || start >= line.len() {
        seq![]
    } else {
        let e = split_point(line, start, width, tolerance);
        let next = skip_ws(line, e);
        let seg = trim_end(line.subrange(start, e));
        if e < start || next <= start || next > line.len() {
            seq![seg]
        } else {
            seq![seg] + wrap_from(line, next, width, tolerance)
        }
    }
}

/// Wrapped lines of one source line: an empty line for a blank one.
pub open spec fn wrap_line(line: Seq<char>, width: nat, tolerance: nat) -> Seq<Seq<char>> {
    if trim(line).len() == 0 {
        seq![seq![]]
    } else {
        wrap_from(line, 0, width, tolerance)
    }
}

/// Wrapped lines of each source line, in order.
pub open spec fn wrap_all(ls: Seq<Seq<char>>, width: nat, tolerance: nat) -> Seq<Seq<char>>
    decreases ls.len(),
{
    if ls.len() == 0 {
        seq![]
    } else {
        wrap_all(ls.drop_last(), width, tolerance) + wrap_line(ls.last(), width, tolerance)
    }
}

/// Whether wrapping `line` from `start` on always moves forward: each
/// split point lies at or after its segment's start, and the next segment
/// starts later. Elsewhere the segment's slice would run backwards (a
/// whitespace found before the start, possible when the tolerance reaches
/// back past it) or the loop would not advance (a width of 0).
pub open spec fn wrap_safe_from(line: Seq<char>, start: int, width: nat, tolerance: nat) -> bool
    decreases line.len() - start,
{
    if start < 0 || start >= line.len() {
        true
    } else {
        let e = split_point(line, start, width, tolerance);
        let next = skip_ws(line, e);
        start <= e && start < next && next <= line.len() && wrap_safe_from(
            line,
            next,
            width,
            tolerance,
        )
    }
}

/// Whether one source line wraps safely: a blank line always does.
pub open spec fn wrap_line_safe(line: Seq<char>, width: nat, tolerance: nat) -> bool {
    trim(line).len() == 0 || wrap_safe_from(line, 0, width, tolerance)
}

/// Whether every source line wraps safely.
pub open spec fn wrap_all_safe(ls: Seq<Seq<char>>, width: nat, tolerance: nat) -> bool {
    forall|i: int| 0 <= i < ls.len() ==> wrap_line_safe(#[trigger] ls[i], width, tolerance)
}

proof fn lemma_last_ws_in_range(line: Seq<char>, lo: int, hi: int)
    ensures
        last_ws_in(line, lo, hi) == -1 || (lo <= last_ws_in(line, lo, hi) < hi
            && last_ws_in(line, lo, hi) < line.len() && is_ws(line[last_ws_in(line, lo, hi)])),
    decreases hi - lo,
{
    if hi > lo {
        lemma_last_ws_in_range(line, lo, hi - 1);
    }
}

proof fn lemma_skip_ws_ge(line: Seq<char>, i: int)
    requires
        0 <= i <= line.len(),
    ensures
        i <= skip_ws(line, i) <= line.len(),
    decreases line.len() - i,
{
    if i < line.len() && is_ws(line[i]) {
        lemma_skip_ws_ge(line, i + 1);
    }
}

impl TextWrapper {
    /// A wrapper for `width` columns; the tolerance defaults to 5.
    pub fn new(width: u16, tolerance: Option<usize>) -> (w: Self)
        ensures
            w.width() == width,
            w.tolerance() == match tolerance {
                Some(t) => t,
                None => 5,
            },
    {
        let tolerance = match tolerance {
            Some(t) => t,
            None => 5,
        };
        TextWrapper { width, tolerance }
    }

    /// The column width.
    pub closed spec fn width(&self) -> u16 {
        self.width
    }

    /// How far before the width a break may be taken.
    pub closed spec fn tolerance(&self) -> usize {
        self.tolerance
    }

    /// End of the segment of `line` that starts at character `char_start`.
    pub fn find_char_split_point(&self, line: &str, char_start: usize) -> (e: usize)
        requires
            char_start <= line@.len(),
        ensures
            e == split_point(line@, char_start as int, self.width() as nat, self.tolerance() as nat),
    {
        let c = chars_of(line);
        self.split_chars(c.as_slice(), char_start)
    }

    fn split_chars(&self, line: &[char], char_start: usize) -> (e: usize)
        requires
            char_start <= line@.len(),
        ensures
            e == split_point(line@, char_start as int, self.width as nat, self.tolerance as nat),
    {
        let n = line.len();
        let width = self.width as usize;
        let remaining = n - char_start;
        if remaining <= width {
            return n;
        }
        let ideal = char_start + width;
        let lo: usize = if ideal > self.tolerance {
            ideal - self.tolerance
        } else {
            0
        };
        let mut i = ideal;
        while i > lo
            invariant
                lo <= i <= ideal,
                ideal == char_start + width,
                width == self.width as usize,
                lo == (if ideal > self.tolerance { ideal - self.tolerance } else { 0 }),
                remaining == n - char_start,
                remaining > width,
                ideal < n,
                n == line@.len(),
                last_ws_in(line@, lo as int, ideal as int) == last_ws_in(line@, lo as int, i as int),
            decreases i - lo,
        {
            if is_whitespace_char(line[i - 1]) {
                assert(last_ws_in(line@, lo as int, i as int) == i - 1);
                assert(last_ws_in(line@, lo as int, ideal as int) == i - 1);
                assert(!(n - char_start <= width));
                assert(ideal == char_start + self.width as nat);
                assert(lo == (if ideal - self.tolerance > 0 { ideal - self.tolerance } else { 0 }));
                return i - 1;
            }
            i = i - 1;
        }
        if ideal < n {
            ideal
        } else {
            n
        }
    }

    /// Wraps one non-blank line into segments.
    fn wrap_chars(&self, line: &[char], out: &mut Vec<String>)
        requires
            wrap_safe_from(line@, 0, self.width as nat, self.tolerance as nat),
        ensures
            final(out)@.map_values(|s: String| s@) == old(out)@.map_values(|s: String| s@)
                + wrap_from(line@, 0, self.width as nat, self.tolerance as nat),
    {
        let n = line.len();
        let ghost w = self.width as nat;
        let ghost tol = self.tolerance as nat;
        let ghost base = old(out)@.map_values(|s: String| s@);
        let mut start: usize = 0;
        while start < n
            invariant
                n == line@.len(),
                start <= n,
                wrap_safe_from(line@, start as int, self.width as nat, self.tolerance as nat),
                w == self.width as nat,
                tol == self.tolerance as nat,
                out@.map_values(|s: String| s@) + wrap_from(line@, start as int, w, tol) == base
                    + wrap_from(line@, 0, w, tol),
            decreases n - start,
        {
            let e = self.split_chars(line, start);
            proof {
                lemma_split_point_bounds(line@, start as int, w, tol);
            }
            assert(start <= e <= n);
            let mut seg: Vec<char> = Vec::new();
            let mut k = start;
            while k < e
                invariant
                    start <= k <= e,
                    e <= line@.len(),
                    seg@ == line@.subrange(start as int, k as int),
                decreases e - k,
            {
                seg.push(line[k]);
                assert(line@.subrange(start as int, k + 1) =~= line@.subrange(start as int, k as int).push(
                    line@[k as int],
                ));
                k = k + 1;
            }
            let trimmed = trim_end_chars(seg.as_slice());
            let ghost before = out@.map_values(|s: String| s@);
            out.push(string_from_chars(trimmed.as_slice()));
            assert(out@.map_values(|s: String| s@) =~= before.push(trimmed@));
            let mut next = e;
            while next < n && is_whitespace_char(line[next])
                invariant
                    e <= next <= n,
                    n == line@.len(),
                    skip_ws(line@, e as int) == skip_ws(line@, next as int),
                decreases n - next,
            {
                next = next + 1;
            }
            proof {
                lemma_skip_ws_ge(line@, e as int);
                assert(before.push(trimmed@) + wrap_from(line@, next as int, w, tol) =~= before + (
                seq![trimmed@] + wrap_from(line@, next as int, w, tol)));
            }
            start = next;
        }
    }

    /// Wraps text to the width: each source line (as `str::lines` splits
    /// them) becomes one or more segments with trailing whitespace removed,
    /// leading whitespace of continuation segments skipped; a blank source
    /// line becomes one empty line.
    pub fn wrap_text(&self, text: &str) -> (r: Vec<String>)
        requires
            wrap_all_safe(lines_of(text@), self.width() as nat, self.tolerance() as nat),
        ensures
            r@.map_values(|s: String| s@) == wrap_all(lines_of(text@), self.width() as nat, self.tolerance() as nat),
    {
        let tc = chars_of(text);
        let ls = lines(tc.as_slice());
        let ghost lv = ls@.map_values(|w: Vec<char>| w@);
        let mut out: Vec<String> = Vec::new();
        let mut i: usize = 0;
        assert(out@.map_values(|s: String| s@) =~= wrap_all(lv.take(0), self.width as nat, self.tolerance as nat));
        while i < ls.len()
            invariant
                i <= ls@.len(),
                lv == ls@.map_values(|w: Vec<char>| w@),
                lv == lines_of(text@),
                wrap_all_safe(lv, self.width as nat, self.tolerance as nat),
                out@.map_values(|s: String| s@) == wrap_all(lv.take(i as int), self.width as nat, self.tolerance as nat),
            decreases ls.len() - i,
        {
            assert(lv.take(i + 1).drop_last() =~= lv.take(i as int));
            assert(lv[i as int] == ls@[i as int]@);
            let line = ls[i].as_slice();
            if is_blank(line) {
                let ghost before = out@.map_values(|s: String| s@);
                out.push(String::new());
                assert(out@.map_values(|s: String| s@) =~= before + seq![Seq::<char>::empty()]);
            } else {
                assert(wrap_line_safe(lv[i as int], self.width as nat, self.tolerance as nat));
                self.wrap_chars(line, &mut out);
            }
            i = i + 1;
        }
        assert(lv.take(i as int) =~= lv);
        out
    }
}


/// The text of a styled line: its spans' contents one after another.
pub open spec fn plain_text(l: Seq<(Seq<char>, Option<crate::renderer::Color>)>) -> Seq<char>
    decreases l.len(),
{
    if l.len() == 0 {
        seq![]
    } else {
        plain_text(l.drop_last()) + l.last().0
    }
}

impl TextWrapper {
    /// Wraps the text of a styled line, dropping its colours.
    pub fn wrap_ratatui_line(&self, line: &crate::renderer::StyledLine) -> (r: Vec<String>)
        requires
            wrap_all_safe(lines_of(plain_text(line@)), self.width() as nat, self.tolerance() as nat),
        ensures
            r@.map_values(|s: String| s@) == wrap_all(
                lines_of(plain_text(line@)),
                self.width() as nat,
                self.tolerance() as nat,
            ),
    {
        let ghost lv = line@;
        let mut t: Vec<char> = Vec::new();
        let mut i: usize = 0;
        while i < line.spans.len()
            invariant
                i <= line.spans@.len(),
                lv == line@,
                lv == line.spans@.map_values(|s: crate::renderer::StyledSpan| s@),
                t@ == plain_text(lv.take(i as int)),
            decreases line.spans.len() - i,
        {
            assert(lv.take(i + 1).drop_last() =~= lv.take(i as int));
            assert(lv.take(i + 1).last() == line.spans@[i as int]@);
            push_str(&mut t, line.spans[i].content.as_str());
            i = i + 1;
        }
        assert(lv.take(i as int) =~= lv);
        let text = string_from_chars(t.as_slice());
        self.wrap_text(text.as_str())
    }
}


proof fn lemma_trim_end_len(s: Seq<char>)
    ensures
        trim_end(s).len() <= s.len(),
    decreases s.len(),
{
    if s.len() > 0 && is_ws(s.last()) {
        lemma_trim_end_len(s.drop_last());
    }
}

proof fn lemma_split_point_bounds(line: Seq<char>, start: int, width: nat, tolerance: nat)
    requires
        0 <= start < line.len(),
    ensures
        split_point(line, start, width, tolerance) <= start + width,
        split_point(line, start, width, tolerance) <= line.len(),
        tolerance < width ==> start < split_point(line, start, width, tolerance),
{
    let n = line.len() as int;
    if n - start > width {
        let ideal = start + width;
        let lo = if ideal - tolerance > 0 {
            ideal - tolerance
        } else {
            0
        };
        lemma_last_ws_in_range(line, lo, ideal);
    }
}

proof fn lemma_narrow_tolerance_safe(line: Seq<char>, start: int, width: nat, tolerance: nat)
    requires
        tolerance < width,
        0 <= start,
    ensures
        wrap_safe_from(line, start, width, tolerance),
    decreases line.len() - start,
{
    if start < line.len() {
        let e = split_point(line, start, width, tolerance);
        lemma_split_point_bounds(line, start, width, tolerance);
        lemma_skip_ws_ge(line, e);
        lemma_narrow_tolerance_safe(line, skip_ws(line, e), width, tolerance);
    }
}

/// With a tolerance below the width, every text wraps safely: each split
/// point lies after its segment's start.
pub proof fn law_narrow_tolerance_wraps_safely(ls: Seq<Seq<char>>, width: nat, tolerance: nat)
    requires
        tolerance < width,
    ensures
        wrap_all_safe(ls, width, tolerance),
{
    assert forall|i: int| 0 <= i < ls.len() implies wrap_line_safe(#[trigger] ls[i], width, tolerance) by {
        lemma_narrow_tolerance_safe(ls[i], 0, width, tolerance);
    }
}

/// Characters of a text that are not whitespace, in order.
pub open spec fn visible(s: Seq<char>) -> Seq<char>
    decreases s.len(),
{
    if s.len() == 0 {
        seq![]
    } else if is_ws(s.last()) {
        visible(s.drop_last())
    } else {
        visible(s.drop_last()).push(s.last())
    }
}

/// Segments one after another.
pub open spec fn concat_all(segs: Seq<Seq<char>>) -> Seq<char>
    decreases segs.len(),
{
    if segs.len() == 0 {
        seq![]
    } else {
        segs[0] + concat_all(segs.drop_first())
    }
}

proof fn lemma_visible_add(a: Seq<char>, b: Seq<char>)
    ensures
        visible(a + b) == visible(a) + visible(b),
    decreases b.len(),
{
    if b.len() == 0 {
        assert(a + b =~= a);
        assert(visible(a) + visible(b) =~= visible(a));
    } else {
        assert((a + b).drop_last() =~= a + b.drop_last());
        assert((a + b).last() == b.last());
        lemma_visible_add(a, b.drop_last());
        if !is_ws(b.last()) {
            assert(visible(a) + visible(b.drop_last()).push(b.last()) =~= (visible(a) + visible(
                b.drop_last(),
            )).push(b.last()));
        }
    }
}

proof fn lemma_visible_trim_end(s: Seq<char>)
    ensures
        visible(trim_end(s)) == visible(s),
    decreases s.len(),
{
    if s.len() > 0 && is_ws(s.last()) {
        lemma_visible_trim_end(s.drop_last());
    }
}

proof fn lemma_visible_all_ws(s: Seq<char>)
    requires
        forall|k: int| 0 <= k < s.len() ==> is_ws(#[trigger] s[k]),
    ensures
        visible(s) == Seq::<char>::empty(),
    decreases s.len(),
{
    if s.len() > 0 {
        assert(s.last() == s[s.len() - 1]);
        lemma_visible_all_ws(s.drop_last());
    }
}

proof fn lemma_skip_ws_all_ws(line: Seq<char>, i: int)
    requires
        0 <= i <= line.len(),
    ensures
        forall|k: int| i <= k < skip_ws(line, i) ==> is_ws(#[trigger] line[k]),
    decreases line.len() - i,
{
    if i < line.len() && is_ws(line[i]) {
        lemma_skip_ws_all_ws(line, i + 1);
    }
}

proof fn lemma_trim_end_no_trailing_ws(s: Seq<char>)
    ensures
        trim_end(s).len() == 0 || !is_ws(trim_end(s).last()),
    decreases s.len(),
{
    if s.len() > 0 && is_ws(s.last()) {
        lemma_trim_end_no_trailing_ws(s.drop_last());
    }
}

/// Each segment of a safe wrap is at most `width` long and ends in no
/// whitespace; together they hold the line's visible characters from
/// `start` on.
proof fn lemma_wrap_from_props(line: Seq<char>, start: int, width: nat, tolerance: nat)
    requires
        0 <= start <= line.len(),
        wrap_safe_from(line, start, width, tolerance),
    ensures
        forall|k: int|
            0 <= k < wrap_from(line, start, width, tolerance).len() ==> {
                let seg = #[trigger] wrap_from(line, start, width, tolerance)[k];
                &&& seg.len() <= width
                &&& (seg.len() == 0 || !is_ws(seg.last()))
            },
        visible(concat_all(wrap_from(line, start, width, tolerance))) == visible(line.skip(start)),
    decreases line.len() - start,
{
    if start == line.len() {
        assert(line.skip(start) =~= Seq::<char>::empty());
    } else {
        let e = split_point(line, start, width, tolerance);
        let next = skip_ws(line, e);
        let seg = trim_end(line.subrange(start, e));
        lemma_split_point_bounds(line, start, width, tolerance);
        assert(start <= e && start < next && next <= line.len());
        lemma_skip_ws_ge(line, e);
        lemma_trim_end_len(line.subrange(start, e));
        lemma_trim_end_no_trailing_ws(line.subrange(start, e));
        lemma_wrap_from_props(line, next, width, tolerance);
        let rest = wrap_from(line, next, width, tolerance);
        assert(wrap_from(line, start, width, tolerance) == seq![seg] + rest);
        assert forall|k: int| 0 <= k < (seq![seg] + rest).len() implies ({
            let x = #[trigger] (seq![seg] + rest)[k];
            &&& x.len() <= width
            &&& (x.len() == 0 || !is_ws(x.last()))
        }) by {
            if k > 0 {
                assert((seq![seg] + rest)[k] == rest[k - 1]);
            }
        }
        let all = seq![seg] + rest;
        assert(all[0] == seg);
        assert(all.drop_first() =~= rest);
        lemma_visible_add(seg, concat_all(rest));
        lemma_visible_trim_end(line.subrange(start, e));
        lemma_skip_ws_all_ws(line, e);
        assert forall|k: int| 0 <= k < line.subrange(e, next).len() implies is_ws(
            #[trigger] line.subrange(e, next)[k],
        ) by {
            assert(line.subrange(e, next)[k] == line[e + k]);
        }
        lemma_visible_all_ws(line.subrange(e, next));
        assert(line.skip(start) =~= line.subrange(start, e) + line.subrange(e, next) + line.skip(next));
        lemma_visible_add(line.subrange(start, e) + line.subrange(e, next), line.skip(next));
        lemma_visible_add(line.subrange(start, e), line.subrange(e, next));
        assert(line.subrange(start, e) + Seq::<char>::empty() =~= line.subrange(start, e));
    }
}

/// Every wrapped line is at most `width` characters long and ends in no
/// whitespace, whenever the text wraps safely.
pub proof fn law_wrapped_lines_fit(ls: Seq<Seq<char>>, width: nat, tolerance: nat)
    requires
        wrap_all_safe(ls, width, tolerance),
    ensures
        forall|k: int|
            0 <= k < wrap_all(ls, width, tolerance).len() ==> {
                let l = #[trigger] wrap_all(ls, width, tolerance)[k];
                &&& l.len() <= width
                &&& (l.len() == 0 || !is_ws(l.last()))
            },
    decreases ls.len(),
{
    if ls.len() > 0 {
        assert forall|i: int| 0 <= i < ls.drop_last().len() implies wrap_line_safe(
            #[trigger] ls.drop_last()[i],
            width,
            tolerance,
        ) by {
            assert(ls.drop_last()[i] == ls[i]);
        }
        law_wrapped_lines_fit(ls.drop_last(), width, tolerance);
        let a = wrap_all(ls.drop_last(), width, tolerance);
        let b = wrap_line(ls.last(), width, tolerance);
        assert(wrap_line_safe(ls[ls.len() - 1], width, tolerance));
        if trim(ls.last()).len() != 0 {
            lemma_wrap_from_props(ls.last(), 0, width, tolerance);
        }
        assert forall|k: int| 0 <= k < (a + b).len() implies ({
            let l = #[trigger] (a + b)[k];
            &&& l.len() <= width
            &&& (l.len() == 0 || !is_ws(l.last()))
        }) by {
            if k >= a.len() {
                assert((a + b)[k] == b[k - a.len()]);
            }
        }
    }
}

/// A blank source line wraps to exactly one empty line.
pub proof fn law_blank_line_wraps_to_one_empty_line(line: Seq<char>, width: nat, tolerance: nat)
    requires
        trim(line).len() == 0,
    ensures
        wrap_line(line, width, tolerance) == seq![Seq::<char>::empty()],
{
}

/// Wrapping a line keeps its visible characters: those of the wrapped
/// lines, in order, are those of the line, whenever it wraps safely.
pub proof fn law_wrap_keeps_visible_chars(line: Seq<char>, width: nat, tolerance: nat)
    requires
        wrap_line_safe(line, width, tolerance),
    ensures
        visible(concat_all(wrap_line(line, width, tolerance))) == visible(line),
{
    if trim(line).len() == 0 {
        lemma_trim_empty_iff_all_ws(line);
        lemma_visible_all_ws(line);
        let w = seq![Seq::<char>::empty()];
        assert(w.drop_first() =~= Seq::<Seq<char>>::empty());
        assert(concat_all(Seq::<Seq<char>>::empty()) == Seq::<char>::empty());
        assert(w[0] == Seq::<char>::empty());
        assert(concat_all(w) == w[0] + concat_all(w.drop_first()));
        assert(concat_all(w) =~= Seq::<char>::empty());
    } else {
        lemma_wrap_from_props(line, 0, width, tolerance);
        assert(line.skip(0) =~= line);
    }
}

proof fn lemma_concat_all_add(a: Seq<Seq<char>>, b: Seq<Seq<char>>)
    ensures
        concat_all(a + b) == concat_all(a) + concat_all(b),
    decreases a.len(),
{
    if a.len() == 0 {
        assert(a + b =~= b);
    } else {
        assert((a + b).drop_first() =~= a.drop_first() + b);
        assert((a + b)[0] == a[0]);
        lemma_concat_all_add(a.drop_first(), b);
    }
}

proof fn lemma_concat_all_one(x: Seq<char>)
    ensures
        concat_all(seq![x]) == x,
{
    assert(seq![x].drop_first() =~= Seq::<Seq<char>>::empty());
    assert(concat_all(Seq::<Seq<char>>::empty()) == Seq::<char>::empty());
    assert(seq![x][0] == x);
    assert(concat_all(seq![x]) == x + concat_all(seq![x].drop_first()));
    assert(x + Seq::<char>::empty() =~= x);
}

/// The lines of a text hold its visible characters: only line breaks, and
/// carriage returns before them, are left out.
proof fn lemma_lines_keep_visible(s: Seq<char>, cur: Seq<char>)
    ensures
        visible(concat_all(lines_acc(s, cur))) == visible(cur) + visible(s),
    decreases s.len(),
{
    if s.len() == 0 {
        if cur.len() > 0 {
            lemma_concat_all_one(cur);
        }
        assert(visible(cur) + visible(s) =~= visible(cur)) by {
            assert(visible(s) == Seq::<char>::empty());
        }
        if cur.len() == 0 {
            assert(visible(cur) == Seq::<char>::empty());
        }
    } else {
        let rest = s.drop_first();
        assert(s =~= seq![s[0]] + rest);
        lemma_visible_add(seq![s[0]], rest);
        if s[0] == '\n' {
            assert(visible(seq![s[0]]) == Seq::<char>::empty()) by {
                assert(seq![s[0]].drop_last() =~= Seq::<char>::empty());
                assert(seq![s[0]].last() == '\n');
                assert(('\n' as u32) == 10);
                assert(is_ws('\n'));
                assert(visible(Seq::<char>::empty()) == Seq::<char>::empty());
            }
            let tail = lines_acc(rest, seq![]);
            lemma_lines_keep_visible(rest, seq![]);
            lemma_concat_all_add(seq![strip_cr(cur)], tail);
            lemma_concat_all_one(strip_cr(cur));
            lemma_visible_add(strip_cr(cur), concat_all(tail));
            if cur.len() > 0 && cur.last() == '\r' {
                assert(cur =~= cur.drop_last().push('\r'));
            }
            assert(visible(Seq::<char>::empty()) == Seq::<char>::empty());
            assert(visible(cur) + visible(s) =~= visible(cur) + visible(rest));
            assert(Seq::<char>::empty() + visible(rest) =~= visible(rest));
        } else {
            lemma_lines_keep_visible(rest, cur.push(s[0]));
            assert(cur.push(s[0]) =~= cur + seq![s[0]]);
            lemma_visible_add(cur, seq![s[0]]);
            assert(visible(cur) + visible(seq![s[0]]) + visible(rest) =~= visible(cur) + (visible(
                seq![s[0]],
            ) + visible(rest)));
        }
    }
}

proof fn lemma_wrap_all_keeps_visible(ls: Seq<Seq<char>>, width: nat, tolerance: nat)
    requires
        wrap_all_safe(ls, width, tolerance),
    ensures
        visible(concat_all(wrap_all(ls, width, tolerance))) == visible(concat_all(ls)),
    decreases ls.len(),
{
    if ls.len() > 0 {
        let init = ls.drop_last();
        assert forall|i: int| 0 <= i < init.len() implies wrap_line_safe(#[trigger] init[i], width, tolerance) by {
            assert(init[i] == ls[i]);
        }
        lemma_wrap_all_keeps_visible(init, width, tolerance);
        assert(wrap_line_safe(ls[ls.len() - 1], width, tolerance));
        law_wrap_keeps_visible_chars(ls.last(), width, tolerance);
        let a = wrap_all(init, width, tolerance);
        let b = wrap_line(ls.last(), width, tolerance);
        lemma_concat_all_add(a, b);
        lemma_visible_add(concat_all(a), concat_all(b));
        assert(ls =~= init + seq![ls.last()]);
        lemma_concat_all_add(init, seq![ls.last()]);
        lemma_concat_all_one(ls.last());
        lemma_visible_add(concat_all(init), ls.last());
    } else {
        assert(wrap_all(ls, width, tolerance) == Seq::<Seq<char>>::empty());
    }
}

/// Wrapping a text keeps its visible characters: those of all the wrapped
/// lines, in order, are those of the text, whenever it wraps safely.
pub proof fn law_wrap_text_keeps_visible_chars(text: Seq<char>, width: nat, tolerance: nat)
    requires
        wrap_all_safe(lines_of(text), width, tolerance),
    ensures
        visible(concat_all(wrap_all(lines_of(text), width, tolerance))) == visible(text),
{
    lemma_wrap_all_keeps_visible(lines_of(text), width, tolerance);
    lemma_lines_keep_visible(text, seq![]);
    assert(visible(Seq::<char>::empty()) == Seq::<char>::empty());
    assert(Seq::<char>::empty() + visible(text) =~= visible(text));
}

/// A wrapper made for width `w` without a tolerance (`a`, as `new(w, None)`
/// makes it) is the very wrapper made for `w` with tolerance 5 (`b`, as
/// `new(w, Some(5))` makes it), so both wrap every text alike.
pub proof fn law_default_tolerance_is_five(a: TextWrapper, b: TextWrapper, w: u16)
    requires
        a.width() == w && a.tolerance() == 5,
        b.width() == w && b.tolerance() == 5,
    ensures
        a == b,
{
}

proof fn lemma_no_ws_when_none_found(line: Seq<char>, lo: int, hi: int)
    requires
        last_ws_in(line, lo, hi) == -1,
        0 <= lo,
        hi <= line.len(),
    ensures
        forall|k: int| lo <= k < hi ==> !is_ws(#[trigger] line[k]),
    decreases hi - lo,
{
    if hi > lo {
        lemma_no_ws_when_none_found(line, lo, hi - 1);
    }
}

/// Where a segment ends: when the rest of the line fits, at the line's end;
/// otherwise, when some whitespace lies in the tolerance window
/// `[start + width - tolerance, start + width)`, at the last such
/// whitespace, so no word is cut; only when none lies there, at
/// `start + width`, cutting the word.
pub proof fn law_split_at_last_window_whitespace(
    line: Seq<char>,
    start: int,
    width: nat,
    tolerance: nat,
)
    requires
        0 <= start <= line.len(),
    ensures
        line.len() - start <= width ==> split_point(line, start, width, tolerance) == line.len(),
        line.len() - start > width ==> {
            let ideal = start + width;
            let lo = if ideal - tolerance > 0 { ideal - tolerance } else { 0 };
            let e = split_point(line, start, width, tolerance);
            &&& (exists|k: int| lo <= k < ideal && is_ws(#[trigger] line[k])) ==> {
                &&& lo <= e < ideal
                &&& is_ws(line[e])
                &&& forall|k: int| e < k < ideal ==> !is_ws(#[trigger] line[k])
            }
            &&& (forall|k: int| lo <= k < ideal ==> !is_ws(#[trigger] line[k])) ==> e == ideal
        },
{
    if line.len() - start > width {
        let ideal = start + width;
        let lo = if ideal - tolerance > 0 { ideal - tolerance } else { 0 };
        lemma_last_ws_in_range(line, lo, ideal);
        let w = last_ws_in(line, lo, ideal);
        if w == -1 {
            lemma_no_ws_when_none_found(line, lo, ideal);
        } else {
            lemma_last_ws_after(line, lo, ideal);
        }
    }
}

proof fn lemma_last_ws_after(line: Seq<char>, lo: int, hi: int)
    requires
        0 <= lo,
        hi <= line.len(),
    ensures
        forall|k: int| last_ws_in(line, lo, hi) < k < hi && lo <= k ==> !is_ws(#[trigger] line[k]),
    decreases hi - lo,
{
    if hi > lo && !is_ws(line[hi - 1]) {
        lemma_last_ws_after(line, lo, hi - 1);
    }
}

} // verus!
