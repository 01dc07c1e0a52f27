//! Styled lines as terminal text: each coloured span wrapped in the ANSI
//! escape codes of its foreground colour, lines joined by newlines.

use vstd::prelude::*;
use crate::renderer::{Color, StyledLine, StyledSpan, lines_view};
use crate::text_wrapper::plain_text;
use crate::text::{decimal, push_decimal, push_str, string_from_chars, join_seq};

verus! {

/// The ANSI foreground code of a colour, or `None` for the terminal's own
/// colour: grey shows as bright black and dark grey as black.
pub open spec fn ansi_code(c: Color) -> Option<nat> {
    match c {
        Color::Reset => None,
        Color::Black => Some(30),
        Color::Red => Some(31),
        Color::Green => Some(32),
        Color::Yellow => Some(33),
        Color::Blue => Some(34),
        Color::Magenta => Some(35),
        Color::Cyan => Some(36),
        Color::Gray => Some(90),
        Color::DarkGray => Some(30),
        Color::LightRed => Some(91),
        Color::LightGreen => Some(92),
        Color::LightYellow => Some(93),
        Color::LightBlue => Some(94),
        Color::LightMagenta => Some(95),
        Color::LightCyan => Some(96),
        Color::White => Some(37),
    }
}

/// Text in a foreground colour: the colour's escape code, the text, and the
/// code that restores the default foreground.
pub open spec fn painted(content: Seq<char>, code: nat) -> Seq<char> {
    seq!['\x1b', '['] + decimal(code) + seq!['m'] + content + seq!['\x1b', '[', '3', '9', 'm']
}

/// A span as terminal text.
pub open spec fn span_text(s: (Seq<char>, Option<Color>)) -> Seq<char> {
    match s.1 {
        Some(c) => match ansi_code(c) {
            Some(code) => painted(s.0, code),
            None => s.0,
        },
        None => s.0,
    }
}

/// A line as terminal text: its spans one after another.
pub open spec fn line_text(l: Seq<(Seq<char>, Option<Color>)>) -> Seq<char>
    decreases l.len(),
{
    if l.len() == 0 {
        seq![]
    } else {
        line_text(l.drop_last()) + span_text(l.last())
    }
}

/// Lines as terminal text, joined by newlines.
pub open spec fn text_of_lines(ls: Seq<Seq<(Seq<char>, Option<Color>)>>) -> Seq<char> {
    join_seq(ls.map_values(|l: Seq<(Seq<char>, Option<Color>)>| line_text(l)), seq!['\n'])
}

fn ansi_code_exec(c: Color) -> (r: Option<u64>)
    ensures
        match r {
            Some(n) => ansi_code(c) == Some(n as nat),
            None => ansi_code(c) is None,
        },
{
    match c {
        Color::Reset => None,
        Color::Black => Some(30),
        Color::Red => Some(31),
        Color::Green => Some(32),
        Color::Yellow => Some(33),
        Color::Blue => Some(34),
        Color::Magenta => Some(35),
        Color::Cyan => Some(36),
        Color::Gray => Some(90),
        Color::DarkGray => Some(30),
        Color::LightRed => Some(91),
        Color::LightGreen => Some(92),
        Color::LightYellow => Some(93),
        Color::LightBlue => Some(94),
        Color::LightMagenta => Some(95),
        Color::LightCyan => Some(96),
        Color::White => Some(37),
    }
}

fn push_span_text(out: &mut Vec<char>, span: &StyledSpan)
    ensures
        final(out)@ == old(out)@ + span_text(span@),
{
    let code = match span.fg {
        Some(c) => ansi_code_exec(c),
        None => None,
    };
    match code {
        Some(n) => {
            out.push('\x1b');
            out.push('[');
            push_decimal(out, n);
            out.push('m');
            push_str(out, span.content.as_str());
            out.push('\x1b');
            out.push('[');
            out.push('3');
            out.push('9');
            out.push('m');
            assert(final(out)@ =~= old(out)@ + span_text(span@));
        },
        None => {
            push_str(out, span.content.as_str());
        },
    }
}

fn push_line_text(out: &mut Vec<char>, line: &StyledLine)
    ensures
        final(out)@ == old(out)@ + line_text(line@),
{
    let ghost lv = line@;
    let mut i: usize = 0;
    assert(old(out)@ + line_text(lv.take(0)) =~= old(out)@);
    while i < line.spans.len()
        invariant
            i <= line.spans@.len(),
            lv == line@,
            lv == line.spans@.map_values(|s: StyledSpan| s@),
            out@ == old(out)@ + line_text(lv.take(i as int)),
        decreases line.spans.len() - i,
    {
        assert(lv.take(i + 1).drop_last() =~= lv.take(i as int));
        assert(lv.take(i + 1).last() == line.spans@[i as int]@);
        push_span_text(out, &line.spans[i]);
        assert(out@ =~= old(out)@ + line_text(lv.take(i + 1)));
        i = i + 1;
    }
    assert(lv.take(i as int) =~= lv);
}

/// A span as terminal text.
pub fn render_span(span: &StyledSpan) -> (r: String)
    ensures
        r@ == span_text(span@),
{
    let mut out: Vec<char> = Vec::new();
    push_span_text(&mut out, span);
    assert(out@ =~= span_text(span@));
    string_from_chars(out.as_slice())
}

/// A line as terminal text.
pub fn render_line(line: &StyledLine) -> (r: String)
    ensures
        r@ == line_text(line@),
{
    let mut out: Vec<char> = Vec::new();
    push_line_text(&mut out, line);
    assert(out@ =~= line_text(line@));
    string_from_chars(out.as_slice())
}

/// Lines as terminal text, joined by newlines.
pub fn render_text_inline(lines: &Vec<StyledLine>) -> (r: String)
    ensures
        r@ == text_of_lines(lines_view(lines@)),
{
    let ghost lv = lines_view(lines@);
    let ghost tv = lv.map_values(|l: Seq<(Seq<char>, Option<Color>)>| line_text(l));
    let mut out: Vec<char> = Vec::new();
    let mut i: usize = 0;
    while i < lines.len()
        invariant
            i <= lines@.len(),
            lv == lines_view(lines@),
            tv == lv.map_values(|l: Seq<(Seq<char>, Option<Color>)>| line_text(l)),
            out@ == join_seq(tv.take(i as int), seq!['\n']),
        decreases lines.len() - i,
    {
        assert(tv.take(i + 1).drop_last() =~= tv.take(i as int));
        assert(tv.take(i + 1).last() == line_text(lines@[i as int]@));
        if i > 0 {
            out.push('\n');
        } else {
            assert(join_seq(tv.take(0), seq!['\n']) =~= Seq::<char>::empty());
        }
        push_line_text(&mut out, &lines[i]);
        proof {
            if i == 0 {
                assert(out@ =~= tv.take(1)[0]);
            } else {
                assert(out@ =~= join_seq(tv.take(i as int), seq!['\n']) + seq!['\n'] + tv.take(
                    i + 1,
                ).last());
            }
        }
        i = i + 1;
    }
    assert(tv.take(i as int) =~= tv);
    string_from_chars(out.as_slice())
}


/// A line whose spans have no colour, or the terminal's own, renders as its
/// plain text.
pub proof fn law_uncoloured_line_is_plain(l: Seq<(Seq<char>, Option<Color>)>)
    requires
        forall|i: int| 0 <= i < l.len() ==> ((#[trigger] l[i]).1 matches Some(c) ==> ansi_code(c) is None),
    ensures
        line_text(l) == plain_text(l),
    decreases l.len(),
{
    if l.len() > 0 {
        assert(l.last() == l[l.len() - 1]);
        law_uncoloured_line_is_plain(l.drop_last());
    }
}

/// Lines become terminal text one per terminal line: no lines give no text,
/// one line gives its own text, and each further line is added after a
/// newline.
pub proof fn law_lines_are_newline_separated(
    ls: Seq<Seq<(Seq<char>, Option<Color>)>>,
    l: Seq<(Seq<char>, Option<Color>)>,
)
    ensures
        text_of_lines(Seq::<Seq<(Seq<char>, Option<Color>)>>::empty()) == Seq::<char>::empty(),
        text_of_lines(seq![l]) == line_text(l),
        ls.len() > 0 ==> text_of_lines(ls.push(l)) == text_of_lines(ls) + seq!['\n'] + line_text(l),
{
    let f = |x: Seq<(Seq<char>, Option<Color>)>| line_text(x);
    assert(Seq::<Seq<(Seq<char>, Option<Color>)>>::empty().map_values(f) =~= Seq::<Seq<char>>::empty());
    assert(seq![l].map_values(f) =~= seq![line_text(l)]);
    if ls.len() > 0 {
        assert(ls.push(l).map_values(f) =~= ls.map_values(f).push(line_text(l)));
        assert(ls.push(l).map_values(f).drop_last() =~= ls.map_values(f));
    }
}

} // verus!
