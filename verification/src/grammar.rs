//! The lines of a configuration file: section headers and settings.
use vstd::prelude::*;
use vstd::string::*;
use crate::text::{chars_of, push_line, split, split_spec, texts};

verus! {

/// The two ways to write a section header.
#[derive(Clone, Copy, Debug, PartialEq, Eq, Structural)]
pub enum Syntax {
    /// The provider's file: `[name]` or `[profile name]`. The name runs up
    /// to the last `]` of the line.
    Aws,
    /// The tool's own file: `[name]`. The name runs up to the first `]`.
    Plain,
}

/// The characters that count as white space: those that Unicode gives the
/// property White_Space.
pub open spec fn is_space(c: char) -> bool {
    let n = c as u32;
    ||| 0x9 <= n <= 0xd
    ||| n == 0x20
    ||| n == 0x85
    ||| n == 0xa0
    ||| n == 0x1680
    ||| 0x2000 <= n <= 0x200a
    ||| n == 0x2028
    ||| n == 0x2029
    ||| n == 0x202f
    ||| n == 0x205f
    ||| n == 0x3000
}

/// Decides whether a character is white space.
pub fn space(c: char) -> (r: bool)
    ensures
        r == is_space(c),
{
    let n: u32 = c as u32;
    (0x9 <= n && n <= 0xd) || n == 0x20 || n == 0x85 || n == 0xa0 || n == 0x1680 || (0x2000 <= n
        && n <= 0x200a) || n == 0x2028 || n == 0x2029 || n == 0x202f || n == 0x205f || n == 0x3000
}

/// The first position at or after `from` that holds no white space; the
/// length of the line where there is none.
pub open spec fn skip_spaces(line: Seq<char>, from: int) -> int
    decreases line.len() - from,
{
    if from < 0 || from >= line.len() {
        line.len() as int
    } else if is_space(line[from]) {
        skip_spaces(line, from + 1)
    } else {
        from
    }
}

/// The first position at or after `from` that holds white space; the
/// length of the line where there is none.
pub open spec fn token_end(line: Seq<char>, from: int) -> int
    decreases line.len() - from,
{
    if from < 0 || from >= line.len() {
        line.len() as int
    } else if is_space(line[from]) {
        from
    } else {
        token_end(line, from + 1)
    }
}

/// Where a value that begins at `from` ends. A value is a run of
/// characters that are no white space. Where the run ends in a comma and one
/// space and another run follow, the value is a list and goes on with that
/// run, and so forth.
pub open spec fn value_end(line: Seq<char>, from: int) -> int
    decreases line.len() - from,
{
    let end = token_end(line, from);
    if from < end && end + 1 < line.len() && line[end - 1] == ',' && line[end] == ' ' && !is_space(
        line[end + 1],
    ) {
        value_end(line, end + 1)
    } else {
        end
    }
}

/// Where `c` stands last in `s`, if it stands there at all.
pub open spec fn last_of(s: Seq<char>, c: char) -> Option<int>
    decreases s.len(),
{
    if s.len() == 0 {
        None
    } else if s.last() == c {
        Some(s.len() - 1)
    } else {
        last_of(s.drop_last(), c)
    }
}

/// Where `c` stands first in `s` at or after `from`, if it does.
pub open spec fn first_of(s: Seq<char>, c: char, from: int) -> Option<int>
    decreases s.len() - from,
{
    if from < 0 || from >= s.len() {
        None
    } else if s[from] == c {
        Some(from)
    } else {
        first_of(s, c, from + 1)
    }
}

fn skip(line: &Vec<char>, from: usize) -> (r: usize)
    requires
        from <= line.len(),
    ensures
        r == skip_spaces(line@, from as int),
        from <= r <= line.len(),
{
    let mut i: usize = from;
    while i < line.len() && space(line[i])
        invariant
            from <= i <= line.len(),
            skip_spaces(line@, from as int) == skip_spaces(line@, i as int),
        decreases line.len() - i,
    {
        i = i + 1;
    }
    i
}

fn token(line: &Vec<char>, from: usize) -> (r: usize)
    requires
        from <= line.len(),
    ensures
        r == token_end(line@, from as int),
        from <= r <= line.len(),
{
    let mut i: usize = from;
    while i < line.len() && !space(line[i])
        invariant
            from <= i <= line.len(),
            token_end(line@, from as int) == token_end(line@, i as int),
        decreases line.len() - i,
    {
        i = i + 1;
    }
    i
}

fn value(line: &Vec<char>, from: usize) -> (r: usize)
    requires
        from <= line.len(),
    ensures
        r == value_end(line@, from as int),
        from <= r <= line.len(),
{
    let mut start: usize = from;
    loop
        invariant
            from <= start <= line.len(),
            value_end(line@, from as int) == value_end(line@, start as int),
        decreases line.len() - start,
    {
        let end = token(line, start);
        if start < end && end < line.len() && end + 1 < line.len() && line[end - 1] == ','
            && line[end] == ' ' && !space(line[end + 1]) {
            start = end + 1;
        } else {
            return end;
        }
    }
}

fn last_in(line: &Vec<char>, c: char, from: usize, to: usize) -> (r: Option<usize>)
    requires
        from <= to <= line.len(),
    ensures
        match r {
            Some(at) => from <= at < to && last_of(line@.subrange(from as int, to as int), c)
                == Some(at - from),
            None => last_of(line@.subrange(from as int, to as int), c) is None,
        },
{
    let ghost whole = line@.subrange(from as int, to as int);
    let mut i: usize = to;
    proof {
        assert(line@.subrange(from as int, i as int) =~= whole);
    }
    while i > from
        invariant
            from <= i <= to,
            to <= line.len(),
            whole == line@.subrange(from as int, to as int),
            last_of(whole, c) == last_of(line@.subrange(from as int, i as int), c),
        decreases i,
    {
        let ghost part = line@.subrange(from as int, i as int);
        proof {
            assert(part.last() == line@[i - 1]);
            assert(part.drop_last() =~= line@.subrange(from as int, i - 1));
        }
        if line[i - 1] == c {
            return Some(i - 1);
        }
        i = i - 1;
    }
    None
}

fn first_in(line: &Vec<char>, c: char, from: usize) -> (r: Option<usize>)
    requires
        from <= line.len(),
    ensures
        match r {
            Some(at) => from <= at < line.len() && first_of(line@, c, from as int) == Some(
                at as int,
            ),
            None => first_of(line@, c, from as int) is None,
        },
{
    let mut i: usize = from;
    while i < line.len()
        invariant
            from <= i <= line.len(),
            first_of(line@, c, from as int) == first_of(line@, c, i as int),
        decreases line.len() - i,
    {
        if line[i] == c {
            return Some(i);
        }
        i = i + 1;
    }
    None
}

/// Whether the line goes on with the word `profile` and a space after its
/// opening bracket.
pub open spec fn has_profile_word(line: Seq<char>) -> bool {
    line.len() >= 9 && line.subrange(1, 9) == "profile "@
}

fn profile_word(line: &Vec<char>) -> (r: bool)
    ensures
        r == has_profile_word(line@),
{
    if line.len() < 9 {
        return false;
    }
    proof {
        reveal_strlit("profile ");
    }
    let r = line[1] == 'p' && line[2] == 'r' && line[3] == 'o' && line[4] == 'f' && line[5] == 'i'
        && line[6] == 'l' && line[7] == 'e' && line[8] == ' ';
    proof {
        let word = line@.subrange(1, 9);
        if r {
            assert(word =~= "profile "@);
        } else {
            assert(word[0] == line@[1] && word[1] == line@[2] && word[2] == line@[3] && word[3]
                == line@[4] && word[4] == line@[5] && word[5] == line@[6] && word[6] == line@[7]
                && word[7] == line@[8]);
        }
    }
    r
}

/// Where the section name of a header line stands: from the first position
/// up to, not including, the second. `None` for a line that is no header: a
/// header opens with `[` and holds a `]` after it. In the tool's own file
/// the name ends at the first `]`. In the provider's file it ends at the
/// last, and the word `profile` with a space may stand before it.
pub open spec fn section_span(line: Seq<char>, syntax: Syntax) -> Option<(int, int)> {
    if line.len() == 0 || line[0] != '[' {
        None
    } else {
        match syntax {
            Syntax::Plain => match first_of(line, ']', 1) {
                Some(close) => Some((1, close)),
                None => None,
            },
            Syntax::Aws => {
                let open = if has_profile_word(line) {
                    9int
                } else {
                    1int
                };
                match last_of(line.subrange(open, line.len() as int), ']') {
                    Some(close) => Some((open, open + close)),
                    None => None,
                }
            },
        }
    }
}

/// The section name of a header line; `None` for a line that is no header.
pub open spec fn section_name(line: Seq<char>, syntax: Syntax) -> Option<Seq<char>> {
    match section_span(line, syntax) {
        Some((from, to)) => Some(line.subrange(from, to)),
        None => None,
    }
}

fn section_bounds(line: &Vec<char>, syntax: Syntax) -> (r: Option<(usize, usize)>)
    ensures
        match r {
            Some((from, to)) => from <= to <= line.len() && section_span(line@, syntax) == Some(
                (from as int, to as int),
            ),
            None => section_span(line@, syntax) is None,
        },
{
    if line.len() == 0 || line[0] != '[' {
        return None;
    }
    match syntax {
        Syntax::Plain => match first_in(line, ']', 1) {
            Some(close) => Some((1, close)),
            None => None,
        },
        Syntax::Aws => {
            let open: usize = if profile_word(line) {
                9
            } else {
                1
            };
            match last_in(line, ']', open, line.len()) {
                Some(close) => Some((open, close)),
                None => None,
            }
        },
    }
}

/// Where key and value of a setting stand in a line, each from its first
/// position up to, not including, its second. `None` for a line that is no
/// setting.
///
/// The key is the first run of characters that are no white space. Where
/// the next such run begins with `=`, the key is that whole run. Else the
/// key ends before the last `=` within the run, and a run without one makes
/// no setting. The value is the run that follows the `=` and any white space
/// after it, as `value_end` bounds it; it may be empty. What comes after
/// the value is ignored.
pub open spec fn setting_spans(line: Seq<char>) -> Option<((int, int), (int, int))> {
    let start = skip_spaces(line, 0);
    let end = token_end(line, start);
    let next = skip_spaces(line, end);
    let equals = if next < line.len() && line[next] == '=' {
        Some(next)
    } else {
        match last_of(line.subrange(start, end), '=') {
            Some(at) => Some(start + at),
            None => None,
        }
    };
    match equals {
        Some(at) => {
            let key_end = if at >= end {
                end
            } else {
                at
            };
            let from = skip_spaces(line, at + 1);
            Some(((start, key_end), (from, value_end(line, from))))
        },
        None => None,
    }
}

/// Key and value of a setting; `None` for a line that is no setting.
pub open spec fn setting(line: Seq<char>) -> Option<(Seq<char>, Seq<char>)> {
    match setting_spans(line) {
        Some((key, value)) => Some((line.subrange(key.0, key.1), line.subrange(value.0, value.1))),
        None => None,
    }
}

fn setting_bounds(line: &Vec<char>) -> (r: Option<((usize, usize), (usize, usize))>)
    ensures
        match r {
            Some((key, value)) => {
                &&& key.0 <= key.1 <= line.len()
                &&& value.0 <= value.1 <= line.len()
                &&& setting_spans(line@) == Some(
                    ((key.0 as int, key.1 as int), (value.0 as int, value.1 as int)),
                )
            },
            None => setting_spans(line@) is None,
        },
{
    let start = skip(line, 0);
    let end = token(line, start);
    let next = skip(line, end);
    let equals: Option<usize> = if next < line.len() && line[next] == '=' {
        Some(next)
    } else {
        last_in(line, '=', start, end)
    };
    match equals {
        Some(at) => {
            let key_end: usize = if at >= end {
                end
            } else {
                at
            };
            let from = skip(line, at + 1);
            let to = value(line, from);
            Some(((start, key_end), (from, to)))
        },
        None => None,
    }
}

/// What a line of a configuration file says.
#[derive(Debug)]
pub enum Line {
    /// A section header, with the name of the section.
    Section(String),
    /// A setting, with its key and its value.
    Setting(String, String),
    /// Anything else.
    Other,
}

/// What a line says, as mathematics has it.
pub enum LineView {
    Section(Seq<char>),
    Setting(Seq<char>, Seq<char>),
    Other,
}

impl View for Line {
    type V = LineView;

    open spec fn view(&self) -> LineView {
        match *self {
            Line::Section(name) => LineView::Section(name@),
            Line::Setting(key, value) => LineView::Setting(key@, value@),
            Line::Other => LineView::Other,
        }
    }
}

/// What a line says: a header where it is one, else a setting where it is
/// one, else nothing.
pub open spec fn meaning(line: Seq<char>, syntax: Syntax) -> LineView {
    match section_name(line, syntax) {
        Some(name) => LineView::Section(name),
        None => match setting(line) {
            Some((key, value)) => LineView::Setting(key, value),
            None => LineView::Other,
        },
    }
}

/// Reads one line.
pub fn read_line(line: &str, syntax: Syntax) -> (r: Line)
    ensures
        r@ == meaning(line@, syntax),
{
    let cs = chars_of(line);
    match section_bounds(&cs, syntax) {
        Some((from, to)) => Line::Section(String::from_str(line.substring_char(from, to))),
        None => match setting_bounds(&cs) {
            Some((key, value)) => Line::Setting(
                String::from_str(line.substring_char(key.0, key.1)),
                String::from_str(line.substring_char(value.0, value.1)),
            ),
            None => Line::Other,
        },
    }
}

/// A line without the carriage return at its end, if it has one.
pub open spec fn without_return(line: Seq<char>) -> Seq<char> {
    if line.len() > 0 && line.last() == '\r' {
        line.drop_last()
    } else {
        line
    }
}

/// The lines of a text. A line ends with a line feed, or with a carriage
/// return and a line feed; neither belongs to the line. What follows the
/// last line feed is a line too, as it stands, unless it is empty.
pub open spec fn lines_of(text: Seq<char>) -> Seq<Seq<char>> {
    let pieces = split_spec(text, "\n"@);
    let ended = Seq::new((pieces.len() - 1) as nat, |i: int| without_return(pieces[i]));
    if pieces.len() > 0 && pieces.last().len() > 0 {
        ended.push(pieces.last())
    } else {
        ended
    }
}

/// Splits a text into its lines.
pub fn lines(text: &str) -> (r: Vec<String>)
    ensures
        texts(r@) == lines_of(text@),
{
    proof {
        reveal_strlit("\n");
    }
    let pieces = split(text, "\n");
    let ghost ps = split_spec(text@, "\n"@);
    let mut r: Vec<String> = Vec::new();
    if pieces.len() == 0 {
        proof {
            assert(texts(r@) =~= lines_of(text@));
        }
        return r;
    }
    let mut i: usize = 0;
    while i < pieces.len() - 1
        invariant
            pieces.len() > 0,
            i <= pieces.len() - 1,
            texts(pieces@) == ps,
            texts(r@) == Seq::new(i as nat, |k: int| without_return(ps[k])),
        decreases pieces.len() - i,
    {
        let piece = pieces[i].as_str();
        let n: usize = piece.unicode_len();
        let ghost before = texts(r@);
        assert(ps[i as int] == piece@);
        let line = if n > 0 && piece.get_char(n - 1) == '\r' {
            String::from_str(piece.substring_char(0, n - 1))
        } else {
            String::from_str(piece)
        };
        proof {
            assert(piece@.drop_last() =~= piece@.subrange(0, n - 1));
            assert(line@ == without_return(piece@));
        }
        push_line(&mut r, line);
        proof {
            assert(Seq::new((i + 1) as nat, |k: int| without_return(ps[k])) =~= before.push(
                line@,
            ));
        }
        i = i + 1;
    }
    let last = &pieces[pieces.len() - 1];
    assert(ps.last() == last@);
    if last.as_str().unicode_len() > 0 {
        push_line(&mut r, last.clone());
    }
    r
}

} // verus!
