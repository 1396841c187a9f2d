//! Small verified helpers on strings, all stated over `Seq<char>`.
//!
//! Widths, positions and lengths count characters, never bytes.
use vstd::prelude::*;
use vstd::string::*;

verus! {

/// The view of an optional string.
pub open spec fn opt_text(o: Option<String>) -> Option<Seq<char>> {
    match o {
        Some(s) => Some(s@),
        None => None,
    }
}

/// The views of a vector of strings, in order.
pub open spec fn texts(v: Seq<String>) -> Seq<Seq<char>> {
    Seq::new(v.len(), |i: int| v[i]@)
}

/// Appending a string appends its view.
pub proof fn lemma_texts_push(v: Seq<String>, x: String)
    ensures
        texts(v.push(x)) == texts(v).push(x@),
{
    assert(texts(v.push(x)) =~= texts(v).push(x@));
}

/// The views of two vectors laid end to end are the views of the whole.
pub proof fn lemma_texts_add(v: Seq<String>, w: Seq<String>)
    ensures
        texts(v + w) == texts(v) + texts(w),
{
    assert(texts(v + w) =~= texts(v) + texts(w));
}

/// Moves the lines of `more` to the end of `lines`.
pub fn extend(lines: &mut Vec<String>, more: Vec<String>)
    ensures
        texts(final(lines)@) == texts(old(lines)@) + texts(more@),
{
    let mut more = more;
    proof {
        lemma_texts_add(lines@, more@);
    }
    lines.append(&mut more);
}

/// Adds one line to `lines`.
pub fn push_line(lines: &mut Vec<String>, line: String)
    ensures
        texts(final(lines)@) == texts(old(lines)@).push(line@),
{
    proof {
        lemma_texts_push(lines@, line);
    }
    lines.push(line);
}

/// A copy of the strings, in order.
pub fn copy_texts(v: &Vec<String>) -> (r: Vec<String>)
    ensures
        texts(r@) == texts(v@),
{
    let mut r: Vec<String> = Vec::new();
    let mut i: usize = 0;
    while i < v.len()
        invariant
            i <= v.len(),
            texts(r@) == texts(v@.take(i as int)),
        decreases v.len() - i,
    {
        let ghost before = texts(r@);
        push_line(&mut r, v[i].clone());
        proof {
            assert(texts(v@.take(i + 1)) =~= before.push(v@[i as int]@));
        }
        i = i + 1;
    }
    proof {
        assert(v@.take(v.len() as int) =~= v@);
    }
    r
}

/// A copy of a string that may be missing.
pub fn copy_text(o: &Option<String>) -> (r: Option<String>)
    ensures
        opt_text(r) == opt_text(*o),
{
    match o {
        Some(s) => Some(s.clone()),
        None => None,
    }
}

/// The characters of `s`, in order.
pub fn chars_of(s: &str) -> (v: Vec<char>)
    ensures
        v@ == s@,
{
    let mut v: Vec<char> = Vec::new();
    for c in it: s.chars()
        invariant
            v@ == it.seq().take(it.index() as int),
            it.seq() == s@,
    {
        v.push(c);
    }
    v
}

/// Whether two strings hold the same characters.
pub fn str_eq(a: &str, b: &str) -> (r: bool)
    ensures
        r == (a@ == b@),
{
    let x = String::from_str(a);
    let y = String::from_str(b);
    x == y
}

/// `n` spaces.
pub open spec fn blanks(n: nat) -> Seq<char> {
    Seq::new(n, |i: int| ' ')
}

/// `s` followed by as many spaces as it takes to reach `width` characters;
/// `s` itself when it is already that long.
pub open spec fn padded(s: Seq<char>, width: nat) -> Seq<char> {
    if s.len() >= width {
        s
    } else {
        s + blanks((width - s.len()) as nat)
    }
}

/// Left-aligns `s` in a field of `width` characters.
pub fn pad(s: &str, width: usize) -> (r: String)
    ensures
        r@ == padded(s@, width as nat),
{
    let n: usize = s.unicode_len();
    let mut r = String::from_str(s);
    let mut i: usize = n;
    while i < width
        invariant
            n == s@.len(),
            n <= i,
            i <= width || i == n,
            r@ == s@ + blanks((i - n) as nat),
        decreases width - i,
    {
        proof {
            reveal_strlit(" ");
            assert(" "@ =~= seq![' ']);
            assert(s@ + blanks((i - n) as nat) + seq![' '] =~= s@ + blanks((i + 1 - n) as nat));
        }
        r.append(" ");
        i = i + 1;
    }
    proof {
        if n >= width {
            assert(s@ + blanks(0) =~= s@);
        }
    }
    r
}

/// The first `max` characters of `s`; `s` itself when it has no more.
pub open spec fn clipped(s: Seq<char>, max: nat) -> Seq<char> {
    if s.len() <= max {
        s
    } else {
        s.take(max as int)
    }
}

/// Cuts `s` down to at most `max` characters.
pub fn clip(s: &str, max: usize) -> (r: &str)
    ensures
        r@ == clipped(s@, max as nat),
{
    let n: usize = s.unicode_len();
    if n <= max {
        s
    } else {
        s.substring_char(0, max)
    }
}

/// The parts with `sep` between each two neighbours.
pub open spec fn joined(parts: Seq<Seq<char>>, sep: Seq<char>) -> Seq<char>
    decreases parts.len(),
{
    if parts.len() == 0 {
        Seq::empty()
    } else if parts.len() == 1 {
        parts[0]
    } else {
        joined(parts.drop_last(), sep) + sep + parts.last()
    }
}

/// Concatenates `parts`, writing `sep` between each two neighbours.
pub fn join(parts: &Vec<String>, sep: &str) -> (r: String)
    ensures
        r@ == joined(texts(parts@), sep@),
{
    let mut r = String::new();
    let mut i: usize = 0;
    while i < parts.len()
        invariant
            i <= parts.len(),
            r@ == joined(texts(parts@).take(i as int), sep@),
        decreases parts.len() - i,
    {
        let ghost before = texts(parts@).take(i as int);
        let ghost after = texts(parts@).take(i + 1);
        proof {
            assert(after.drop_last() =~= before);
            assert(after.last() == parts@[i as int]@);
        }
        if i > 0 {
            r.append(sep);
        } else {
            proof {
                assert(r@ + parts@[0]@ =~= parts@[0]@);
            }
        }
        r.append(parts[i].as_str());
        i = i + 1;
    }
    proof {
        assert(texts(parts@).take(parts.len() as int) =~= texts(parts@));
    }
    r
}

/// The cells of a table row, each left-aligned in its column's width.
pub open spec fn aligned(cells: Seq<Seq<char>>, widths: Seq<usize>) -> Seq<Seq<char>> {
    Seq::new(cells.len(), |i: int| padded(cells[i], widths[i] as nat))
}

/// A table row: the cells, each left-aligned in its column's width, with one
/// space between each two.
pub open spec fn row_text(cells: Seq<Seq<char>>, widths: Seq<usize>) -> Seq<char> {
    joined(aligned(cells, widths), " "@)
}

/// Writes a table row.
pub fn row(cells: &Vec<String>, widths: &Vec<usize>) -> (r: String)
    requires
        cells.len() == widths.len(),
    ensures
        r@ == row_text(texts(cells@), widths@),
{
    let mut fields: Vec<String> = Vec::new();
    let mut i: usize = 0;
    while i < cells.len()
        invariant
            i <= cells.len(),
            cells.len() == widths.len(),
            texts(fields@) == aligned(texts(cells@), widths@).take(i as int),
        decreases cells.len() - i,
    {
        let field = pad(cells[i].as_str(), widths[i]);
        let ghost before = texts(fields@);
        push_line(&mut fields, field);
        proof {
            assert(aligned(texts(cells@), widths@).take(i + 1) =~= before.push(field@));
        }
        i = i + 1;
    }
    proof {
        assert(aligned(texts(cells@), widths@).take(cells.len() as int) =~= aligned(
            texts(cells@),
            widths@,
        ));
    }
    join(&fields, " ")
}

/// Where `sep` first occurs in `s` at or after `from`, if it does.
pub open spec fn find_from(s: Seq<char>, sep: Seq<char>, from: int) -> Option<int>
    decreases s.len() - from,
{
    if from < 0 || from + sep.len() > s.len() {
        None
    } else if s.subrange(from, from + sep.len()) == sep {
        Some(from)
    } else if from >= s.len() {
        None
    } else {
        find_from(s, sep, from + 1)
    }
}

/// The pieces of `s` between the occurrences of `sep`, taken from the left
/// and without overlap. A string without `sep` is one piece; so is the empty
/// string.
pub open spec fn split_spec(s: Seq<char>, sep: Seq<char>) -> Seq<Seq<char>>
    recommends
        sep.len() > 0,
    decreases s.len(),
{
    match find_from(s, sep, 0) {
        Some(at) => if sep.len() > 0 && 0 <= at && at + sep.len() <= s.len() {
            seq![s.take(at)] + split_spec(s.skip(at + sep.len()), sep)
        } else {
            seq![s]
        },
        None => seq![s],
    }
}

/// An occurrence that `find_from` reports lies inside the string.
pub proof fn lemma_find_from_bounds(s: Seq<char>, sep: Seq<char>, from: int)
    requires
        0 <= from,
    ensures
        find_from(s, sep, from) matches Some(at) ==> from <= at && at + sep.len() <= s.len()
            && s.subrange(at, at + sep.len()) == sep,
    decreases s.len() - from,
{
    if from + sep.len() > s.len() {
    } else if s.subrange(from, from + sep.len()) == sep {
    } else if from >= s.len() {
    } else {
        lemma_find_from_bounds(s, sep, from + 1);
    }
}

/// Searching the tail of a string finds what searching the whole string
/// from that offset finds.
pub proof fn lemma_find_from_skip(s: Seq<char>, sep: Seq<char>, base: int, from: int)
    requires
        0 <= base <= s.len(),
        0 <= from,
    ensures
        find_from(s.skip(base), sep, from) == match find_from(s, sep, base + from) {
            Some(at) => Some(at - base),
            None => None,
        },
    decreases s.len() - base - from,
{
    let t = s.skip(base);
    if from + sep.len() > t.len() {
    } else {
        assert(t.subrange(from, from + sep.len()) =~= s.subrange(
            base + from,
            base + from + sep.len(),
        ));
        if t.subrange(from, from + sep.len()) == sep {
        } else if from >= t.len() {
        } else {
            lemma_find_from_skip(s, sep, base, from + 1);
        }
    }
}

fn matches_at(cs: &Vec<char>, sep: &Vec<char>, at: usize) -> (r: bool)
    requires
        at + sep.len() <= cs.len(),
    ensures
        r == (cs@.subrange(at as int, at + sep.len()) == sep@),
{
    let mut k: usize = 0;
    while k < sep.len()
        invariant
            k <= sep.len(),
            at + sep.len() <= cs.len(),
            forall|j: int| 0 <= j < k ==> cs@[at + j] == sep@[j],
        decreases sep.len() - k,
    {
        if cs[at + k] != sep[k] {
            proof {
                assert(cs@.subrange(at as int, at + sep.len())[k as int] == cs@[at + k]);
            }
            return false;
        }
        k = k + 1;
    }
    proof {
        assert(cs@.subrange(at as int, at + sep.len()) =~= sep@);
    }
    true
}

fn find(cs: &Vec<char>, sep: &Vec<char>, from: usize) -> (r: Option<usize>)
    requires
        from <= cs.len(),
        sep.len() > 0,
    ensures
        match r {
            Some(at) => find_from(cs@, sep@, from as int) == Some(at as int),
            None => find_from(cs@, sep@, from as int) is None,
        },
{
    let mut i: usize = from;
    while sep.len() <= cs.len() && i <= cs.len() - sep.len()
        invariant
            from <= i <= cs.len(),
            sep.len() > 0,
            find_from(cs@, sep@, from as int) == find_from(cs@, sep@, i as int),
        decreases cs.len() - i,
    {
        if matches_at(cs, sep, i) {
            return Some(i);
        }
        i = i + 1;
    }
    None
}

/// Splits `s` at each occurrence of `sep`, as `split_spec` says.
pub fn split(s: &str, sep: &str) -> (r: Vec<String>)
    requires
        sep@.len() > 0,
    ensures
        texts(r@) == split_spec(s@, sep@),
{
    let cs = chars_of(s);
    let ps = chars_of(sep);
    let mut r: Vec<String> = Vec::new();
    let mut start: usize = 0;
    proof {
        assert(s@.skip(0) =~= s@);
        assert(texts(r@) + split_spec(s@, sep@) =~= split_spec(s@, sep@));
    }
    loop
        invariant_except_break
            split_spec(s@, sep@) == texts(r@) + split_spec(s@.skip(start as int), sep@),
        invariant
            cs@ == s@,
            ps@ == sep@,
            ps@.len() > 0,
            start <= cs.len(),
        ensures
            texts(r@) == split_spec(s@, sep@),
        decreases cs.len() - start,
    {
        let ghost rest = s@.skip(start as int);
        let ghost done = texts(r@);
        proof {
            lemma_find_from_skip(s@, sep@, start as int, 0);
            lemma_find_from_bounds(s@, sep@, start as int);
        }
        match find(&cs, &ps, start) {
            Some(at) => {
                let piece = s.substring_char(start, at);
                proof {
                    assert(piece@ =~= rest.take(at - start));
                    assert(rest.skip(at - start + sep@.len()) =~= s@.skip(at + sep@.len()));
                }
                r.push(String::from_str(piece));
                proof {
                    assert(texts(r@) =~= done + seq![piece@]);
                    assert(done + (seq![piece@] + split_spec(s@.skip(at + sep@.len()), sep@))
                        =~= texts(r@) + split_spec(s@.skip(at + sep@.len()), sep@));
                }
                start = at + ps.len();
            },
            None => {
                let piece = s.substring_char(start, cs.len());
                proof {
                    assert(piece@ =~= rest);
                }
                r.push(String::from_str(piece));
                proof {
                    assert(texts(r@) =~= done + seq![rest]);
                }
                break ;
            },
        }
    }
    r
}

/// The decimal digits of a natural number, most significant first.
pub open spec fn digits(n: nat) -> Seq<char>
    decreases n,
{
    if n < 10 {
        seq![digit(n)]
    } else {
        digits(n / 10) + seq![digit(n % 10)]
    }
}

/// The character that stands for a value below ten.
pub open spec fn digit(d: nat) -> char {
    if d == 0 {
        '0'
    } else if d == 1 {
        '1'
    } else if d == 2 {
        '2'
    } else if d == 3 {
        '3'
    } else if d == 4 {
        '4'
    } else if d == 5 {
        '5'
    } else if d == 6 {
        '6'
    } else if d == 7 {
        '7'
    } else if d == 8 {
        '8'
    } else {
        '9'
    }
}

/// An integer in decimal, with a leading `-` when it is negative.
pub open spec fn decimal(n: int) -> Seq<char> {
    if n < 0 {
        seq!['-'] + digits((-n) as nat)
    } else {
        digits(n as nat)
    }
}

fn digit_str(d: u64) -> (r: &'static str)
    requires
        d < 10,
    ensures
        r@ == seq![digit(d as nat)],
{
    proof {
        reveal_strlit("0");
        reveal_strlit("1");
        reveal_strlit("2");
        reveal_strlit("3");
        reveal_strlit("4");
        reveal_strlit("5");
        reveal_strlit("6");
        reveal_strlit("7");
        reveal_strlit("8");
        reveal_strlit("9");
    }
    let r = if d == 0 {
        "0"
    } else if d == 1 {
        "1"
    } else if d == 2 {
        "2"
    } else if d == 3 {
        "3"
    } else if d == 4 {
        "4"
    } else if d == 5 {
        "5"
    } else if d == 6 {
        "6"
    } else if d == 7 {
        "7"
    } else if d == 8 {
        "8"
    } else {
        "9"
    };
    assert(r@ =~= seq![digit(d as nat)]);
    r
}

fn digits_of(n: u64) -> (r: String)
    ensures
        r@ == digits(n as nat),
    decreases n,
{
    if n < 10 {
        String::from_str(digit_str(n))
    } else {
        let mut r = digits_of(n / 10);
        r.append(digit_str(n % 10));
        r
    }
}

/// Writes `n` in decimal.
pub fn decimal_string(n: i64) -> (r: String)
    ensures
        r@ == decimal(n as int),
{
    if n < 0 {
        proof {
            reveal_strlit("-");
            assert("-"@ =~= seq!['-']);
        }
        let magnitude: u64 = if n == i64::MIN {
            9223372036854775808u64
        } else {
            (-n) as u64
        };
        let mut r = String::from_str("-");
        let d = digits_of(magnitude);
        r.append(d.as_str());
        r
    } else {
        digits_of(n as u64)
    }
}

} // verus!
