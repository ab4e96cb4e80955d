//! Text as sequences of characters.
//!
//! The library reads and writes text character by character. The functions
//! here move between `str`, `String` and `Vec<char>`, and split and join
//! lines; whatever the container, a text is viewed as its `Seq<char>`.

use vstd::prelude::*;

verus! {

/// `String::push` appends one character to the text.
pub assume_specification[ String::push ](text: &mut String, c: char)
    ensures
        final(text)@ == old(text)@.push(c),
;

/// The rows of a grid of characters, each viewed as a sequence.
pub open spec fn rows_of(grid: Seq<Vec<char>>) -> Seq<Seq<char>> {
    grid.map_values(|row: Vec<char>| row@)
}

/// A line without the carriage return that ends it, if one does.
pub open spec fn without_carriage_return(line: Seq<char>) -> Seq<char> {
    if line.len() > 0 && line.last() == '\r' {
        line.drop_last()
    } else {
        line
    }
}

/// The lines of `text` from position `from` on, where `current` holds the
/// characters of the line that `from` stands in.
pub open spec fn lines_from(text: Seq<char>, from: int, current: Seq<char>) -> Seq<Seq<char>>
    decreases text.len() - from,
{
    if from < 0 || from >= text.len() {
        if current.len() > 0 {
            seq![current]
        } else {
            Seq::empty()
        }
    } else if text[from] == '\n' {
        seq![without_carriage_return(current)] + lines_from(text, from + 1, Seq::empty())
    } else {
        lines_from(text, from + 1, current.push(text[from]))
    }
}

/// The lines of a text. A line ends at a line feed, or at a carriage return
/// followed by one; the terminator is no part of the line, and the last line
/// needs none.
pub open spec fn lines_of(text: Seq<char>) -> Seq<Seq<char>> {
    lines_from(text, 0, Seq::empty())
}

/// The pieces of `text` from position `from` on, where `current` holds the
/// characters of the piece that `from` stands in.
pub open spec fn pieces_from(text: Seq<char>, from: int, current: Seq<char>) -> Seq<Seq<char>>
    decreases text.len() - from,
{
    if from < 0 || from >= text.len() {
        seq![current]
    } else if text[from] == '\n' {
        seq![current] + pieces_from(text, from + 1, Seq::empty())
    } else {
        pieces_from(text, from + 1, current.push(text[from]))
    }
}

/// The pieces that the line feeds of a text separate: one more than there are
/// line feeds.
pub open spec fn pieces_of(text: Seq<char>) -> Seq<Seq<char>> {
    pieces_from(text, 0, Seq::empty())
}

/// The lines joined into one text, with a line feed between each two.
pub open spec fn join_lines(lines: Seq<Seq<char>>) -> Seq<char>
    decreases lines.len(),
{
    if lines.len() == 0 {
        Seq::empty()
    } else if lines.len() == 1 {
        lines[0]
    } else {
        join_lines(lines.drop_last()) + seq!['\n'] + lines.last()
    }
}

/// The character of the decimal digit `d`.
pub open spec fn digit_char(d: int) -> char {
    ('0' as int + d) as char
}

/// The decimal numeral of `n`, without leading zeros.
pub open spec fn decimal(n: nat) -> Seq<char>
    decreases n,
{
    if n < 10 {
        seq![digit_char(n as int)]
    } else {
        decimal(n / 10).push(digit_char((n % 10) as int))
    }
}

/// Appends the decimal numeral of `n` to `out`.
pub fn push_decimal(n: usize, out: &mut Vec<char>)
    ensures
        final(out)@ == old(out)@ + decimal(n as nat),
    decreases n,
{
    if n >= 10 {
        push_decimal(n / 10, out);
    }
    let d: u8 = (n % 10) as u8;
    out.push((48u8 + d) as char);
    assert(out@ =~= old(out)@ + decimal(n as nat));
}

/// The decimal numeral of `n`, with a minus sign where `n` is negative.
pub open spec fn signed_decimal(n: int) -> Seq<char> {
    if n < 0 {
        seq!['-'] + decimal((-n) as nat)
    } else {
        decimal(n as nat)
    }
}

/// Appends the decimal numeral of `n` to `out`.
pub fn push_signed(n: i32, out: &mut Vec<char>)
    ensures
        final(out)@ == old(out)@ + signed_decimal(n as int),
{
    if n < 0 {
        out.push('-');
        let opposite: i64 = -(n as i64);
        push_decimal(opposite as usize, out);
        assert(out@ =~= old(out)@ + signed_decimal(n as int));
    } else {
        push_decimal(n as usize, out);
    }
}

/// Appends the characters of `s` to `out`.
pub fn push_text(s: &str, out: &mut Vec<char>)
    ensures
        final(out)@ == old(out)@ + s@,
{
    let chars = chars_of(s);
    for i in 0..chars.len()
        invariant
            chars@ == s@,
            out@ == old(out)@ + chars@.take(i as int),
    {
        out.push(chars[i]);
        assert(chars@.take(i + 1) == chars@.take(i as int).push(chars@[i as int]));
    }
    assert(chars@.take(chars@.len() as int) == chars@);
}

/// The characters of `s`, in order.
pub fn chars_of(s: &str) -> (chars: Vec<char>)
    ensures
        chars@ == s@,
{
    let mut chars: Vec<char> = Vec::new();
    for c in it: s.chars()
        invariant
            chars@ == it.seq().take(it.index() as int),
            it.seq() == s@,
    {
        chars.push(c);
    }
    chars
}

/// The text made of `chars`, in order.
pub fn string_of(chars: &Vec<char>) -> (text: String)
    ensures
        text@ == chars@,
{
    let mut text = String::new();
    for i in 0..chars.len()
        invariant
            text@ == chars@.take(i as int),
    {
        text.push(chars[i]);
    }
    text
}

/// Whether two texts hold the same characters.
pub fn same_text(a: &str, b: &str) -> (same: bool)
    ensures
        same == (a@ == b@),
{
    a.to_owned() == b.to_owned()
}

/// Whether two sequences of characters are equal.
pub fn same_chars(a: &Vec<char>, b: &Vec<char>) -> (same: bool)
    ensures
        same == (a@ == b@),
{
    if a.len() != b.len() {
        return false;
    }
    for i in 0..a.len()
        invariant
            a.len() == b.len(),
            a@.take(i as int) == b@.take(i as int),
    {
        if a[i] != b[i] {
            return false;
        }
        assert(a@.take(i + 1) == a@.take(i as int).push(a@[i as int]));
        assert(b@.take(i + 1) == b@.take(i as int).push(b@[i as int]));
    }
    assert(a@ == a@.take(a.len() as int));
    assert(b@ == b@.take(b.len() as int));
    true
}

/// Pushing a row onto a grid pushes its view onto the grid's rows.
pub proof fn rows_of_push(grid: Seq<Vec<char>>, row: Vec<char>)
    ensures
        rows_of(grid.push(row)) == rows_of(grid).push(row@),
{
    assert(rows_of(grid.push(row)) =~= rows_of(grid).push(row@));
}

/// The lines of `text`.
pub fn split_lines(text: &Vec<char>) -> (lines: Vec<Vec<char>>)
    ensures
        rows_of(lines@) == lines_of(text@),
{
    let mut lines: Vec<Vec<char>> = Vec::new();
    let mut current: Vec<char> = Vec::new();
    assert(rows_of(lines@) + lines_from(text@, 0, current@) =~= lines_of(text@));
    for i in 0..text.len()
        invariant
            lines_of(text@) == rows_of(lines@) + lines_from(text@, i as int, current@),
    {
        if text[i] == '\n' {
            let ghost line = current@;
            let ghost done = lines@;
            let n = current.len();
            if n > 0 && current[n - 1] == '\r' {
                current.pop();
            }
            assert(current@ == without_carriage_return(line));
            lines.push(current);
            current = Vec::new();
            proof {
                rows_of_push(done, lines@.last());
                assert(rows_of(lines@) + lines_from(text@, i + 1, current@) =~= rows_of(done)
                    + lines_from(text@, i as int, line));
            }
        } else {
            current.push(text[i]);
        }
    }
    if current.len() > 0 {
        proof {
            rows_of_push(lines@, current);
        }
        lines.push(current);
    }
    assert(rows_of(lines@) =~= lines_of(text@));
    lines
}

/// The pieces that the line feeds of `text` separate.
pub fn split_pieces(text: &Vec<char>) -> (pieces: Vec<Vec<char>>)
    ensures
        rows_of(pieces@) == pieces_of(text@),
{
    let mut pieces: Vec<Vec<char>> = Vec::new();
    let mut current: Vec<char> = Vec::new();
    assert(rows_of(pieces@) + pieces_from(text@, 0, current@) =~= pieces_of(text@));
    for i in 0..text.len()
        invariant
            pieces_of(text@) == rows_of(pieces@) + pieces_from(text@, i as int, current@),
    {
        if text[i] == '\n' {
            let ghost piece = current@;
            let ghost done = pieces@;
            pieces.push(current);
            current = Vec::new();
            proof {
                rows_of_push(done, pieces@.last());
                assert(rows_of(pieces@) + pieces_from(text@, i + 1, current@) =~= rows_of(done)
                    + pieces_from(text@, i as int, piece));
            }
        } else {
            current.push(text[i]);
        }
    }
    proof {
        rows_of_push(pieces@, current);
    }
    pieces.push(current);
    assert(rows_of(pieces@) =~= pieces_of(text@));
    pieces
}

/// The lines joined into one text, with a line feed between each two.
pub fn join_rows(lines: &Vec<Vec<char>>) -> (text: Vec<char>)
    ensures
        text@ == join_lines(rows_of(lines@)),
{
    let mut text: Vec<char> = Vec::new();
    for i in 0..lines.len()
        invariant
            text@ == join_lines(rows_of(lines@).take(i as int)),
    {
        let ghost before = text@;
        if i > 0 {
            text.push('\n');
        }
        let line = &lines[i];
        for j in 0..line.len()
            invariant
                line@ == lines@[i as int]@,
                text@ == if i > 0 {
                    before + seq!['\n'] + line@.take(j as int)
                } else {
                    before + line@.take(j as int)
                },
        {
            text.push(line[j]);
            assert(line@.take(j + 1) == line@.take(j as int).push(line@[j as int]));
        }
        proof {
            let rows = rows_of(lines@);
            assert(line@.take(line@.len() as int) == line@);
            assert(rows.take(i + 1).drop_last() == rows.take(i as int));
            assert(rows.take(i + 1).last() == line@);
            if i == 0 {
                assert(before == Seq::<char>::empty());
                assert(text@ =~= line@);
            }
        }
    }
    assert(rows_of(lines@).take(lines.len() as int) == rows_of(lines@));
    text
}

/// Whether a line holds no line feed.
pub open spec fn is_one_line(line: Seq<char>) -> bool {
    forall|i: int| 0 <= i < line.len() ==> line[i] != '\n'
}

/// No line of a text holds a line feed.
pub proof fn lines_hold_no_line_feed(text: Seq<char>, from: int, current: Seq<char>)
    requires
        0 <= from,
        is_one_line(current),
    ensures
        forall|k: int|
            0 <= k < lines_from(text, from, current).len() ==> is_one_line(
                #[trigger] lines_from(text, from, current)[k],
            ),
    decreases text.len() - from,
{
    let lines = lines_from(text, from, current);
    if from < text.len() {
        if text[from] == '\n' {
            let rest = lines_from(text, from + 1, Seq::empty());
            lines_hold_no_line_feed(text, from + 1, Seq::empty());
            assert forall|k: int| 0 <= k < lines.len() implies is_one_line(#[trigger] lines[k]) by {
                if k > 0 {
                    assert(lines[k] == rest[k - 1]);
                } else {
                    let line = without_carriage_return(current);
                    assert(lines[k] == line);
                    assert forall|i: int| 0 <= i < line.len() implies line[i] != '\n' by {
                        assert(line[i] == current[i]);
                    }
                }
            }
        } else {
            let longer = current.push(text[from]);
            assert forall|i: int| 0 <= i < longer.len() implies longer[i] != '\n' by {
                if i < current.len() {
                    assert(longer[i] == current[i]);
                }
            }
            lines_hold_no_line_feed(text, from + 1, longer);
            assert(lines == lines_from(text, from + 1, longer));
        }
    } else {
        assert forall|k: int| 0 <= k < lines.len() implies is_one_line(#[trigger] lines[k]) by {
            assert(lines[k] == current);
        }
    }
}

/// The pieces of a text from a position on are those of the rest of the
/// text: what stands before the position does not matter.
pub proof fn pieces_of_suffix(before: Seq<char>, rest: Seq<char>, from: int, current: Seq<char>)
    requires
        0 <= from <= rest.len(),
    ensures
        pieces_from(before + rest, before.len() + from, current) == pieces_from(
            rest,
            from,
            current,
        ),
    decreases rest.len() - from,
{
    if from < rest.len() {
        assert((before + rest)[before.len() + from] == rest[from]);
        if rest[from] == '\n' {
            pieces_of_suffix(before, rest, from + 1, Seq::empty());
        } else {
            pieces_of_suffix(before, rest, from + 1, current.push(rest[from]));
        }
    }
}

/// The pieces of a line, a line feed and a text are the line, then the
/// pieces of the text.
pub proof fn pieces_after_line(line: Seq<char>, rest: Seq<char>, from: int)
    requires
        is_one_line(line),
        0 <= from <= line.len(),
    ensures
        pieces_from(line + seq!['\n'] + rest, from, line.take(from)) == seq![line] + pieces_of(
            rest,
        ),
    decreases line.len() - from,
{
    let text = line + seq!['\n'] + rest;
    if from < line.len() {
        assert(text[from] == line[from]);
        assert(line.take(from).push(line[from]) == line.take(from + 1));
        pieces_after_line(line, rest, from + 1);
    } else {
        assert(text[from] == '\n');
        assert(line.take(from) == line);
        pieces_of_suffix(line + seq!['\n'], rest, 0, Seq::empty());
    }
}

} // verus!
