//! Reading named blocks out of a source text, and looking at the characters
//! already painted around the next position of a grid.

use crate::text::{
    chars_of, join_lines, join_rows, lines_of, rows_of, rows_of_push, same_chars, split_lines,
    string_of,
};
use crate::RollingError;
use vstd::prelude::*;
use vstd::string::StringExecFns;

verus! {

/// The name of the block that holds the grid of the world.
pub const BLOCK_GEO: &'static str = "GEO";

/// The name of the block that holds the legend.
pub const BLOCK_LEGEND: &'static str = "LEGEND";

/// Whether a line introduces a block: it starts with two colons.
pub open spec fn is_header(line: Seq<char>) -> bool {
    line.len() >= 2 && line[0] == ':' && line[1] == ':'
}

/// The block name in a header line from position `from` on: the line without
/// its pairs of colons, its blanks and its line feeds.
pub open spec fn name_from(line: Seq<char>, from: int) -> Seq<char>
    decreases line.len() - from,
{
    if from < 0 || from >= line.len() {
        Seq::empty()
    } else if from + 1 < line.len() && line[from] == ':' && line[from + 1] == ':' {
        name_from(line, from + 2)
    } else if line[from] == ' ' || line[from] == '\n' {
        name_from(line, from + 1)
    } else {
        seq![line[from]] + name_from(line, from + 1)
    }
}

/// The block name that a header line gives.
pub open spec fn header_name(line: Seq<char>) -> Seq<char> {
    name_from(line, 0)
}

/// The content lines of the block `name` among `lines[from..]`, where `found`
/// says whether the block was opened before `from`. The block opens at the
/// first header of its name, holds the lines that follow, and closes at the
/// next header or at the end. `None` where the block is never opened.
pub open spec fn block_from(lines: Seq<Seq<char>>, name: Seq<char>, from: int, found: bool)
    -> Option<Seq<Seq<char>>>
    decreases lines.len() - from,
{
    if from < 0 || from >= lines.len() {
        if found {
            Some(Seq::empty())
        } else {
            None
        }
    } else if found {
        if is_header(lines[from]) {
            Some(Seq::empty())
        } else {
            match block_from(lines, name, from + 1, true) {
                Some(rest) => Some(seq![lines[from]] + rest),
                None => None,
            }
        }
    } else if is_header(lines[from]) && header_name(lines[from]) == name {
        block_from(lines, name, from + 1, true)
    } else {
        block_from(lines, name, from + 1, false)
    }
}

/// The content of the block `name` of a source text, its lines joined by line
/// feeds; `None` where the source has no such block.
pub open spec fn block_of(source: Seq<char>, name: Seq<char>) -> Option<Seq<char>> {
    match block_from(lines_of(source), name, 0, false) {
        Some(lines) => Some(join_lines(lines)),
        None => None,
    }
}

/// The message of the error for a block that the source does not hold.
pub open spec fn block_not_found_message(name: Seq<char>) -> Seq<char> {
    "Block \""@ + name + "\" not found"@
}

/// Whether the last row of a grid ends in `c`.
pub open spec fn ends_in(c: char, rows: Seq<Seq<char>>) -> bool {
    rows.len() > 0 && rows.last().len() > 0 && rows.last().last() == c
}

/// Whether `c` stands in the row above the last one, directly above the
/// position that comes next in the last row or diagonally beside that. The
/// three positions are clipped to the row above.
pub open spec fn above_holds(c: char, rows: Seq<Seq<char>>) -> bool {
    rows.len() >= 2 && exists|k: int|
        rows.last().len() - 1 <= k <= rows.last().len() + 1 && 0 <= k < rows[rows.len() - 2].len()
            && #[trigger] rows[rows.len() - 2][k] == c
}

/// A block that was opened has content, be it empty.
pub proof fn opened_block_has_content(lines: Seq<Seq<char>>, name: Seq<char>, from: int)
    ensures
        block_from(lines, name, from, true) is Some,
    decreases lines.len() - from,
{
    if 0 <= from < lines.len() {
        opened_block_has_content(lines, name, from + 1);
    }
}

/// A source holds the block `name` exactly when one of its lines is a header
/// of that name.
pub proof fn block_found_iff_header(lines: Seq<Seq<char>>, name: Seq<char>, from: int)
    requires
        0 <= from,
    ensures
        block_from(lines, name, from, false) is Some <==> exists|i: int|
            from <= i < lines.len() && is_header(#[trigger] lines[i]) && header_name(lines[i])
                == name,
    decreases lines.len() - from,
{
    if from < lines.len() {
        block_found_iff_header(lines, name, from + 1);
        opened_block_has_content(lines, name, from + 1);
        if is_header(lines[from]) && header_name(lines[from]) == name {
        } else {
            assert forall|i: int|
                from <= i < lines.len() && is_header(#[trigger] lines[i]) && header_name(lines[i])
                    == name implies from + 1 <= i by {}
        }
    }
}

/// The block name that the header `line` gives.
fn read_header_name(line: &Vec<char>) -> (name: Vec<char>)
    ensures
        name@ == header_name(line@),
{
    let mut name: Vec<char> = Vec::new();
    let mut i: usize = 0;
    assert(name@ + name_from(line@, 0) =~= header_name(line@));
    while i < line.len()
        invariant
            i <= line.len(),
            header_name(line@) == name@ + name_from(line@, i as int),
        decreases line.len() - i,
    {
        if i + 1 < line.len() && line[i] == ':' && line[i + 1] == ':' {
            i += 2;
        } else if line[i] == ' ' || line[i] == '\n' {
            i += 1;
        } else {
            let ghost before = name@;
            name.push(line[i]);
            assert(name@ + name_from(line@, i + 1) =~= before + name_from(line@, i as int));
            i += 1;
        }
    }
    assert(name@ + name_from(line@, i as int) =~= name@);
    name
}

/// The content of the block `block_name` of `source`: the lines that follow
/// the first header `::block_name`, up to the next header or the end, joined
/// by line feeds. Fails where the source has no such block.
pub fn extract_block_from_source(block_name: &str, source: &String) -> (result: Result<
    String,
    RollingError,
>)
    ensures
        match result {
            Ok(block) => block_of(source@, block_name@) == Some(block@),
            Err(e) => block_of(source@, block_name@) is None && e.message@
                == block_not_found_message(block_name@),
        },
{
    let name = chars_of(block_name);
    let text = chars_of(source.as_str());
    let lines = split_lines(&text);
    let mut block_found = false;
    let mut block_lines: Vec<Vec<char>> = Vec::new();
    let ghost all = lines_of(source@);

    for i in 0..lines.len()
        invariant
            rows_of(lines@) == all,
            name@ == block_name@,
            all == lines_of(source@),
            !block_found ==> block_lines@.len() == 0,
            block_from(all, name@, 0, false) == match block_from(
                all,
                name@,
                i as int,
                block_found,
            ) {
                Some(rest) => Some(rows_of(block_lines@) + rest),
                None => None,
            },
    {
        let line = &lines[i];
        assert(line@ == all[i as int]);
        proof {
            opened_block_has_content(all, name@, i + 1);
        }
        if line.len() >= 2 && line[0] == ':' && line[1] == ':' {
            if block_found {
                assert(rows_of(block_lines@) + Seq::<Seq<char>>::empty() =~= rows_of(
                    block_lines@,
                ));
                return Ok(string_of(&join_rows(&block_lines)));
            }
            let line_block_name = read_header_name(line);
            if same_chars(&line_block_name, &name) {
                proof {
                    let rest = block_from(all, name@, i + 1, true).unwrap();
                    assert(rows_of(block_lines@) + rest =~= rest);
                }
                block_found = true;
            }
        } else if block_found {
            let ghost before = block_lines@;
            block_lines.push(line.clone());
            proof {
                rows_of_push(before, block_lines@.last());
                let rest = block_from(all, name@, i + 1, true).unwrap();
                assert(rows_of(block_lines@) + rest =~= rows_of(before) + (seq![line@] + rest));
            }
        }
    }

    if block_found {
        assert(rows_of(block_lines@) + Seq::<Seq<char>>::empty() =~= rows_of(block_lines@));
        return Ok(string_of(&join_rows(&block_lines)));
    }
    let mut message = String::from_str("Block \"");
    message.append(block_name);
    message.append("\" not found");
    Err(RollingError::new(message))
}

/// Whether the last row of `chars` ends in `searched_char`: whether it is the
/// character painted last in the row in progress.
pub fn last_char_is(searched_char: char, chars: &Vec<Vec<char>>) -> (found: bool)
    ensures
        found == ends_in(searched_char, rows_of(chars@)),
{
    if chars.len() == 0 {
        return false;
    }
    let last_line = &chars[chars.len() - 1];
    assert(rows_of(chars@).last() == last_line@);
    if last_line.len() == 0 {
        return false;
    }
    last_line[last_line.len() - 1] == searched_char
}

/// Whether `searched_char` stands in the row above the row in progress, at
/// the column that comes next or one beside it.
pub fn top_chars_contains(searched_char: char, chars: &Vec<Vec<char>>) -> (found: bool)
    ensures
        found == above_holds(searched_char, rows_of(chars@)),
{
    if chars.len() < 2 {
        return false;
    }
    let previous_line = &chars[chars.len() - 2];
    let ref_char_position = chars[chars.len() - 1].len();
    let ghost rows = rows_of(chars@);
    assert(rows.last().len() == ref_char_position);
    assert(rows[rows.len() - 2] == previous_line@);

    let first: usize = if ref_char_position == 0 {
        0
    } else {
        ref_char_position - 1
    };
    let mut position: usize = first;
    while position < previous_line.len() && (position <= ref_char_position || position
        - ref_char_position <= 1)
        invariant
            first <= position,
            ref_char_position - 1 <= first <= ref_char_position,
            rows == rows_of(chars@),
            rows.len() >= 2,
            rows.last().len() == ref_char_position,
            rows[rows.len() - 2] == previous_line@,
            forall|k: int| first <= k < position ==> previous_line@[k] != searched_char,
        decreases previous_line.len() - position,
    {
        if previous_line[position] == searched_char {
            assert(rows[rows.len() - 2][position as int] == searched_char);
            return true;
        }
        position += 1;
    }
    false
}

} // verus!
