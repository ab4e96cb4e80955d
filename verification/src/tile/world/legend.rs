//! The legend of a world map: which character stands for which biome.
//!
//! The legend is the `LEGEND` block of the source text. Each line of it holds
//! a character and a biome identifier, separated by blanks; asterisks that
//! end the identifier are no part of it.

use super::types::{get_type, tile_for_id, WorldTile};
use crate::text::{chars_of, pieces_of, rows_of, split_pieces, string_of};
use crate::util::{block_not_found_message, block_of, extract_block_from_source, BLOCK_LEGEND};
use crate::RollingError;
use std::collections::HashMap;
use vstd::prelude::*;
use vstd::string::StringExecFns;

verus! {

/// Whether a character separates the fields of a legend line: whether it is
/// white space.
pub open spec fn is_blank(c: char) -> bool {
    let code = c as u32;
    (0x09 <= code <= 0x0D) || code == 0x20 || code == 0x85 || code == 0xA0 || code == 0x1680 || (
    0x2000 <= code <= 0x200A) || code == 0x2028 || code == 0x2029 || code == 0x202F || code
        == 0x205F || code == 0x3000
}

/// The first position at or after `from` that holds no blank, or the end of
/// the line.
pub open spec fn skip_blanks(line: Seq<char>, from: int) -> int
    decreases line.len() - from,
{
    if 0 <= from < line.len() && is_blank(line[from]) {
        skip_blanks(line, from + 1)
    } else {
        from
    }
}

/// The first position at or after `from` that holds a blank, or the end of
/// the line.
pub open spec fn skip_word(line: Seq<char>, from: int) -> int
    decreases line.len() - from,
{
    if 0 <= from < line.len() && !is_blank(line[from]) {
        skip_word(line, from + 1)
    } else {
        from
    }
}

/// A word without the asterisks that end it.
pub open spec fn without_stars(word: Seq<char>) -> Seq<char>
    decreases word.len(),
{
    if word.len() > 0 && word.last() == '*' {
        without_stars(word.drop_last())
    } else {
        word
    }
}

/// The two fields of a legend line: the first character of its first word,
/// and its second word. `None` unless the line holds exactly two words.
pub open spec fn legend_fields(line: Seq<char>) -> Option<(char, Seq<char>)> {
    let first = skip_blanks(line, 0);
    let first_end = skip_word(line, first);
    let second = skip_blanks(line, first_end);
    let second_end = skip_word(line, second);
    let rest = skip_blanks(line, second_end);
    if first < first_end && second < second_end && rest >= line.len() {
        Some((line[first], line.subrange(second, second_end)))
    } else {
        None
    }
}

/// The message of the error for a legend line that does not hold two words.
pub open spec fn malformed_line_message(line: Seq<char>) -> Seq<char> {
    "Malformed legend line \""@ + line + "\""@
}

/// The message of the error for a legend line whose identifier names no
/// biome.
pub open spec fn unknown_tile_message(id: Seq<char>) -> Seq<char> {
    "Unknown tile "@ + id
}

/// What a legend line says: a character and the biome it stands for, or the
/// message of the error that the line gives.
pub open spec fn legend_entry(line: Seq<char>) -> Result<(char, WorldTile), Seq<char>> {
    match legend_fields(line) {
        None => Err(malformed_line_message(line)),
        Some((c, word)) => match tile_for_id(without_stars(word)) {
            Some(tile) => Ok((c, tile)),
            None => Err(unknown_tile_message(without_stars(word))),
        },
    }
}

/// The legend that the first `n` of `lines` build, keyed by code point, or
/// the error of the first line that gives one. A later line for a character
/// replaces an earlier one.
pub open spec fn legend_entries(lines: Seq<Seq<char>>, n: int) -> Result<
    Map<u32, WorldTile>,
    Seq<char>,
>
    decreases n,
{
    if n <= 0 {
        Ok(Map::empty())
    } else {
        match legend_entries(lines, n - 1) {
            Err(message) => Err(message),
            Ok(tiles) => match legend_entry(lines[n - 1]) {
                Ok((c, tile)) => Ok(tiles.insert(c as u32, tile)),
                Err(message) => Err(message),
            },
        }
    }
}

/// The message of the error for a source without a legend block.
pub open spec fn legend_missing_message() -> Seq<char> {
    "Error during extraction of legend: "@ + block_not_found_message(BLOCK_LEGEND@)
}

/// The legend of a source text, keyed by code point, or the message of the
/// error that the source gives.
pub open spec fn legend_of(source: Seq<char>) -> Result<Map<u32, WorldTile>, Seq<char>> {
    match block_of(source, BLOCK_LEGEND@) {
        None => Err(legend_missing_message()),
        Some(block) => legend_entries(pieces_of(block), pieces_of(block).len() as int),
    }
}

/// The message of the error for a character that the legend does not hold.
pub open spec fn no_match_message(c: char) -> Seq<char> {
    "No world tile match with "@.push(c)
}

/// Whether `c` separates the fields of a legend line.
fn is_whitespace(c: char) -> (blank: bool)
    ensures
        blank == is_blank(c),
{
    let code: u32 = c as u32;
    (0x09 <= code && code <= 0x0D) || code == 0x20 || code == 0x85 || code == 0xA0 || code
        == 0x1680 || (0x2000 <= code && code <= 0x200A) || code == 0x2028 || code == 0x2029
        || code == 0x202F || code == 0x205F || code == 0x3000
}

/// The end of the run of blanks that starts at `from`.
fn blanks_end(line: &Vec<char>, from: usize) -> (end: usize)
    requires
        from <= line.len(),
    ensures
        end == skip_blanks(line@, from as int),
        from <= end <= line.len(),
{
    let mut end: usize = from;
    while end < line.len() && is_whitespace(line[end])
        invariant
            from <= end <= line.len(),
            skip_blanks(line@, from as int) == skip_blanks(line@, end as int),
        decreases line.len() - end,
    {
        end += 1;
    }
    end
}

/// The end of the word that starts at `from`.
fn word_end(line: &Vec<char>, from: usize) -> (end: usize)
    requires
        from <= line.len(),
    ensures
        end == skip_word(line@, from as int),
        from <= end <= line.len(),
{
    let mut end: usize = from;
    while end < line.len() && !is_whitespace(line[end])
        invariant
            from <= end <= line.len(),
            skip_word(line@, from as int) == skip_word(line@, end as int),
        decreases line.len() - end,
    {
        end += 1;
    }
    end
}

/// What the legend line `line` says.
fn read_legend_line(line: &Vec<char>) -> (result: Result<(char, WorldTile), RollingError>)
    ensures
        match result {
            Ok(entry) => legend_entry(line@) == Ok::<(char, WorldTile), Seq<char>>(entry),
            Err(e) => legend_entry(line@) == Err::<(char, WorldTile), Seq<char>>(e.message@),
        },
{
    let first = blanks_end(line, 0);
    let first_end = word_end(line, first);
    let second = blanks_end(line, first_end);
    let second_end = word_end(line, second);
    let rest = blanks_end(line, second_end);
    if !(first < first_end && second < second_end && rest >= line.len()) {
        let mut message = String::from_str("Malformed legend line \"");
        let text = string_of(line);
        message.append(text.as_str());
        message.append("\"");
        return Err(RollingError::new(message));
    }
    let mut end: usize = second_end;
    let ghost word = line@.subrange(second as int, second_end as int);
    while end > second && line[end - 1] == '*'
        invariant
            second <= end <= second_end <= line.len(),
            word == line@.subrange(second as int, second_end as int),
            without_stars(word) == without_stars(line@.subrange(second as int, end as int)),
        decreases end,
    {
        assert(line@.subrange(second as int, end as int).drop_last() == line@.subrange(
            second as int,
            end - 1,
        ));
        end -= 1;
    }
    let mut id: Vec<char> = Vec::new();
    for i in second..end
        invariant
            second <= end <= line.len(),
            id@ == line@.subrange(second as int, i as int),
    {
        id.push(line[i]);
        assert(line@.subrange(second as int, i + 1) == line@.subrange(second as int, i as int).push(
            line@[i as int],
        ));
    }
    assert(id@ == without_stars(word));
    let tile_type_id = string_of(&id);
    match get_type(tile_type_id.as_str()) {
        Ok(tile_type) => Ok((line[first], tile_type)),
        Err(_) => {
            let mut message = String::from_str("Unknown tile ");
            message.append(tile_type_id.as_str());
            Err(RollingError::new(message))
        },
    }
}

/// What the legend line `raw_line` says: the first character of its first
/// word, and the biome that its second word names. Fails where the line does
/// not hold exactly two words, or where the second names no biome.
pub fn get_tile_type_from_raw(raw_line: &str) -> (result: Result<(char, WorldTile), RollingError>)
    ensures
        match result {
            Ok(entry) => legend_entry(raw_line@) == Ok::<(char, WorldTile), Seq<char>>(entry),
            Err(e) => legend_entry(raw_line@) == Err::<(char, WorldTile), Seq<char>>(e.message@),
        },
{
    let line = chars_of(raw_line);
    read_legend_line(&line)
}

/// The legend of a world map.
pub struct WorldMapLegend {
    /// The biome of reference.
    pub default: WorldTile,
    /// The biome of each character of the legend, keyed by the character's
    /// code point.
    pub tiles: HashMap<u32, WorldTile>,
}

impl WorldMapLegend {
    /// The biome that `c` stands for, if the legend holds `c`.
    pub open spec fn tile_of(&self, c: char) -> Option<WorldTile> {
        if self.tiles@.contains_key(c as u32) {
            Some(self.tiles@[c as u32])
        } else {
            None
        }
    }

    /// The legend that the `LEGEND` block of `source` gives. Fails where the
    /// source has no such block, and with the error of the first line of the
    /// block that gives one.
    pub fn new(source: &String) -> (result: Result<WorldMapLegend, RollingError>)
        ensures
            match result {
                Ok(legend) => legend_of(source@) == Ok::<Map<u32, WorldTile>, Seq<char>>(
                    legend.tiles@,
                ) && legend.default == WorldTile::Sea,
                Err(e) => legend_of(source@) == Err::<Map<u32, WorldTile>, Seq<char>>(e.message@),
            },
    {
        broadcast use vstd::std_specs::hash::group_hash_axioms;

        let mut tiles: HashMap<u32, WorldTile> = HashMap::new();
        let legend_source = match extract_block_from_source(BLOCK_LEGEND, source) {
            Ok(block) => block,
            Err(e) => {
                let mut message = String::from_str("Error during extraction of legend: ");
                message.append(e.message.as_str());
                return Err(RollingError::new(message));
            },
        };
        let block = chars_of(legend_source.as_str());
        let lines = split_pieces(&block);
        let ghost all = pieces_of(block@);

        for i in 0..lines.len()
            invariant
                rows_of(lines@) == all,
                legend_of(source@) == legend_entries(all, all.len() as int),
                legend_entries(all, i as int) == Ok::<Map<u32, WorldTile>, Seq<char>>(tiles@),
        {
            assert(all[i as int] == lines@[i as int]@);
            match read_legend_line(&lines[i]) {
                Ok((tile_char, tile_type)) => {
                    tiles.insert(tile_char as u32, tile_type);
                },
                Err(e) => {
                    proof {
                        legend_error_stays(all, i + 1, all.len() as int);
                    }
                    return Err(e);
                },
            }
        }
        Ok(WorldMapLegend { default: WorldTile::Sea, tiles })
    }

    /// The biome that `raw_str` stands for. Fails on a character that the
    /// legend does not hold.
    pub fn get_type(&self, raw_str: char) -> (result: Result<&WorldTile, RollingError>)
        ensures
            match result {
                Ok(tile) => self.tile_of(raw_str) == Some(*tile),
                Err(e) => self.tile_of(raw_str) is None && e.message@ == no_match_message(
                    raw_str,
                ),
            },
    {
        broadcast use vstd::std_specs::hash::group_hash_axioms;

        let key: u32 = raw_str as u32;
        match self.tiles.get(&key) {
            Some(v) => Ok(v),
            None => {
                let mut message = String::from_str("No world tile match with ");
                message.push(raw_str);
                Err(RollingError::new(message))
            },
        }
    }
}

/// Once a line of the legend gives an error, the legend gives that error,
/// whatever follows.
pub proof fn legend_error_stays(lines: Seq<Seq<char>>, n: int, m: int)
    requires
        n <= m,
        legend_entries(lines, n) is Err,
    ensures
        legend_entries(lines, m) == legend_entries(lines, n),
    decreases m - n,
{
    if n < m {
        legend_error_stays(lines, n, m - 1);
    }
}

} // verus!
