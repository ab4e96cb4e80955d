//! The progress board of a run: one character per cell of the world, blank
//! until the cell's zone is done, then the character that the source text
//! has for the cell.

use crate::map::world::World;
use crate::text::{
    chars_of, is_one_line, join_lines, join_rows, pieces_after_line, pieces_of, rows_of,
    split_pieces, string_of,
};
use vstd::prelude::*;

verus! {

/// The text of a board: each row, followed by a line feed.
pub open spec fn board_text(rows: Seq<Seq<char>>) -> Seq<char>
    decreases rows.len(),
{
    if rows.len() == 0 {
        Seq::empty()
    } else {
        board_text(rows.drop_last()) + rows.last() + seq!['\n']
    }
}

/// A row of `n` blanks.
pub open spec fn blank_row(n: nat) -> Seq<char> {
    Seq::new(n, |i: int| ' ')
}

/// The board of a world of which no cell is done: a blank for every cell.
pub open spec fn blank_board(world: &World) -> Seq<Seq<char>> {
    Seq::new(world.rows@.len(), |r: int| blank_row(world.rows@[r]@.len()))
}

/// The character that the source text has for the cell `(row, col)` of the
/// world, if the world has such a cell.
pub open spec fn geo_char_at(world: &World, row: int, col: int) -> Option<char> {
    if 0 <= row < world.geo_chars@.len() && 0 <= col < world.geo_chars@[row]@.len() {
        Some(world.geo_chars@[row]@[col])
    } else {
        None
    }
}

/// The progress text `progress` with the cell `(row, col)` marked as done:
/// the character at `col` of its line `row` becomes the one that the source
/// text has for the cell. A cell that the text or the world does not have
/// leaves the text as it is.
pub open spec fn updated_progress(progress: Seq<char>, row: int, col: int, world: &World) -> Seq<
    char,
> {
    let lines = pieces_of(progress);
    match geo_char_at(world, row, col) {
        Some(c) => if 0 <= row < lines.len() && 0 <= col < lines[row].len() {
            join_lines(lines.update(row, lines[row].update(col, c)))
        } else {
            progress
        },
        None => progress,
    }
}

/// The progress text of a world of which no cell is done: for each row of the
/// world a line of as many blanks as the row has cells.
pub fn create_empty_progress(world: &World) -> (progress: String)
    ensures
        progress@ == board_text(blank_board(world)),
{
    let mut progress: String = String::new();
    let ghost board = blank_board(world);
    assert(board.take(0) =~= Seq::<Seq<char>>::empty());
    for i in 0..world.rows.len()
        invariant
            board == blank_board(world),
            progress@ == board_text(board.take(i as int)),
    {
        let ghost before = progress@;
        let row = &world.rows[i];
        for j in 0..row.len()
            invariant
                row@ == world.rows@[i as int]@,
                progress@ == before + blank_row(j as nat),
        {
            progress.push(' ');
            assert(blank_row((j + 1) as nat) =~= blank_row(j as nat).push(' '));
        }
        progress.push('\n');
        proof {
            assert(board.take(i + 1).drop_last() == board.take(i as int));
            assert(board.take(i + 1).last() == blank_row(row@.len()));
            assert(progress@ =~= before + blank_row(row@.len()) + seq!['\n']);
        }
    }
    assert(board.take(board.len() as int) == board);
    progress
}

/// The progress text with the cell `(done_row_i, done_col_i)` marked as
/// done.
pub fn create_updated_progress(
    progress: &String,
    done_row_i: usize,
    done_col_i: usize,
    world: &World,
) -> (updated: String)
    ensures
        updated@ == updated_progress(progress@, done_row_i as int, done_col_i as int, world),
{
    if done_row_i >= world.geo_chars.len() {
        return progress.clone();
    }
    if done_col_i >= world.geo_chars[done_row_i].len() {
        return progress.clone();
    }
    let mark = world.geo_chars[done_row_i][done_col_i];
    let text = chars_of(progress.as_str());
    let mut lines = split_pieces(&text);
    if done_row_i >= lines.len() {
        return progress.clone();
    }
    if done_col_i >= lines[done_row_i].len() {
        return progress.clone();
    }
    let ghost before = rows_of(lines@);
    let change_row = &lines[done_row_i];
    let mut new_row: Vec<char> = Vec::new();
    for current_str_i in 0..change_row.len()
        invariant
            done_col_i < change_row@.len(),
            new_row@ == if current_str_i > done_col_i {
                change_row@.take(current_str_i as int).update(done_col_i as int, mark)
            } else {
                change_row@.take(current_str_i as int)
            },
    {
        if current_str_i == done_col_i {
            new_row.push(mark);
        } else {
            new_row.push(change_row[current_str_i]);
        }
        assert(new_row@ =~= if current_str_i + 1 > done_col_i {
            change_row@.take(current_str_i + 1).update(done_col_i as int, mark)
        } else {
            change_row@.take(current_str_i + 1)
        });
    }
    assert(change_row@.take(change_row@.len() as int) == change_row@);
    lines[done_row_i] = new_row;
    assert(rows_of(lines@) =~= before.update(
        done_row_i as int,
        before[done_row_i as int].update(done_col_i as int, mark),
    ));
    let joined = join_rows(&lines);
    string_of(&joined)
}

/// The board of a world of which the cells of `done` are done: for each of
/// them the character that the source text has for it, a blank for every
/// other cell.
pub open spec fn marked_board(world: &World, done: Set<(int, int)>) -> Seq<Seq<char>> {
    Seq::new(
        world.geo_chars@.len(),
        |r: int|
            Seq::new(
                world.geo_chars@[r]@.len(),
                |c: int|
                    if done.contains((r, c)) {
                        world.geo_chars@[r]@[c]
                    } else {
                        ' '
                    },
            ),
    )
}

/// The text of a board starts with its first row.
pub proof fn board_text_from_first(rows: Seq<Seq<char>>)
    requires
        rows.len() > 0,
    ensures
        board_text(rows) == rows[0] + seq!['\n'] + board_text(rows.drop_first()),
    decreases rows.len(),
{
    if rows.len() == 1 {
        assert(rows.drop_last() =~= Seq::<Seq<char>>::empty());
        assert(rows.drop_first() =~= Seq::<Seq<char>>::empty());
        assert(board_text(rows) =~= rows[0] + seq!['\n'] + board_text(rows.drop_first()));
    } else {
        board_text_from_first(rows.drop_last());
        assert(rows.drop_last().drop_first() == rows.drop_first().drop_last());
        assert(rows.drop_last()[0] == rows[0]);
        assert(rows.drop_first().last() == rows.last());
        assert(board_text(rows) =~= rows[0] + seq!['\n'] + board_text(rows.drop_first()));
    }
}

/// The pieces of the text of a board are its rows, and an empty piece after
/// the last line feed.
pub proof fn pieces_of_board_text(rows: Seq<Seq<char>>)
    requires
        forall|r: int| 0 <= r < rows.len() ==> is_one_line(#[trigger] rows[r]),
    ensures
        pieces_of(board_text(rows)) == rows.push(Seq::empty()),
    decreases rows.len(),
{
    if rows.len() == 0 {
        assert(pieces_of(board_text(rows)) =~= rows.push(Seq::empty()));
    } else {
        board_text_from_first(rows);
        let rest = rows.drop_first();
        assert forall|r: int| 0 <= r < rest.len() implies is_one_line(#[trigger] rest[r]) by {
            assert(rest[r] == rows[r + 1]);
        }
        pieces_of_board_text(rest);
        pieces_after_line(rows[0], board_text(rest), 0);
        assert(rows[0].take(0) =~= Seq::<char>::empty());
        assert(seq![rows[0]] + rest.push(Seq::empty()) =~= rows.push(Seq::empty()));
    }
}

/// Joining the rows of a board and an empty last line gives the text of the
/// board.
pub proof fn join_of_board_rows(rows: Seq<Seq<char>>)
    ensures
        join_lines(rows.push(Seq::empty())) == board_text(rows),
    decreases rows.len(),
{
    let all = rows.push(Seq::empty());
    if rows.len() == 0 {
        assert(join_lines(all) =~= board_text(rows));
    } else {
        assert(all.drop_last() == rows);
        assert(all.last() == Seq::<char>::empty());
        assert(join_lines(all) == join_lines(rows) + seq!['\n'] + all.last());
        if rows.len() == 1 {
            assert(board_text(rows.drop_last()) =~= Seq::<char>::empty());
            assert(join_lines(rows) == rows[0]);
            assert(join_lines(all) =~= board_text(rows));
        } else {
            join_of_board_rows(rows.drop_last());
            let shorter = rows.drop_last().push(Seq::empty());
            assert(shorter.drop_last() == rows.drop_last());
            assert(shorter.last() == Seq::<char>::empty());
            assert(join_lines(shorter) == join_lines(rows.drop_last()) + seq!['\n']
                + shorter.last());
            assert(join_lines(rows.drop_last()) + seq!['\n'] =~= board_text(rows.drop_last()));
            assert(join_lines(rows) == join_lines(rows.drop_last()) + seq!['\n'] + rows.last());
            assert(join_lines(all) =~= board_text(rows));
        }
    }
}

/// Marking a cell as done in the text of a board gives the text of the board
/// with one more cell done. So the text after several cells are done does
/// not depend on the order in which they were marked, nor on how many were
/// in progress at a time: it is the board of the set of cells that are done.
pub proof fn progress_follows_done_cells(world: &World, done: Set<(int, int)>, row: int, col: int)
    requires
        world.well_formed(),
    ensures
        updated_progress(board_text(marked_board(world, done)), row, col, world) == board_text(
            marked_board(world, done.insert((row, col))),
        ),
{
    let board = marked_board(world, done);
    let after = marked_board(world, done.insert((row, col)));
    assert forall|r: int| 0 <= r < board.len() implies is_one_line(#[trigger] board[r]) by {
        assert(is_one_line(world.geo_chars@[r]@));
    }
    pieces_of_board_text(board);
    match geo_char_at(world, row, col) {
        Some(c) => {
            let lines = board.push(Seq::empty());
            assert(lines.update(row, lines[row].update(col, c)) =~= after.push(Seq::empty())) by {
                assert forall|r: int| 0 <= r < after.len() implies #[trigger] after[r]
                    =~= lines.update(row, lines[row].update(col, c))[r] by {}
            }
            join_of_board_rows(after);
        },
        None => {
            assert(after =~= board) by {
                assert forall|r: int| 0 <= r < after.len() implies #[trigger] after[r]
                    =~= board[r] by {}
            }
        },
    }
}

/// The progress text of a world of which no cell is done is its board with
/// no cell marked.
pub proof fn empty_progress_marks_no_cell(world: &World)
    requires
        world.well_formed(),
    ensures
        board_text(blank_board(world)) == board_text(marked_board(world, Set::empty())),
{
    let marked = marked_board(world, Set::empty());
    assert(blank_board(world) =~= marked) by {
        assert forall|r: int| 0 <= r < marked.len() implies #[trigger] marked[r] =~= blank_board(
            world,
        )[r] by {}
    }
}

} // verus!
