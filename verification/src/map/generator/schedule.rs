//! The course of a run: which zones wait, which are in progress, which are
//! done or have failed, and how many may be in progress at a time.
//!
//! Nothing here runs a zone or waits for one. A worker asks to start a cell
//! and is admitted or told to wait; it reports the outcome when it is over.
//! The caller keeps one `Run` under exclusive access and does the waiting.

use super::progress::{
    board_text, create_empty_progress, create_updated_progress, empty_progress_marks_no_cell,
    marked_board, progress_follows_done_cells, updated_progress,
};
use crate::map::world::World;
use vstd::prelude::*;

verus! {

/// The state of the zone of one cell in a run. A cell starts pending, is
/// running once admitted, and ends done or failed.
#[derive(Clone, Copy, Debug, PartialEq, Eq, Structural)]
pub enum CellState {
    Pending,
    Running,
    Done,
    Failed,
}

/// How many cells of a row are running.
pub open spec fn running_in_row(row: Seq<CellState>) -> nat
    decreases row.len(),
{
    if row.len() == 0 {
        0
    } else {
        running_in_row(row.drop_last()) + if row.last() == CellState::Running {
            1nat
        } else {
            0nat
        }
    }
}

/// How many cells of a grid are running.
pub open spec fn running_in(cells: Seq<Seq<CellState>>) -> nat
    decreases cells.len(),
{
    if cells.len() == 0 {
        0
    } else {
        running_in(cells.drop_last()) + running_in_row(cells.last())
    }
}

/// The cells of a grid that are done.
pub open spec fn done_in(cells: Seq<Seq<CellState>>) -> Set<(int, int)> {
    Set::new(
        |cell: (int, int)|
            0 <= cell.0 < cells.len() && 0 <= cell.1 < cells[cell.0].len()
                && cells[cell.0][cell.1] == CellState::Done,
    )
}

/// The state of the cell `(row, col)` of a grid, if the grid has such a cell.
pub open spec fn state_at(cells: Seq<Seq<CellState>>, row: int, col: int) -> Option<CellState> {
    if 0 <= row < cells.len() && 0 <= col < cells[row].len() {
        Some(cells[row][col])
    } else {
        None
    }
}

/// Whether `after` is `before` but for the cell `(row, col)`, which is in
/// `state`.
pub open spec fn moved(
    before: Seq<Seq<CellState>>,
    after: Seq<Seq<CellState>>,
    row: int,
    col: int,
    state: CellState,
) -> bool {
    0 <= row < before.len() && 0 <= col < before[row].len() && after == before.update(
        row,
        before[row].update(col, state),
    )
}

/// One attempt of a worker to take a slot of the pool: it runs if fewer than
/// `max` slots are taken, and then takes one; else it has to wait and try
/// again.
pub fn wait_or_run(max: usize, counter: &mut usize) -> (run: bool)
    ensures
        run == (*old(counter) < max),
        *final(counter) == if run {
            *old(counter) + 1
        } else {
            *old(counter) as int
        },
    no_unwind
{
    if *counter < max {
        *counter += 1;
        true
    } else {
        false
    }
}

/// Gives back the slot of a worker that is over.
pub fn decrease_counter(counter: &mut usize)
    requires
        *old(counter) > 0,
    ensures
        *final(counter) == *old(counter) - 1,
    no_unwind
{
    *counter -= 1;
}

/// Changing one cell of a row changes the count of running cells by that
/// cell alone.
pub proof fn running_in_row_after_move(row: Seq<CellState>, col: int, state: CellState)
    requires
        0 <= col < row.len(),
    ensures
        running_in_row(row.update(col, state)) + (if row[col] == CellState::Running {
            1nat
        } else {
            0nat
        }) == running_in_row(row) + (if state == CellState::Running {
            1nat
        } else {
            0nat
        }),
    decreases row.len(),
{
    let after = row.update(col, state);
    if col == row.len() - 1 {
        assert(after.drop_last() == row.drop_last());
    } else {
        running_in_row_after_move(row.drop_last(), col, state);
        assert(after.drop_last() == row.drop_last().update(col, state));
    }
}

/// Changing one cell of a grid changes the count of running cells by that
/// cell alone.
pub proof fn running_after_move(
    before: Seq<Seq<CellState>>,
    after: Seq<Seq<CellState>>,
    row: int,
    col: int,
    state: CellState,
)
    requires
        moved(before, after, row, col, state),
    ensures
        running_in(after) + (if before[row][col] == CellState::Running {
            1nat
        } else {
            0nat
        }) == running_in(before) + (if state == CellState::Running {
            1nat
        } else {
            0nat
        }),
    decreases before.len(),
{
    if row == before.len() - 1 {
        running_in_row_after_move(before[row], col, state);
        assert(after.drop_last() == before.drop_last());
    } else {
        assert(after.drop_last() == before.drop_last().update(
            row,
            before[row].update(col, state),
        ));
        running_after_move(before.drop_last(), after.drop_last(), row, col, state);
    }
}

/// A grid of which every cell is pending has no running cell.
pub proof fn pending_cells_do_not_run(cells: Seq<Seq<CellState>>)
    requires
        forall|r: int, c: int|
            0 <= r < cells.len() && 0 <= c < cells[r].len() ==> (#[trigger] cells[r][c])
                == CellState::Pending,
    ensures
        running_in(cells) == 0,
    decreases cells.len(),
{
    if cells.len() > 0 {
        pending_cells_do_not_run(cells.drop_last());
        pending_row_does_not_run(cells.last());
    }
}

/// A row of which every cell is pending has no running cell.
pub proof fn pending_row_does_not_run(row: Seq<CellState>)
    requires
        forall|c: int| 0 <= c < row.len() ==> row[c] == CellState::Pending,
    ensures
        running_in_row(row) == 0,
    decreases row.len(),
{
    if row.len() > 0 {
        pending_row_does_not_run(row.drop_last());
    }
}

/// The states of a grid of cells, row by row.
pub open spec fn states_of(cells: Seq<Vec<CellState>>) -> Seq<Seq<CellState>> {
    cells.map_values(|row: Vec<CellState>| row@)
}

/// A run over the cells of a world, with a pool of slots. The fields are the
/// run's own: what they hold is kept sound by every function of the run.
pub struct Run<'a> {
    world: &'a World<'a>,
    max: usize,
    running: usize,
    cells: Vec<Vec<CellState>>,
    progress: String,
}

/// What a run holds, as plain values.
pub struct RunView {
    /// The size of the pool: how many cells may be running at a time.
    pub max: usize,
    /// How many cells are running.
    pub running: usize,
    /// The state of each cell.
    pub cells: Seq<Seq<CellState>>,
    /// The progress board, as text: the character of each cell that is done,
    /// a blank for every other.
    pub progress: Seq<char>,
}

impl RunView {
    /// What holds of every run over `world`: there is a state for each cell
    /// of the world; `running` counts the cells that are running, which are
    /// never more than the pool has slots; and the progress board marks
    /// exactly the cells that are done.
    pub open spec fn sound(self, world: &World) -> bool {
        &&& world.well_formed()
        &&& self.cells.len() == world.rows@.len()
        &&& forall|r: int|
            0 <= r < self.cells.len() ==> (#[trigger] self.cells[r]).len()
                == world.rows@[r]@.len()
        &&& self.running == running_in(self.cells)
        &&& self.running <= self.max
        &&& self.progress == board_text(marked_board(world, done_in(self.cells)))
    }

    /// Whether every cell is done or has failed.
    pub open spec fn finished(self) -> bool {
        forall|r: int, c: int|
            0 <= r < self.cells.len() && 0 <= c < self.cells[r].len() ==> (
            #[trigger] self.cells[r][c]) == CellState::Done || self.cells[r][c]
                == CellState::Failed
    }
}

impl<'a> View for Run<'a> {
    type V = RunView;

    closed spec fn view(&self) -> RunView {
        RunView {
            max: self.max,
            running: self.running,
            cells: states_of(self.cells@),
            progress: self.progress@,
        }
    }
}

/// What a run with these parts holds.
spec fn view_of(
    max: usize,
    running: usize,
    cells: Seq<Vec<CellState>>,
    progress: Seq<char>,
) -> RunView {
    RunView { max, running, cells: states_of(cells), progress }
}

/// Admits the pending cell `(row, col)` of a run: the cell is running, and
/// one more slot of the pool is taken. The parts of the run change together.
fn take_slot(
    cells: &mut Vec<Vec<CellState>>,
    running: &mut usize,
    progress: &String,
    world: &World,
    max: usize,
    row: usize,
    col: usize,
)
    requires
        view_of(max, *old(running), old(cells)@, progress@).sound(world),
        state_at(states_of(old(cells)@), row as int, col as int) == Some(CellState::Pending),
        *old(running) < max,
    ensures
        view_of(max, *final(running), final(cells)@, progress@).sound(world),
        moved(
            states_of(old(cells)@),
            states_of(final(cells)@),
            row as int,
            col as int,
            CellState::Running,
        ),
        *final(running) == *old(running) + 1,
    no_unwind
{
    let ghost before = states_of(cells@);
    let run = wait_or_run(max, running);
    cells[row][col] = CellState::Running;
    proof {
        let after = states_of(cells@);
        assert(after =~= before.update(
            row as int,
            before[row as int].update(col as int, CellState::Running),
        ));
        running_after_move(before, after, row as int, col as int, CellState::Running);
        assert(done_in(after) =~= done_in(before));
    }
}

/// Ends the running cell `(row, col)` of a run in `end`: its slot is free, and
/// the progress board becomes `board`. The parts of the run change together.
fn give_slot(
    cells: &mut Vec<Vec<CellState>>,
    running: &mut usize,
    progress: &mut String,
    world: &World,
    max: usize,
    row: usize,
    col: usize,
    end: CellState,
    board: &mut String,
)
    requires
        view_of(max, *old(running), old(cells)@, old(progress)@).sound(world),
        state_at(states_of(old(cells)@), row as int, col as int) == Some(CellState::Running),
        end == CellState::Done || end == CellState::Failed,
        old(board)@ == if end == CellState::Done {
            updated_progress(old(progress)@, row as int, col as int, world)
        } else {
            old(progress)@
        },
    ensures
        view_of(max, *final(running), final(cells)@, final(progress)@).sound(world),
        moved(states_of(old(cells)@), states_of(final(cells)@), row as int, col as int, end),
        *final(running) == *old(running) - 1,
    no_unwind
{
    let ghost before = states_of(cells@);
    cells[row][col] = end;
    proof {
        let after = states_of(cells@);
        assert(after =~= before.update(row as int, before[row as int].update(col as int, end)));
        running_after_move(before, after, row as int, col as int, end);
        if end == CellState::Done {
            progress_follows_done_cells(world, done_in(before), row as int, col as int);
            assert(done_in(after) =~= done_in(before).insert((row as int, col as int)));
        } else {
            assert(done_in(after) =~= done_in(before));
        }
    }
    decrease_counter(running);
    core::mem::swap(progress, board);
}

impl<'a> Run<'a> {
    #[verifier::type_invariant]
    spec fn kept_sound(&self) -> bool {
        self@.sound(self.world)
    }

    /// The world whose zones the run is about.
    pub closed spec fn world(&self) -> &'a World<'a> {
        self.world
    }

    /// A run over the cells of `world` in which every cell is pending, with
    /// a pool of `max` slots.
    pub fn new(world: &'a World<'a>, max: usize) -> (run: Run<'a>)
        requires
            world.well_formed(),
        ensures
            run.world() == world,
            run@.sound(world),
            run@.max == max,
            run@.running == 0,
            forall|r: int, c: int|
                0 <= r < run@.cells.len() && 0 <= c < run@.cells[r].len() ==> (
                #[trigger] run@.cells[r][c]) == CellState::Pending,
    {
        let mut cells: Vec<Vec<CellState>> = Vec::new();
        for i in 0..world.rows.len()
            invariant
                cells@.len() == i,
                forall|r: int|
                    0 <= r < i ==> (#[trigger] cells@[r])@.len() == world.rows@[r]@.len(),
                forall|r: int, c: int|
                    0 <= r < i && 0 <= c < cells@[r]@.len() ==> (#[trigger] cells@[r]@[c])
                        == CellState::Pending,
        {
            let mut row: Vec<CellState> = Vec::new();
            let width = world.rows[i].len();
            for j in 0..width
                invariant
                    row@.len() == j,
                    forall|c: int| 0 <= c < j ==> row@[c] == CellState::Pending,
            {
                row.push(CellState::Pending);
            }
            cells.push(row);
        }
        let progress = create_empty_progress(world);
        proof {
            let states = states_of(cells@);
            assert forall|r: int, c: int|
                0 <= r < states.len() && 0 <= c < states[r].len() implies (
            #[trigger] states[r][c]) == CellState::Pending by {
                assert(states[r][c] == cells@[r]@[c]);
            }
            pending_cells_do_not_run(states);
            empty_progress_marks_no_cell(world);
            assert(done_in(states) =~= Set::<(int, int)>::empty());
        }
        Run { world, max, running: 0, cells, progress }
    }

    /// The size of the pool.
    pub fn max(&self) -> (max: usize)
        ensures
            max == self@.max,
    {
        self.max
    }

    /// How many cells are running: never more than the pool has slots.
    pub fn running(&self) -> (running: usize)
        ensures
            running == self@.running,
            running == running_in(self@.cells),
            running <= self@.max,
    {
        proof {
            use_type_invariant(self);
        }
        self.running
    }

    /// The progress board, as text: the board of the cells that are done.
    pub fn progress(&self) -> (progress: &String)
        ensures
            progress@ == self@.progress,
            progress@ == board_text(marked_board(self.world(), done_in(self@.cells))),
    {
        proof {
            use_type_invariant(self);
        }
        &self.progress
    }

    /// The state of the cell `(row, col)`, if the world has such a cell.
    pub fn state_of(&self, row: usize, col: usize) -> (state: Option<CellState>)
        ensures
            state == state_at(self@.cells, row as int, col as int),
    {
        if row >= self.cells.len() {
            return None;
        }
        if col >= self.cells[row].len() {
            return None;
        }
        Some(self.cells[row][col])
    }

    /// Asks to start the cell `(row, col)`. The cell is admitted, and is then
    /// running, if it is pending and a slot of the pool is free. Otherwise
    /// nothing changes: a pending cell has to wait and ask again.
    pub fn start(&mut self, row: usize, col: usize) -> (admitted: bool)
        ensures
            final(self).world() == old(self).world(),
            final(self)@.sound(final(self).world()),
            final(self)@.max == old(self)@.max,
            final(self)@.progress == old(self)@.progress,
            admitted == (state_at(old(self)@.cells, row as int, col as int) == Some(
                CellState::Pending,
            ) && old(self)@.running < old(self)@.max),
            admitted ==> moved(
                old(self)@.cells,
                final(self)@.cells,
                row as int,
                col as int,
                CellState::Running,
            ) && final(self)@.running == old(self)@.running + 1,
            !admitted ==> final(self)@ == old(self)@,
    {
        proof {
            use_type_invariant(&*self);
        }
        match self.state_of(row, col) {
            Some(CellState::Pending) => {},
            _ => {
                return false;
            },
        }
        if self.running >= self.max {
            return false;
        }
        take_slot(
            &mut self.cells,
            &mut self.running,
            &self.progress,
            self.world,
            self.max,
            row,
            col,
        );
        true
    }

    /// Reports that the cell `(row, col)` is over, with or without success.
    /// A running cell is then done or failed, for good, and its slot is
    /// free; a cell that is done is marked on the progress board. A report
    /// for a cell that is not running changes nothing.
    pub fn finish(&mut self, row: usize, col: usize, success: bool) -> (accepted: bool)
        ensures
            final(self).world() == old(self).world(),
            final(self)@.sound(final(self).world()),
            final(self)@.max == old(self)@.max,
            accepted == (state_at(old(self)@.cells, row as int, col as int) == Some(
                CellState::Running,
            )),
            accepted ==> moved(
                old(self)@.cells,
                final(self)@.cells,
                row as int,
                col as int,
                if success {
                    CellState::Done
                } else {
                    CellState::Failed
                },
            ) && final(self)@.running == old(self)@.running - 1,
            !accepted ==> final(self)@ == old(self)@,
    {
        proof {
            use_type_invariant(&*self);
        }
        match self.state_of(row, col) {
            Some(CellState::Running) => {},
            _ => {
                return false;
            },
        }
        let end = if success {
            CellState::Done
        } else {
            CellState::Failed
        };
        let mut board = if success {
            create_updated_progress(&self.progress, row, col, self.world)
        } else {
            self.progress.clone()
        };
        give_slot(
            &mut self.cells,
            &mut self.running,
            &mut self.progress,
            self.world,
            self.max,
            row,
            col,
            end,
            &mut board,
        );
        true
    }

    /// Whether every cell is done or has failed.
    pub fn is_finished(&self) -> (over: bool)
        ensures
            over == self@.finished(),
    {
        for i in 0..self.cells.len()
            invariant
                forall|r: int, c: int|
                    0 <= r < i && 0 <= c < self.cells@[r]@.len() ==> (
                    #[trigger] self.cells@[r]@[c]) == CellState::Done || self.cells@[r]@[c]
                        == CellState::Failed,
        {
            let row = &self.cells[i];
            for j in 0..row.len()
                invariant
                    i < self.cells@.len(),
                    row@ == self.cells@[i as int]@,
                    forall|c: int|
                        0 <= c < j ==> row@[c] == CellState::Done || row@[c] == CellState::Failed,
            {
                match row[j] {
                    CellState::Done => {},
                    CellState::Failed => {},
                    _ => {
                        assert(self@.cells[i as int][j as int] == row@[j as int]);
                        return false;
                    },
                }
            }
        }
        assert forall|r: int, c: int|
            0 <= r < self@.cells.len() && 0 <= c < self@.cells[r].len() implies (
        #[trigger] self@.cells[r][c]) == CellState::Done || self@.cells[r][c]
            == CellState::Failed by {
            assert(self@.cells[r][c] == self.cells@[r]@[c]);
        }
        true
    }
}

} // verus!
