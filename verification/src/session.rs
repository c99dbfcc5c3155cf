//! The interactive session: an edit phase that moves the cursor and
//! paints cells, a transition into a fixed-length simulation phase, and
//! termination.
//!
//! The session owns the grid and the cursor and makes every decision;
//! reading keys, drawing the grid and pacing the animation are left to
//! the caller, which feeds one `KeyEvent` at a time into `handle_key`
//! while editing and calls `simulate_tick` once per rendered frame while
//! simulating.

use crate::cursor::Direction;
use crate::cursor::GridPosition;
use crate::grid::grid_square;
use crate::grid::grid_view;
use crate::grid::new_false_grid;
use crate::grid::set_alive;
use crate::grid::step_n;
use crate::grid::step_simulation;
use crate::grid::step_spec;
use crate::grid::alive;
use crate::GENERATIONS;
use crate::SIDE_LENGTH;
use vstd::prelude::*;

verus! {

/// The phase the session is in: painting cells, running the simulation,
/// or finished.
#[derive(Clone, Copy, PartialEq, Eq, Structural, Debug)]
pub enum Phase {
    Editing,
    Simulating,
    Terminated,
}

/// One edit-phase input: the four cursor movements, painting a cell,
/// committing the pattern, any other key, or a failed read.
#[derive(Clone, Copy, PartialEq, Eq, Structural, Debug)]
pub enum KeyEvent {
    Up,
    Down,
    Left,
    Right,
    Space,
    Enter,
    Other,
    ReadError,
}

/// The whole session state: the grid being edited or simulated, the edit
/// cursor, the current phase, and how many generations have been stepped.
pub struct Session {
    pub grid: Vec<Vec<bool>>,
    pub cursor: GridPosition,
    pub phase: Phase,
    pub generation: u32,
}

/// The session state seen abstractly, for reasoning about whole runs of
/// the simulation phase.
#[verifier::ext_equal]
pub ghost struct SimState {
    pub grid: Seq<Seq<bool>>,
    pub phase: Phase,
    pub generation: int,
}

/// One simulation frame at the abstract level: the grid advances one
/// generation, the counter advances by one, and the session terminates
/// exactly when the counter reaches `GENERATIONS`.
pub open spec fn sim_tick(m: SimState) -> SimState {
    SimState {
        grid: step_spec(m.grid),
        phase: if m.generation + 1 == GENERATIONS as int {
            Phase::Terminated
        } else {
            Phase::Simulating
        },
        generation: m.generation + 1,
    }
}

/// `n` simulation frames at the abstract level.
pub open spec fn sim_run(m: SimState, n: nat) -> SimState
    decreases n,
{
    if n == 0 {
        m
    } else {
        sim_tick(sim_run(m, (n - 1) as nat))
    }
}

impl Session {
    /// The session state seen abstractly.
    pub open spec fn sim_view(self) -> SimState {
        SimState {
            grid: grid_view(self.grid),
            phase: self.phase,
            generation: self.generation as int,
        }
    }

    /// The session invariant: the grid is square with the fixed side
    /// length, the cursor lies on it, and the generation counter never
    /// passes the configured bound.
    pub open spec fn wf(self) -> bool {
        &&& grid_square(grid_view(self.grid))
        &&& self.grid@.len() == SIDE_LENGTH
        &&& self.cursor.in_grid(SIDE_LENGTH as u16)
        &&& self.generation <= GENERATIONS
    }

    /// A fresh session: an all-dead grid, the cursor near the top-left
    /// corner, the edit phase, and no generations stepped yet.
    pub fn new() -> (s: Session)
        ensures
            s.wf(),
            s.phase == Phase::Editing,
            s.generation == 0,
            s.cursor.x_position == 1 && s.cursor.y_position == 1,
            forall|y: int, x: int|
                0 <= y < SIDE_LENGTH && 0 <= x < SIDE_LENGTH ==> !alive(grid_view(s.grid), y, x),
    {
        Session {
            grid: new_false_grid(SIDE_LENGTH),
            cursor: GridPosition { x_position: 1, y_position: 1 },
            phase: Phase::Editing,
            generation: 0,
        }
    }

    /// Handle one key event in the edit phase. An arrow key moves the
    /// cursor one cell with wraparound; space paints the cell under the
    /// cursor alive; enter commits the pattern and starts the simulation;
    /// any other key ends the session without simulating; a failed read
    /// changes nothing.
    pub fn handle_key(&mut self, key: KeyEvent)
        requires
            old(self).wf(),
            old(self).phase == Phase::Editing,
        ensures
            final(self).wf(),
            final(self).generation == (if key == KeyEvent::Enter {
                0
            } else {
                old(self).generation as int
            }),
            match key {
                KeyEvent::Up => {
                    &&& final(self).phase == Phase::Editing
                    &&& grid_view(final(self).grid) == grid_view(old(self).grid)
                    &&& final(self).cursor.x_position == old(self).cursor.x_position
                    &&& final(self).cursor.y_position == (if old(self).cursor.y_position == 0 {
                        SIDE_LENGTH - 1
                    } else {
                        old(self).cursor.y_position - 1
                    })
                },
                KeyEvent::Down => {
                    &&& final(self).phase == Phase::Editing
                    &&& grid_view(final(self).grid) == grid_view(old(self).grid)
                    &&& final(self).cursor.x_position == old(self).cursor.x_position
                    &&& final(self).cursor.y_position == (if old(self).cursor.y_position + 1
                        == SIDE_LENGTH {
                        0
                    } else {
                        old(self).cursor.y_position + 1
                    })
                },
                KeyEvent::Left => {
                    &&& final(self).phase == Phase::Editing
                    &&& grid_view(final(self).grid) == grid_view(old(self).grid)
                    &&& final(self).cursor.y_position == old(self).cursor.y_position
                    &&& final(self).cursor.x_position == (if old(self).cursor.x_position == 0 {
                        SIDE_LENGTH - 1
                    } else {
                        old(self).cursor.x_position - 1
                    })
                },
                KeyEvent::Right => {
                    &&& final(self).phase == Phase::Editing
                    &&& grid_view(final(self).grid) == grid_view(old(self).grid)
                    &&& final(self).cursor.y_position == old(self).cursor.y_position
                    &&& final(self).cursor.x_position == (if old(self).cursor.x_position + 1
                        == SIDE_LENGTH {
                        0
                    } else {
                        old(self).cursor.x_position + 1
                    })
                },
                KeyEvent::Space => {
                    &&& final(self).phase == Phase::Editing
                    &&& final(self).cursor == old(self).cursor
                    &&& grid_view(final(self).grid) == grid_view(old(self).grid).update(
                        old(self).cursor.y_position as int,
                        grid_view(old(self).grid)[old(self).cursor.y_position as int].update(
                            old(self).cursor.x_position as int,
                            true,
                        ),
                    )
                },
                KeyEvent::Enter => {
                    &&& final(self).phase == Phase::Simulating
                    &&& grid_view(final(self).grid) == grid_view(old(self).grid)
                    &&& final(self).cursor == old(self).cursor
                },
                KeyEvent::Other => {
                    &&& final(self).phase == Phase::Terminated
                    &&& grid_view(final(self).grid) == grid_view(old(self).grid)
                    &&& final(self).cursor == old(self).cursor
                },
                KeyEvent::ReadError => {
                    &&& final(self).phase == Phase::Editing
                    &&& grid_view(final(self).grid) == grid_view(old(self).grid)
                    &&& final(self).cursor == old(self).cursor
                },
            },
    {
        match key {
            KeyEvent::Up => {
                self.cursor.move_cursor(Direction::Up, SIDE_LENGTH as u16);
            },
            KeyEvent::Down => {
                self.cursor.move_cursor(Direction::Down, SIDE_LENGTH as u16);
            },
            KeyEvent::Left => {
                self.cursor.move_cursor(Direction::Left, SIDE_LENGTH as u16);
            },
            KeyEvent::Right => {
                self.cursor.move_cursor(Direction::Right, SIDE_LENGTH as u16);
            },
            KeyEvent::Space => {
                let y = self.cursor.y_position as usize;
                let x = self.cursor.x_position as usize;
                proof {
                    let g = grid_view(self.grid);
                    assert(g[y as int] == self.grid@[y as int]@);
                    assert(g[y as int].len() == g[0].len());
                }
                set_alive(&mut self.grid, y, x);
            },
            KeyEvent::Enter => {
                self.phase = Phase::Simulating;
                self.generation = 0;
            },
            KeyEvent::Other => {
                self.phase = Phase::Terminated;
            },
            KeyEvent::ReadError => {},
        }
    }

    /// Run one simulation frame: replace the grid by its next generation
    /// and advance the generation counter. The session stays in the
    /// simulation phase until exactly `GENERATIONS` frames have run, then
    /// terminates. The cursor is left untouched; it is merely not drawn
    /// while simulating.
    pub fn simulate_tick(&mut self)
        requires
            old(self).wf(),
            old(self).phase == Phase::Simulating,
            old(self).generation < GENERATIONS,
        ensures
            final(self).wf(),
            final(self).sim_view() == sim_tick(old(self).sim_view()),
            grid_view(final(self).grid) == step_spec(grid_view(old(self).grid)),
            final(self).cursor == old(self).cursor,
            final(self).generation == old(self).generation + 1,
            final(self).phase == (if final(self).generation == GENERATIONS {
                Phase::Terminated
            } else {
                Phase::Simulating
            }),
    {
        let next = step_simulation(&self.grid);
        self.grid = next;
        self.generation = self.generation + 1;
        if self.generation == GENERATIONS {
            self.phase = Phase::Terminated;
        }
        proof {
            assert(final(self).sim_view() =~~= sim_tick(old(self).sim_view()));
        }
    }
}

/// A whole simulation phase has a fixed length: entered with the counter
/// at zero, it stays in the simulation phase for exactly `GENERATIONS`
/// frames — after `n` frames the grid is the start grid stepped `n`
/// times, the counter reads `n`, and the session terminates at frame
/// `GENERATIONS` and no earlier.
pub proof fn lemma_simulation_length(m: SimState, n: nat)
    requires
        m.phase == Phase::Simulating,
        m.generation == 0,
        n <= GENERATIONS as nat,
    ensures
        sim_run(m, n).generation == n,
        sim_run(m, n).grid == step_n(m.grid, n),
        n < GENERATIONS as nat ==> sim_run(m, n).phase == Phase::Simulating,
        n == GENERATIONS as nat ==> sim_run(m, n).phase == Phase::Terminated,
    decreases n,
{
    if n > 0 {
        lemma_simulation_length(m, (n - 1) as nat);
    }
}

} // verus!
