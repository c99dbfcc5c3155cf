//! Tests of the cursor and of the session state machine: wraparound
//! movement, the edit-phase transition table, and the fixed simulation
//! length.

use conway::cursor::Direction;
use conway::cursor::GridPosition;
use conway::session::KeyEvent;
use conway::session::Phase;
use conway::session::Session;
use conway::GENERATIONS;
use conway::SIDE_LENGTH;

#[test]
fn cursor_wraps_at_every_edge() {
    let side = SIDE_LENGTH as u16;
    let mut c = GridPosition { x_position: 0, y_position: 0 };
    c.move_cursor(Direction::Up, side);
    assert_eq!(c.y_position, side - 1);
    c.move_cursor(Direction::Down, side);
    assert_eq!(c.y_position, 0);
    c.move_cursor(Direction::Left, side);
    assert_eq!(c.x_position, side - 1);
    c.move_cursor(Direction::Right, side);
    assert_eq!(c.x_position, 0);
}

#[test]
fn cursor_moves_one_cell_inside_the_grid() {
    let side = SIDE_LENGTH as u16;
    let mut c = GridPosition { x_position: 5, y_position: 7 };
    c.move_cursor(Direction::Up, side);
    assert_eq!(c, GridPosition { x_position: 5, y_position: 6 });
    c.move_cursor(Direction::Down, side);
    assert_eq!(c, GridPosition { x_position: 5, y_position: 7 });
    c.move_cursor(Direction::Left, side);
    assert_eq!(c, GridPosition { x_position: 4, y_position: 7 });
    c.move_cursor(Direction::Right, side);
    assert_eq!(c, GridPosition { x_position: 5, y_position: 7 });
}

#[test]
fn new_session_is_editing_all_dead() {
    let s = Session::new();
    assert_eq!(s.phase, Phase::Editing);
    assert_eq!(s.generation, 0);
    assert_eq!(s.cursor, GridPosition { x_position: 1, y_position: 1 });
    assert_eq!(s.grid.len(), SIDE_LENGTH);
    for row in &s.grid {
        assert_eq!(row.len(), SIDE_LENGTH);
        assert!(row.iter().all(|&cell| !cell));
    }
}

#[test]
fn space_paints_the_cell_under_the_cursor() {
    let mut s = Session::new();
    s.handle_key(KeyEvent::Space);
    assert_eq!(s.phase, Phase::Editing);
    assert!(s.grid[1][1]);
    // painting is idempotent
    let grid_before = s.grid.clone();
    s.handle_key(KeyEvent::Space);
    assert_eq!(s.grid, grid_before);
}

#[test]
fn arrows_move_without_leaving_the_edit_phase() {
    let mut s = Session::new();
    s.handle_key(KeyEvent::Down);
    assert_eq!(s.phase, Phase::Editing);
    assert_eq!(s.cursor, GridPosition { x_position: 1, y_position: 2 });
    s.handle_key(KeyEvent::Right);
    assert_eq!(s.cursor, GridPosition { x_position: 2, y_position: 2 });
    s.handle_key(KeyEvent::Up);
    s.handle_key(KeyEvent::Left);
    assert_eq!(s.cursor, GridPosition { x_position: 1, y_position: 1 });
    assert_eq!(s.phase, Phase::Editing);
}

#[test]
fn enter_starts_the_simulation() {
    let mut s = Session::new();
    s.handle_key(KeyEvent::Enter);
    assert_eq!(s.phase, Phase::Simulating);
    assert_eq!(s.generation, 0);
}

#[test]
fn any_other_key_terminates_without_simulating() {
    let mut s = Session::new();
    s.handle_key(KeyEvent::Other);
    assert_eq!(s.phase, Phase::Terminated);
    assert_eq!(s.generation, 0);
}

#[test]
fn read_error_changes_nothing() {
    let mut s = Session::new();
    s.handle_key(KeyEvent::Space);
    let grid_before = s.grid.clone();
    let cursor_before = s.cursor;
    s.handle_key(KeyEvent::ReadError);
    assert_eq!(s.phase, Phase::Editing);
    assert_eq!(s.grid, grid_before);
    assert_eq!(s.cursor, cursor_before);
}

#[test]
fn simulation_runs_exactly_the_configured_generations() {
    let mut s = Session::new();
    // paint a blinker so the grid is not trivially empty
    s.handle_key(KeyEvent::Space);
    s.handle_key(KeyEvent::Right);
    s.handle_key(KeyEvent::Space);
    s.handle_key(KeyEvent::Right);
    s.handle_key(KeyEvent::Space);
    s.handle_key(KeyEvent::Enter);
    assert_eq!(s.phase, Phase::Simulating);
    let mut ticks: u32 = 0;
    while s.phase == Phase::Simulating {
        s.simulate_tick();
        ticks += 1;
        assert_eq!(s.generation, ticks);
    }
    assert_eq!(ticks, GENERATIONS);
    assert_eq!(s.phase, Phase::Terminated);
}

#[test]
fn simulation_leaves_the_cursor_alone() {
    let mut s = Session::new();
    s.handle_key(KeyEvent::Enter);
    let cursor_before = s.cursor;
    s.simulate_tick();
    s.simulate_tick();
    assert_eq!(s.cursor, cursor_before);
}

#[test]
fn cursor_reports_its_cell() {
    let c = GridPosition { x_position: 3, y_position: 9 };
    assert!(c.is_at(9, 3));
    assert!(!c.is_at(3, 9));
    assert!(!c.is_at(9, 4));
}
