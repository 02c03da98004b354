use vstd::prelude::*;

verus! {

/// Number of cells along each side of the square, wrap-around grid.
pub const WINDOW_SIZE: i32 = 30;

/// Side of one drawn cell, in pixels.
pub const GRID_SIZE: i32 = 20;

/// A heading on the grid. Up and Down are opposite, and so are Left and Right.
#[derive(Clone, Copy, Debug, PartialEq, Eq, Structural)]
pub enum Direction {
    Up,
    Down,
    Left,
    Right,
}

/// The heading that points the other way.
pub open spec fn opposite(d: Direction) -> Direction {
    match d {
        Direction::Up => Direction::Down,
        Direction::Down => Direction::Up,
        Direction::Left => Direction::Right,
        Direction::Right => Direction::Left,
    }
}

/// A cell coordinate lies on the grid.
pub open spec fn on_grid(c: int) -> bool {
    0 <= c < WINDOW_SIZE
}

/// A cell lies on the grid.
pub open spec fn cell_on_grid(p: (i32, i32)) -> bool {
    on_grid(p.0 as int) && on_grid(p.1 as int)
}

/// A coordinate brought back onto the grid from the opposite edge.
pub open spec fn wrap(c: int) -> int {
    (c + WINDOW_SIZE) % (WINDOW_SIZE as int)
}

/// The cell one step from `p` in direction `d`, wrapped around the edges.
pub open spec fn step_spec(p: (i32, i32), d: Direction) -> (i32, i32) {
    match d {
        Direction::Up => (p.0, wrap(p.1 - 1) as i32),
        Direction::Down => (p.0, wrap(p.1 + 1) as i32),
        Direction::Left => (wrap(p.0 - 1) as i32, p.1),
        Direction::Right => (wrap(p.0 + 1) as i32, p.1),
    }
}

/// Whether `d` is the reverse of `e`.
pub fn is_opposite(d: Direction, e: Direction) -> (r: bool)
    ensures
        r == (d == opposite(e)),
{
    match (d, e) {
        (Direction::Up, Direction::Down) => true,
        (Direction::Down, Direction::Up) => true,
        (Direction::Left, Direction::Right) => true,
        (Direction::Right, Direction::Left) => true,
        _ => false,
    }
}

fn wrap_coord(c: i32) -> (r: i32)
    requires
        -1 <= c <= WINDOW_SIZE,
    ensures
        r == wrap(c as int),
        on_grid(r as int),
{
    (c + WINDOW_SIZE) % WINDOW_SIZE
}

/// The cell one step from `p` in direction `d`; leaving the grid on one side
/// re-enters it on the other.
pub fn step(p: (i32, i32), d: Direction) -> (r: (i32, i32))
    requires
        cell_on_grid(p),
    ensures
        r == step_spec(p, d),
        cell_on_grid(r),
{
    match d {
        Direction::Up => (p.0, wrap_coord(p.1 - 1)),
        Direction::Down => (p.0, wrap_coord(p.1 + 1)),
        Direction::Left => (wrap_coord(p.0 - 1), p.1),
        Direction::Right => (wrap_coord(p.0 + 1), p.1),
    }
}

} // verus!
