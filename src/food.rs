use crate::grid::WINDOW_SIZE;
use crate::random::random_in;
use vstd::prelude::*;

verus! {

/// What a piece of food does to the snake that eats it.
#[derive(Clone, Copy, Debug, PartialEq, Eq, Structural)]
pub enum FoodType {
    /// The snake grows by the one cell it moved into.
    Normal,
    /// The snake grows by that cell and by `SPECIAL_GROWTH_EXTRA` more.
    Special,
}

/// Extra tail segments that a piece of special food adds.
pub const SPECIAL_GROWTH_EXTRA: usize = 3;

/// Random draws of a cell before the free cells are scanned in order.
pub const FOOD_ATTEMPTS: u32 = 1000;

/// Rolls are drawn from `0..FOOD_ROLL_RANGE`; those under `NORMAL_FOOD_ROLLS`
/// give normal food, so four pieces in five are normal.
pub const FOOD_ROLL_RANGE: i32 = 10;

/// See `FOOD_ROLL_RANGE`.
pub const NORMAL_FOOD_ROLLS: i32 = 8;

/// A cell off the outermost ring of the grid, where food may be placed.
pub open spec fn in_interior(p: (i32, i32)) -> bool {
    1 <= p.0 < WINDOW_SIZE - 1 && 1 <= p.1 < WINDOW_SIZE - 1
}

/// Every interior cell is among `occupied`.
pub open spec fn interior_full(occupied: Seq<(i32, i32)>) -> bool {
    forall|p: (i32, i32)| in_interior(p) ==> #[trigger] occupied.contains(p)
}

/// `q` comes before `p` when the interior is scanned column by column.
pub open spec fn scans_before(q: (i32, i32), p: (i32, i32)) -> bool {
    q.0 < p.0 || (q.0 == p.0 && q.1 < p.1)
}

/// The kind of food that a roll gives.
pub open spec fn food_type_of_roll(roll: int) -> FoodType {
    if roll < NORMAL_FOOD_ROLLS {
        FoodType::Normal
    } else {
        FoodType::Special
    }
}

/// Whether `p` is one of `cells`.
pub fn contains_cell(cells: &[(i32, i32)], p: (i32, i32)) -> (r: bool)
    ensures
        r == cells@.contains(p),
{
    let mut i: usize = 0;
    while i < cells.len()
        invariant
            0 <= i <= cells@.len(),
            forall|j: int| 0 <= j < i ==> cells@[j] != p,
        decreases cells.len() - i,
    {
        let c = cells[i];
        if c.0 == p.0 && c.1 == p.1 {
            assert(cells@[i as int] == p);
            return true;
        }
        i += 1;
    }
    false
}

/// The kind of food that a roll in `0..FOOD_ROLL_RANGE` gives.
pub fn food_type_for_roll(roll: i32) -> (r: FoodType)
    ensures
        r == food_type_of_roll(roll as int),
{
    if roll < NORMAL_FOOD_ROLLS {
        FoodType::Normal
    } else {
        FoodType::Special
    }
}

/// The first interior cell, column by column, that is not in `occupied`;
/// `None` when there is none.
pub fn first_free_cell(occupied: &[(i32, i32)]) -> (r: Option<(i32, i32)>)
    ensures
        match r {
            Some(p) => {
                &&& in_interior(p)
                &&& !occupied@.contains(p)
                &&& forall|q: (i32, i32)|
                    in_interior(q) && scans_before(q, p) ==> #[trigger] occupied@.contains(q)
            },
            None => interior_full(occupied@),
        },
{
    let mut x: i32 = 1;
    while x < WINDOW_SIZE - 1
        invariant
            1 <= x <= WINDOW_SIZE - 1,
            forall|q: (i32, i32)| in_interior(q) && q.0 < x ==> #[trigger] occupied@.contains(q),
        decreases WINDOW_SIZE - 1 - x,
    {
        let mut y: i32 = 1;
        while y < WINDOW_SIZE - 1
            invariant
                1 <= x < WINDOW_SIZE - 1,
                1 <= y <= WINDOW_SIZE - 1,
                forall|q: (i32, i32)|
                    in_interior(q) && scans_before(q, (x, y)) ==> #[trigger] occupied@.contains(q),
            decreases WINDOW_SIZE - 1 - y,
        {
            if !contains_cell(occupied, (x, y)) {
                return Some((x, y));
            }
            y += 1;
        }
        x += 1;
    }
    None
}

/// Picks a free interior cell for food and the kind of that food.
///
/// Cells are drawn at random from the interior until one is not in
/// `occupied`; after `FOOD_ATTEMPTS` misses the interior is scanned in order
/// instead, so the search always ends. `None` comes back exactly when every
/// interior cell is occupied.
pub fn generate_food(rng: &mut rand::rngs::ThreadRng, snake_body: &[(i32, i32)]) -> (r: Option<
    ((i32, i32), FoodType),
>)
    ensures
        r is Some <==> !interior_full(snake_body@),
        match r {
            Some((p, _)) => in_interior(p) && !snake_body@.contains(p),
            None => true,
        },
{
    let mut attempts: u32 = 0;
    while attempts < FOOD_ATTEMPTS
        invariant
            attempts <= FOOD_ATTEMPTS,
        decreases FOOD_ATTEMPTS - attempts,
    {
        let x = random_in(rng, 1, WINDOW_SIZE - 1);
        let y = random_in(rng, 1, WINDOW_SIZE - 1);
        if !contains_cell(snake_body, (x, y)) {
            let roll = random_in(rng, 0, FOOD_ROLL_RANGE);
            return Some(((x, y), food_type_for_roll(roll)));
        }
        attempts += 1;
    }
    match first_free_cell(snake_body) {
        Some(p) => {
            let roll = random_in(rng, 0, FOOD_ROLL_RANGE);
            Some((p, food_type_for_roll(roll)))
        },
        None => None,
    }
}

} // verus!
