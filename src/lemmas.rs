use crate::food::{interior_full, FoodType, SPECIAL_GROWTH_EXTRA};
use crate::game::{key_direction, Game, Key};
use crate::grid::{opposite, Direction, WINDOW_SIZE};
use vstd::prelude::*;

verus! {

/// A fresh game has a three-cell snake heading right, is running, and its
/// food lies outside the snake.
pub proof fn lemma_fresh_game(g: Game)
    requires
        g.is_fresh(),
    ensures
        g.wf(),
        g.snake.body@.len() == 3,
        g.snake.direction == Direction::Right,
        !g.game_over,
        !g.snake.body@.contains(g.food),
{
}

/// A tick that eats nothing moves the head one cell in the asked-for
/// heading and drops the old tail cell, so the length stays the same.
pub proof fn lemma_plain_move(g: Game, n: Game)
    requires
        g.wf(),
        g.ticked(n),
        !g.game_over,
        !g.snake.body@.contains(g.next_head()),
        g.next_head() != g.food,
    ensures
        !n.game_over,
        n.snake.body@[0] == g.next_head(),
        n.snake.body@.len() == g.snake.body@.len(),
        n.snake.body@ == seq![g.next_head()] + g.snake.body@.drop_last(),
{
    let moved = seq![g.next_head()] + g.snake.body@;
    assert(moved.drop_last() =~= seq![g.next_head()] + g.snake.body@.drop_last());
}

/// A head at the right edge that moves right comes back at the left edge of
/// the same row.
pub proof fn lemma_wrap_right_edge(g: Game, n: Game, y: i32)
    requires
        g.wf(),
        g.ticked(n),
        !g.game_over,
        !g.move_fails(),
        g.snake.body@[0] == ((WINDOW_SIZE - 1) as i32, y),
        g.snake.next_direction == Direction::Right,
    ensures
        n.snake.body@[0] == (0i32, y),
{
}

/// A head that would move into the body ends the game, and the body stays
/// as it was.
pub proof fn lemma_self_collision(g: Game, n: Game)
    requires
        g.wf(),
        g.ticked(n),
        !g.game_over,
        g.snake.body@.contains(g.next_head()),
    ensures
        n.game_over,
        n.snake.body@ == g.snake.body@,
{
}

/// Eating normal food lengthens the snake by exactly one cell and moves the
/// food elsewhere, whenever a free interior cell is left for it.
pub proof fn lemma_eat_normal(g: Game, n: Game)
    requires
        g.wf(),
        g.ticked(n),
        !g.game_over,
        g.food_clear(),
        g.next_head() == g.food,
        g.food_type == FoodType::Normal,
        !interior_full(seq![g.food] + g.snake.body@),
    ensures
        !n.game_over,
        n.snake.body@.len() == g.snake.body@.len() + 1,
        n.food != g.food,
{
    let moved = seq![g.food] + g.snake.body@;
    assert(moved[0] == g.food);
}

/// Eating special food lengthens the snake by one cell and by
/// `SPECIAL_GROWTH_EXTRA` more, and moves the food elsewhere, whenever a free
/// interior cell is left for it.
pub proof fn lemma_eat_special(g: Game, n: Game)
    requires
        g.wf(),
        g.ticked(n),
        !g.game_over,
        g.food_clear(),
        g.next_head() == g.food,
        g.food_type == FoodType::Special,
        !interior_full(seq![g.food] + g.snake.body@),
    ensures
        !n.game_over,
        n.snake.body@.len() == g.snake.body@.len() + 1 + SPECIAL_GROWTH_EXTRA,
        n.food != g.food,
{
    let moved = seq![g.food] + g.snake.body@;
    assert(moved[0] == g.food);
}

/// While the game runs, an arrow key that asks for the reverse of the
/// heading in effect is ignored, and any other arrow key becomes the
/// asked-for heading.
pub proof fn lemma_steering(g: Game, n: Game, key: Key, pressed: bool)
    requires
        g.reacted(key, pressed, n),
        !g.game_over,
    ensures
        key_direction(key) == Some(opposite(g.snake.direction)) ==> n.snake.next_direction
            == g.snake.next_direction,
        forall|d: Direction|
            key_direction(key) == Some(d) && d != opposite(g.snake.direction)
                ==> n.snake.next_direction == d,
{
}

/// Once the game is over, the restart key starts a running game with a
/// three-cell snake.
pub proof fn lemma_restart(g: Game, n: Game, pressed: bool)
    requires
        g.game_over,
        g.reacted(Key::R, pressed, n),
    ensures
        !n.game_over,
        n.snake.body@.len() == 3,
{
}

/// A key that the game does not know changes nothing.
pub proof fn lemma_unknown_key_ignored(g: Game, n: Game, pressed: bool)
    requires
        g.reacted(Key::Unknown, pressed, n),
    ensures
        n == g,
{
}

} // verus!
