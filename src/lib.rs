//! A snake game on a wrap-around grid: the state machine that advances the
//! game one tick at a time, the translation of key events into intents, and
//! the placement of food.

mod food;
mod game;
mod grid;
mod lemmas;
mod random;

pub use food::{
    contains_cell, first_free_cell, food_type_for_roll, generate_food, FoodType, FOOD_ATTEMPTS,
    FOOD_ROLL_RANGE, NORMAL_FOOD_ROLLS, SPECIAL_GROWTH_EXTRA,
};
pub use grid::{is_opposite, step, Direction, GRID_SIZE, WINDOW_SIZE};
pub use game::{direction_of_key, Game, Key, Snake, BASE_SPEED};
pub use lemmas::{
    lemma_eat_normal, lemma_eat_special, lemma_fresh_game, lemma_plain_move, lemma_restart,
    lemma_self_collision, lemma_steering, lemma_unknown_key_ignored, lemma_wrap_right_edge,
};
