use crate::food::{
    contains_cell, generate_food, in_interior, interior_full, FoodType, SPECIAL_GROWTH_EXTRA,
};
use crate::grid::{cell_on_grid, is_opposite, opposite, step, step_spec, Direction};
use vstd::prelude::*;

verus! {

/// Milliseconds between two moves while the accelerate key is up.
pub const BASE_SPEED: u64 = 150;

/// The keys that the game reacts to; every other key is `Unknown`.
#[derive(Clone, Copy, Debug, PartialEq, Eq, Structural)]
pub enum Key {
    Up,
    Down,
    Left,
    Right,
    /// Held down to move twice as fast.
    Space,
    /// Starts a new game once the current one is over.
    R,
    Unknown,
}

/// The heading that a key asks for, if it is an arrow key.
pub open spec fn key_direction(key: Key) -> Option<Direction> {
    match key {
        Key::Up => Some(Direction::Up),
        Key::Down => Some(Direction::Down),
        Key::Left => Some(Direction::Left),
        Key::Right => Some(Direction::Right),
        _ => None,
    }
}

/// The heading that a key asks for, if it is an arrow key.
pub fn direction_of_key(key: Key) -> (r: Option<Direction>)
    ensures
        r == key_direction(key),
{
    match key {
        Key::Up => Some(Direction::Up),
        Key::Down => Some(Direction::Down),
        Key::Left => Some(Direction::Left),
        Key::Right => Some(Direction::Right),
        _ => None,
    }
}

/// The cells of a snake at the start of a game, head first.
pub open spec fn initial_body() -> Seq<(i32, i32)> {
    seq![(5i32, 5i32), (4i32, 5i32), (3i32, 5i32)]
}

/// `moved` after eating food of kind `eaten`: special food adds copies of the
/// tail cell.
pub open spec fn grown(moved: Seq<(i32, i32)>, eaten: FoodType) -> Seq<(i32, i32)> {
    match eaten {
        FoodType::Normal => moved,
        FoodType::Special => moved + Seq::new(SPECIAL_GROWTH_EXTRA as nat, |_i: int| moved.last()),
    }
}

/// The moving actor: its cells head first, the heading in effect, and the
/// heading asked for since the last tick.
pub struct Snake {
    pub body: Vec<(i32, i32)>,
    pub direction: Direction,
    pub next_direction: Direction,
}

/// The whole state of one game.
pub struct Game {
    pub snake: Snake,
    pub food: (i32, i32),
    pub food_type: FoodType,
    pub game_over: bool,
    /// Milliseconds between ticks at normal speed.
    pub base_speed: u64,
    pub is_accelerating: bool,
}

impl Game {
    /// The snake has a head and all its cells lie on the grid.
    pub open spec fn wf(self) -> bool {
        &&& self.snake.body@.len() > 0
        &&& forall|i: int| 0 <= i < self.snake.body@.len() ==> cell_on_grid(#[trigger] self.snake.body@[i])
    }

    /// The food lies outside the snake.
    pub open spec fn food_clear(self) -> bool {
        !self.snake.body@.contains(self.food)
    }

    /// A game as it stands when it begins.
    pub open spec fn is_fresh(self) -> bool {
        &&& self.snake.body@ == initial_body()
        &&& self.snake.direction == Direction::Right
        &&& self.snake.next_direction == Direction::Right
        &&& !self.game_over
        &&& self.base_speed == BASE_SPEED
        &&& !self.is_accelerating
        &&& in_interior(self.food)
        &&& self.food_clear()
    }

    /// The cell that the head moves into on the next tick.
    pub open spec fn next_head(self) -> (i32, i32) {
        step_spec(self.snake.body@[0], self.snake.next_direction)
    }

    /// The move of the next tick fails: the head would run into the body, or
    /// it eats the food and no interior cell is left for new food.
    pub open spec fn move_fails(self) -> bool {
        let h = self.next_head();
        self.snake.body@.contains(h) || (h == self.food && interior_full(
            seq![h] + self.snake.body@,
        ))
    }

    /// `next` is what one tick makes of `self`. Where food is eaten, the new
    /// food is any free interior cell and of any kind.
    pub open spec fn ticked(self, next: Game) -> bool {
        if self.game_over {
            next == self
        } else {
            let h = self.next_head();
            let moved = seq![h] + self.snake.body@;
            &&& next.snake.direction == self.snake.next_direction
            &&& next.snake.next_direction == self.snake.next_direction
            &&& next.base_speed == self.base_speed
            &&& next.is_accelerating == self.is_accelerating
            &&& if self.move_fails() {
                &&& next.game_over
                &&& next.snake.body@ == self.snake.body@
                &&& next.food == self.food
                &&& next.food_type == self.food_type
            } else if h != self.food {
                &&& !next.game_over
                &&& next.snake.body@ == moved.drop_last()
                &&& next.food == self.food
                &&& next.food_type == self.food_type
            } else {
                &&& !next.game_over
                &&& next.snake.body@ == grown(moved, self.food_type)
                &&& in_interior(next.food)
                &&& !moved.contains(next.food)
            }
        }
    }

    /// What a key event does to a game that is still running.
    pub open spec fn steered(self, key: Key, pressed: bool) -> Game {
        Game {
            snake: Snake {
                body: self.snake.body,
                direction: self.snake.direction,
                next_direction: match key_direction(key) {
                    Some(d) => if d == opposite(self.snake.direction) {
                        self.snake.next_direction
                    } else {
                        d
                    },
                    None => self.snake.next_direction,
                },
            },
            food: self.food,
            food_type: self.food_type,
            game_over: self.game_over,
            base_speed: self.base_speed,
            is_accelerating: if key == Key::Space {
                pressed
            } else {
                self.is_accelerating
            },
        }
    }

    /// `next` is what a key event makes of `self`: once the game is over only
    /// the restart key counts, and it starts a fresh game.
    pub open spec fn reacted(self, key: Key, pressed: bool, next: Game) -> bool {
        if self.game_over {
            if key == Key::R {
                next.is_fresh()
            } else {
                next == self
            }
        } else {
            next == self.steered(key, pressed)
        }
    }

    /// A fresh game: a three-cell snake heading right, and food placed on a
    /// free interior cell.
    pub fn new() -> (r: Game)
        ensures
            r.is_fresh(),
            r.wf(),
    {
        let mut rng = rand::rng();
        let origin_position: Vec<(i32, i32)> = vec![(5, 5), (4, 5), (3, 5)];
        assert(!origin_position@.contains((1i32, 1i32)));
        assert(in_interior((1i32, 1i32)));
        let placed = generate_food(&mut rng, origin_position.as_slice());
        let (food, food_type) = placed.unwrap();
        Game {
            snake: Snake {
                body: origin_position,
                direction: Direction::Right,
                next_direction: Direction::Right,
            },
            food,
            food_type,
            game_over: false,
            base_speed: BASE_SPEED,
            is_accelerating: false,
        }
    }

    /// Advances the game by one tick: the asked-for heading takes effect, the
    /// head moves one cell (wrapping around the edges) and the tail follows,
    /// unless food is eaten. Running into the body ends the game and leaves
    /// the body as it was.
    pub fn update(&mut self)
        requires
            old(self).wf(),
        ensures
            old(self).ticked(*final(self)),
            final(self).wf(),
            old(self).food_clear() ==> final(self).food_clear(),
    {
        if self.game_over {
            return;
        }
        self.snake.direction = self.snake.next_direction;
        let head = self.snake.body[0];
        let new_head = step(head, self.snake.direction);
        if contains_cell(self.snake.body.as_slice(), new_head) {
            self.game_over = true;
            return;
        }
        let ghost pre = self.snake.body@;
        self.snake.body.insert(0, new_head);
        assert(self.snake.body@ =~= seq![new_head] + pre);
        if new_head.0 == self.food.0 && new_head.1 == self.food.1 {
            let mut rng = rand::rng();
            match generate_food(&mut rng, self.snake.body.as_slice()) {
                Some((new_food, new_food_type)) => {
                    self.food = new_food;
                    match self.food_type {
                        FoodType::Normal => {},
                        FoodType::Special => {
                            grow_tail(&mut self.snake.body, SPECIAL_GROWTH_EXTRA);
                        },
                    }
                    self.food_type = new_food_type;
                },
                None => {
                    self.snake.body.remove(0);
                    assert(self.snake.body@ =~= pre);
                    self.game_over = true;
                },
            }
        } else {
            self.snake.body.pop();
        }
    }

    /// Reacts to a key being pressed (`pressed`) or released. While the game
    /// runs, the accelerate key is held down or let go, and an arrow key asks
    /// for a new heading unless it is the reverse of the one in effect. Once
    /// the game is over, only the restart key does anything.
    pub fn handle_input(&mut self, key: Key, pressed: bool)
        ensures
            old(self).reacted(key, pressed, *final(self)),
            old(self).wf() ==> final(self).wf(),
            old(self).food_clear() ==> final(self).food_clear(),
    {
        if self.game_over {
            if key == Key::R {
                *self = Game::new();
            }
            return;
        }
        if key == Key::Space {
            self.is_accelerating = pressed;
        }
        match direction_of_key(key) {
            Some(d) => {
                if !is_opposite(d, self.snake.direction) {
                    self.snake.next_direction = d;
                }
            },
            None => {},
        }
    }

    /// Milliseconds from one tick to the next: half the base interval while
    /// accelerating.
    pub fn tick_interval(&self) -> (r: u64)
        ensures
            r == if self.is_accelerating {
                self.base_speed / 2
            } else {
                self.base_speed
            },
    {
        if self.is_accelerating {
            self.base_speed / 2
        } else {
            self.base_speed
        }
    }
}

/// Appends `n` copies of the last cell of `body`.
fn grow_tail(body: &mut Vec<(i32, i32)>, n: usize)
    requires
        old(body)@.len() > 0,
    ensures
        final(body)@ == old(body)@ + Seq::new(n as nat, |_i: int| old(body)@.last()),
{
    let ghost start = body@;
    let mut k: usize = 0;
    while k < n
        invariant
            k <= n,
            start.len() > 0,
            body@ == start + Seq::new(k as nat, |_i: int| start.last()),
        decreases n - k,
    {
        let tail = body[body.len() - 1];
        body.push(tail);
        k += 1;
        assert(body@ =~= start + Seq::new(k as nat, |_i: int| start.last()));
    }
}

} // verus!
