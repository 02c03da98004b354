use snake::{
    contains_cell, direction_of_key, first_free_cell, food_type_for_roll, generate_food,
    is_opposite, step, Direction, FoodType, Game, Key, BASE_SPEED, SPECIAL_GROWTH_EXTRA,
    WINDOW_SIZE,
};

fn interior_cells() -> Vec<(i32, i32)> {
    let mut cells = Vec::new();
    for x in 1..WINDOW_SIZE - 1 {
        for y in 1..WINDOW_SIZE - 1 {
            cells.push((x, y));
        }
    }
    cells
}

fn in_interior(p: (i32, i32)) -> bool {
    1 <= p.0 && p.0 < WINDOW_SIZE - 1 && 1 <= p.1 && p.1 < WINDOW_SIZE - 1
}

fn same_state(a: &Game, b: &Game) -> bool {
    a.snake.body == b.snake.body
        && a.snake.direction == b.snake.direction
        && a.snake.next_direction == b.snake.next_direction
        && a.food == b.food
        && a.food_type == b.food_type
        && a.game_over == b.game_over
        && a.base_speed == b.base_speed
        && a.is_accelerating == b.is_accelerating
}

fn copy_state(g: &Game) -> Game {
    let mut c = Game::new();
    c.snake.body = g.snake.body.clone();
    c.snake.direction = g.snake.direction;
    c.snake.next_direction = g.snake.next_direction;
    c.food = g.food;
    c.food_type = g.food_type;
    c.game_over = g.game_over;
    c.base_speed = g.base_speed;
    c.is_accelerating = g.is_accelerating;
    c
}

#[test]
fn test_game_new() {
    let game = Game::new();
    assert_eq!(game.snake.body.len(), 3);
    assert_eq!(game.snake.direction, Direction::Right);
    assert!(!game.game_over);
}

#[test]
fn test_snake_movement() {
    let mut game = Game::new();
    game.update();
    assert_eq!(game.snake.body[0], (6, 5));
}

#[test]
fn test_wall_wrap() {
    let mut game = Game::new();
    game.snake.body = vec![(WINDOW_SIZE - 1, 5)];
    game.snake.direction = Direction::Right;
    game.update();
    assert_eq!(game.snake.body[0], (0, 5));
}

#[test]
fn test_collision_with_body() {
    let mut game = Game::new();
    game.snake.body = vec![(5, 5), (4, 5), (3, 5), (6, 5)];
    game.update();
    assert!(game.game_over);
}

#[test]
fn test_food_consumption() {
    let mut game = Game::new();
    game.food = (6, 5);
    game.food_type = FoodType::Normal;
    game.update();
    assert_ne!(game.food, (6, 5));
    assert_eq!(game.snake.body.len(), 4);
}

#[test]
fn test_special_food_consumption() {
    let mut game = Game::new();
    game.food = (6, 5);
    game.food_type = FoodType::Special;
    game.update();
    assert_ne!(game.food, (6, 5));
    assert_eq!(game.snake.body.len(), 7);
}

#[test]
fn test_input_handling() {
    let mut game = Game::new();
    game.handle_input(Key::Up, true);
    assert_eq!(game.snake.next_direction, Direction::Up);
    game.handle_input(Key::Left, true);
    assert_ne!(game.snake.next_direction, Direction::Left);
}

#[test]
fn test_restart_game() {
    let mut game = Game::new();
    game.game_over = true;
    game.handle_input(Key::R, true);
    assert!(!game.game_over);
    assert_eq!(game.snake.body.len(), 3);
}

#[test]
fn fresh_game_has_initial_layout() {
    let game = Game::new();
    assert_eq!(game.snake.body, vec![(5, 5), (4, 5), (3, 5)]);
    assert_eq!(game.snake.next_direction, Direction::Right);
    assert_eq!(game.base_speed, BASE_SPEED);
    assert!(!game.is_accelerating);
    assert!(in_interior(game.food));
    assert!(!game.snake.body.contains(&game.food));
}

#[test]
fn plain_move_drops_tail() {
    let mut game = Game::new();
    game.food = (20, 20);
    game.update();
    assert_eq!(game.snake.body, vec![(6, 5), (5, 5), (4, 5)]);
    assert_eq!(game.food, (20, 20));
    assert!(!game.game_over);
}

#[test]
fn move_commits_next_direction() {
    let mut game = Game::new();
    game.food = (20, 20);
    game.handle_input(Key::Down, true);
    assert_eq!(game.snake.direction, Direction::Right);
    game.update();
    assert_eq!(game.snake.direction, Direction::Down);
    assert_eq!(game.snake.body[0], (5, 6));
}

#[test]
fn second_request_before_tick_wins() {
    let mut game = Game::new();
    game.food = (20, 20);
    game.handle_input(Key::Up, true);
    game.handle_input(Key::Down, true);
    assert_eq!(game.snake.next_direction, Direction::Down);
    game.update();
    assert_eq!(game.snake.body[0], (5, 6));
}

#[test]
fn wrap_on_every_edge() {
    assert_eq!(step((0, 7), Direction::Left), (WINDOW_SIZE - 1, 7));
    assert_eq!(step((7, 0), Direction::Up), (7, WINDOW_SIZE - 1));
    assert_eq!(step((7, WINDOW_SIZE - 1), Direction::Down), (7, 0));
    assert_eq!(step((WINDOW_SIZE - 1, 7), Direction::Right), (0, 7));
    assert_eq!(step((7, 7), Direction::Up), (7, 6));
}

#[test]
fn collision_leaves_body_unchanged() {
    let mut game = Game::new();
    let body = vec![(5, 5), (4, 5), (3, 5), (6, 5)];
    game.snake.body = body.clone();
    let food = game.food;
    game.update();
    assert!(game.game_over);
    assert_eq!(game.snake.body, body);
    assert_eq!(game.food, food);
}

#[test]
fn update_after_game_over_does_nothing() {
    let mut game = Game::new();
    game.game_over = true;
    game.snake.next_direction = Direction::Up;
    let before = copy_state(&game);
    game.update();
    assert!(same_state(&game, &before));
}

#[test]
fn special_food_copies_tail_cell() {
    let mut game = Game::new();
    game.food = (6, 5);
    game.food_type = FoodType::Special;
    game.update();
    assert_eq!(game.snake.body.len(), 4 + SPECIAL_GROWTH_EXTRA);
    assert_eq!(&game.snake.body[..4], &[(6, 5), (5, 5), (4, 5), (3, 5)]);
    for cell in &game.snake.body[4..] {
        assert_eq!(*cell, (3, 5));
    }
    assert!(in_interior(game.food));
    assert!(!game.snake.body.contains(&game.food));
}

#[test]
fn eating_with_no_room_for_food_ends_game() {
    let mut body = vec![(2, 1)];
    for cell in interior_cells() {
        if cell != (1, 1) && cell != (2, 1) {
            body.push(cell);
        }
    }
    let mut game = Game::new();
    game.snake.body = body.clone();
    game.snake.direction = Direction::Left;
    game.snake.next_direction = Direction::Left;
    game.food = (1, 1);
    game.update();
    assert!(game.game_over);
    assert_eq!(game.snake.body, body);
    assert_eq!(game.food, (1, 1));
}

#[test]
fn reverse_request_is_ignored() {
    let mut game = Game::new();
    game.handle_input(Key::Left, true);
    assert_eq!(game.snake.next_direction, Direction::Right);
    game.handle_input(Key::Up, true);
    assert_eq!(game.snake.next_direction, Direction::Up);
}

#[test]
fn accelerate_key_follows_press_state() {
    let mut game = Game::new();
    assert_eq!(game.tick_interval(), 150);
    game.handle_input(Key::Space, true);
    assert!(game.is_accelerating);
    assert_eq!(game.tick_interval(), 75);
    game.handle_input(Key::Space, false);
    assert!(!game.is_accelerating);
    assert_eq!(game.tick_interval(), 150);
}

#[test]
fn unknown_key_changes_nothing() {
    let mut game = Game::new();
    game.handle_input(Key::Up, true);
    let before = copy_state(&game);
    game.handle_input(Key::Unknown, true);
    assert!(same_state(&game, &before));
    game.handle_input(Key::Unknown, false);
    assert!(same_state(&game, &before));
}

#[test]
fn only_restart_counts_after_game_over() {
    let mut game = Game::new();
    game.game_over = true;
    game.snake.body = vec![(9, 9), (9, 10)];
    let before = copy_state(&game);
    for key in [Key::Up, Key::Down, Key::Left, Key::Right, Key::Space, Key::Unknown] {
        game.handle_input(key, true);
        assert!(same_state(&game, &before));
    }
    game.handle_input(Key::R, false);
    assert!(!game.game_over);
    assert_eq!(game.snake.body, vec![(5, 5), (4, 5), (3, 5)]);
    assert_eq!(game.snake.direction, Direction::Right);
}

#[test]
fn roll_decides_food_type() {
    for roll in 0..8 {
        assert_eq!(food_type_for_roll(roll), FoodType::Normal);
    }
    assert_eq!(food_type_for_roll(8), FoodType::Special);
    assert_eq!(food_type_for_roll(9), FoodType::Special);
}

#[test]
fn contains_cell_finds_members() {
    let cells = [(1, 2), (3, 4)];
    assert!(contains_cell(&cells, (3, 4)));
    assert!(!contains_cell(&cells, (4, 3)));
    assert!(!contains_cell(&[], (0, 0)));
}

#[test]
fn first_free_cell_scans_in_order() {
    assert_eq!(first_free_cell(&[]), Some((1, 1)));
    assert_eq!(first_free_cell(&[(1, 1), (1, 2), (5, 5)]), Some((1, 3)));
    let mut column = Vec::new();
    for y in 1..WINDOW_SIZE - 1 {
        column.push((1, y));
    }
    assert_eq!(first_free_cell(&column), Some((2, 1)));
    assert_eq!(first_free_cell(&interior_cells()), None);
}

#[test]
fn generate_food_avoids_body() {
    let mut rng = rand::rng();
    let body = vec![(5, 5), (4, 5), (3, 5)];
    for _ in 0..200 {
        let (p, _) = generate_food(&mut rng, &body).unwrap();
        assert!(in_interior(p));
        assert!(!body.contains(&p));
    }
}

#[test]
fn generate_food_finds_last_free_cell() {
    let mut rng = rand::rng();
    let occupied: Vec<(i32, i32)> = interior_cells().into_iter().filter(|c| *c != (17, 9)).collect();
    let (p, _) = generate_food(&mut rng, &occupied).unwrap();
    assert_eq!(p, (17, 9));
}

#[test]
fn generate_food_on_full_interior_is_none() {
    let mut rng = rand::rng();
    assert!(generate_food(&mut rng, &interior_cells()).is_none());
}

#[test]
fn generate_food_draws_both_types() {
    let mut rng = rand::rng();
    let mut normal = 0;
    let mut special = 0;
    for _ in 0..500 {
        match generate_food(&mut rng, &[]).unwrap().1 {
            FoodType::Normal => normal += 1,
            FoodType::Special => special += 1,
        }
    }
    assert!(normal > special);
    assert!(special > 0);
}

#[test]
fn keys_and_headings() {
    assert_eq!(direction_of_key(Key::Left), Some(Direction::Left));
    assert_eq!(direction_of_key(Key::Space), None);
    assert!(is_opposite(Direction::Up, Direction::Down));
    assert!(is_opposite(Direction::Right, Direction::Left));
    assert!(!is_opposite(Direction::Up, Direction::Left));
    assert!(!is_opposite(Direction::Up, Direction::Up));
}
