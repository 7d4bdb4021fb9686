use terminal_games::games::snake::{
    Direction, Food, FoodType, GameState, Position, Snake, SnakeCell, SnakeFrame,
};
use terminal_games::keys::Key;

fn started() -> Snake {
    let mut s = Snake::new();
    s.handle_input(Key::Enter);
    s
}

fn tick_once(s: &mut Snake) {
    for _ in 0..10 {
        s.update();
    }
}

#[test]
fn new_snake_is_one_cell_heading_right() {
    let s = Snake::new();
    assert!(matches!(s.game_state, GameState::Welcome));
    assert_eq!(s.snake_body.len(), 1);
    assert_eq!(s.snake_body[0], Position { x: 10, y: 10 });
    assert!(matches!(s.direction, Direction::Right));
    assert_eq!(s.score, 0);
    assert!(!s.game_over);
    // the food never overlaps the body
    for p in &s.food.positions {
        assert_ne!(*p, Position { x: 10, y: 10 });
        assert!(p.x >= 0 && p.x < 20 && p.y >= 0 && p.y < 20);
    }
}

#[test]
fn opposite_direction_request_is_ignored() {
    let mut s = started();
    assert!(matches!(s.direction, Direction::Right));
    s.handle_input(Key::Left);
    assert!(matches!(s.next_direction, Direction::Right));
    s.handle_input(Key::Char('a'));
    assert!(matches!(s.next_direction, Direction::Right));
    s.handle_input(Key::Up);
    assert!(matches!(s.next_direction, Direction::Up));
}

#[test]
fn eating_food_grows_without_popping_the_tail() {
    let mut s = started();
    s.food = Food {
        position: Position { x: 11, y: 10 },
        food_type: FoodType::Candy,
        positions: vec![Position { x: 11, y: 10 }],
    };
    tick_once(&mut s);
    assert_eq!(s.snake_body.len(), 2);
    assert_eq!(s.snake_body[0], Position { x: 11, y: 10 });
    assert_eq!(s.snake_body[1], Position { x: 10, y: 10 });
    assert_eq!(s.score, 150);
    assert!(!s.game_over);
}

#[test]
fn apple_and_candy_score_differently() {
    let mut s = started();
    s.food = Food {
        position: Position { x: 11, y: 10 },
        food_type: FoodType::Apple,
        positions: vec![
            Position { x: 11, y: 10 },
            Position { x: 12, y: 10 },
            Position { x: 11, y: 11 },
            Position { x: 12, y: 11 },
        ],
    };
    tick_once(&mut s);
    assert_eq!(s.score, 50);
}

#[test]
fn plain_step_moves_without_growing() {
    let mut s = started();
    // park the food far away from the snake's path
    s.food = Food {
        position: Position { x: 0, y: 0 },
        food_type: FoodType::Candy,
        positions: vec![Position { x: 0, y: 0 }],
    };
    tick_once(&mut s);
    assert_eq!(s.snake_body.len(), 1);
    assert_eq!(s.snake_body[0], Position { x: 11, y: 10 });
    assert_eq!(s.score, 0);
}

#[test]
fn leaving_the_board_ends_the_game() {
    let mut s = started();
    s.snake_body.clear();
    s.snake_body.push_back(Position { x: 19, y: 10 });
    s.food = Food {
        position: Position { x: 0, y: 0 },
        food_type: FoodType::Candy,
        positions: vec![Position { x: 0, y: 0 }],
    };
    tick_once(&mut s);
    assert!(s.game_over);
    assert_eq!(s.snake_body.len(), 1);
    assert_eq!(s.snake_body[0], Position { x: 19, y: 10 });
}

#[test]
fn biting_the_body_ends_the_game() {
    let mut s = started();
    s.snake_body.clear();
    // a hook of body cells so the head runs into its own flank
    s.snake_body.push_back(Position { x: 5, y: 5 });
    s.snake_body.push_back(Position { x: 5, y: 6 });
    s.snake_body.push_back(Position { x: 6, y: 6 });
    s.snake_body.push_back(Position { x: 6, y: 5 });
    s.snake_body.push_back(Position { x: 6, y: 4 });
    s.direction = Direction::Up;
    s.next_direction = Direction::Right;
    s.food = Food {
        position: Position { x: 0, y: 0 },
        food_type: FoodType::Candy,
        positions: vec![Position { x: 0, y: 0 }],
    };
    tick_once(&mut s);
    assert!(s.game_over);
}

#[test]
fn restart_returns_straight_to_play() {
    let mut s = started();
    s.game_over = true;
    s.score = 500;
    let acted = s.handle_input(Key::Char('r'));
    assert!(acted);
    assert!(matches!(s.game_state, GameState::Playing));
    assert!(!s.game_over);
    assert_eq!(s.score, 0);
    assert_eq!(s.snake_body.len(), 1);
}

#[test]
fn only_r_acts_after_game_over() {
    let mut s = started();
    s.game_over = true;
    let acted = s.handle_input(Key::Left);
    assert!(!acted);
    assert!(s.game_over);
}

#[test]
fn render_shows_body_and_food() {
    let mut s = started();
    s.food = Food {
        position: Position { x: 3, y: 4 },
        food_type: FoodType::Candy,
        positions: vec![Position { x: 3, y: 4 }],
    };
    match s.render(30) {
        SnakeFrame::Board(grid) => {
            assert_eq!(grid.len(), 20);
            assert_eq!(grid[0].len(), 20);
            assert!(matches!(grid[10][10], SnakeCell::Body));
            assert!(matches!(grid[4][3], SnakeCell::Candy));
            assert!(matches!(grid[0][0], SnakeCell::Empty));
        },
        _ => panic!("expected the board"),
    }
}

#[test]
fn pause_freezes_motion() {
    let mut s = started();
    s.food = Food {
        position: Position { x: 0, y: 0 },
        food_type: FoodType::Candy,
        positions: vec![Position { x: 0, y: 0 }],
    };
    s.handle_input(Key::Char('p'));
    assert!(matches!(s.game_state, GameState::Paused));
    for _ in 0..30 {
        s.update();
    }
    assert_eq!(s.snake_body[0], Position { x: 10, y: 10 });
    s.handle_input(Key::Esc);
    assert!(matches!(s.game_state, GameState::Playing));
}
