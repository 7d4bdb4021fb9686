use terminal_games::games::tetris::{GameState, Tetris, TetrisFrame};
use terminal_games::keys::Key;

fn started() -> Tetris {
    let mut t = Tetris::new();
    t.handle_input(Key::Enter);
    t
}

#[test]
fn new_game_spawns_a_known_piece() {
    let t = Tetris::new();
    assert!(matches!(t.game_state, GameState::Welcome));
    assert!(t.current_piece < 7);
    assert_eq!(t.piece_x, 3);
    assert_eq!(t.piece_y, 0);
    assert_eq!(t.board.len(), 20);
    assert_eq!(t.board[0].len(), 10);
    assert!(!t.game_over);
    // the shape holds at least one cell
    let cells: usize = t
        .current_shape
        .iter()
        .map(|r| r.iter().filter(|&&c| c).count())
        .sum();
    assert!(cells == 4);
}

#[test]
fn sidesteps_respect_the_walls() {
    let mut t = started();
    let x0 = t.piece_x;
    assert!(t.move_piece(1, 0));
    assert_eq!(t.piece_x, x0 + 1);
    assert!(t.move_piece(-1, 0));
    assert_eq!(t.piece_x, x0);
    // push to the left wall: eventually the move is rejected silently
    let mut steps = 0;
    while t.move_piece(-1, 0) {
        steps += 1;
        assert!(steps < 20);
    }
    let stuck_x = t.piece_x;
    assert!(!t.move_piece(-1, 0));
    assert_eq!(t.piece_x, stuck_x);
}

#[test]
fn blocked_descent_is_rejected() {
    let mut t = started();
    let mut fell = 0;
    while t.move_piece(0, 1) {
        fell += 1;
        assert!(fell < 30);
    }
    // at rest on the floor, another step down stays rejected
    let y = t.piece_y;
    assert!(!t.move_piece(0, 1));
    assert_eq!(t.piece_y, y);
}

#[test]
fn clearing_one_full_row_scores_one_hundred() {
    let mut t = started();
    for j in 0..10 {
        t.board[19][j] = true;
    }
    t.board[18][0] = true;
    t.clear_lines();
    assert_eq!(t.score, 100);
    assert_eq!(t.board.len(), 20);
    // the surviving occupied cell sank one row
    assert!(t.board[19][0]);
    assert!(!t.board[18][0]);
    for j in 1..10 {
        assert!(!t.board[19][j]);
    }
}

#[test]
fn clearing_more_rows_at_once_pays_more() {
    let mut t = started();
    for i in 16..20 {
        for j in 0..10 {
            t.board[i][j] = true;
        }
    }
    t.clear_lines();
    assert_eq!(t.score, 800);
    for i in 0..20 {
        for j in 0..10 {
            assert!(!t.board[i][j]);
        }
    }
}

#[test]
fn hard_drop_freezes_at_the_bottom() {
    let mut t = started();
    t.handle_input(Key::Char(' '));
    // the dropped piece froze somewhere in the bottom rows and a new piece
    // spawned at the top
    assert_eq!(t.piece_y, 0);
    assert_eq!(t.piece_x, 3);
    let frozen: usize = t
        .board
        .iter()
        .map(|r| r.iter().filter(|&&c| c).count())
        .sum();
    assert_eq!(frozen, 4);
}

#[test]
fn blocked_spawn_ends_the_game() {
    let mut t = started();
    for i in 0..6 {
        for j in 0..10 {
            t.board[i][j] = true;
        }
    }
    t.spawn_new_piece();
    assert!(t.game_over);
}

#[test]
fn rotation_is_rejected_at_the_wall() {
    let mut t = started();
    // whatever happens, a rotation keeps exactly four cells
    t.rotate_piece();
    let cells: usize = t
        .current_shape
        .iter()
        .map(|r| r.iter().filter(|&&c| c).count())
        .sum();
    assert_eq!(cells, 4);
}

#[test]
fn restart_returns_straight_to_block_play() {
    let mut t = started();
    t.game_over = true;
    t.score = 300;
    let acted = t.handle_input(Key::Char('r'));
    assert!(acted);
    assert!(matches!(t.game_state, GameState::Playing));
    assert!(!t.game_over);
    assert_eq!(t.score, 0);
}

#[test]
fn render_overlays_the_piece() {
    let mut t = started();
    match t.render(30) {
        TetrisFrame::Board(grid) => {
            assert_eq!(grid.len(), 20);
            let shown: usize = grid
                .iter()
                .map(|r| r.iter().filter(|&&c| c).count())
                .sum();
            assert_eq!(shown, 4);
        },
        _ => panic!("expected the board"),
    }
}

#[test]
fn pause_freezes_the_fall() {
    let mut t = started();
    t.handle_input(Key::Char('p'));
    assert!(matches!(t.game_state, GameState::Paused));
    for _ in 0..100 {
        t.update();
    }
    assert_eq!(t.piece_y, 0);
}
