use terminal_games::games::twenty_forty_eight::{
    Direction, GameState, TfeFrame, TwentyFortyEight,
};
use terminal_games::keys::Key;

fn with_board(rows: [[u32; 4]; 4]) -> TwentyFortyEight {
    let mut g = TwentyFortyEight::new();
    g.game_state = GameState::Playing;
    g.game_over = false;
    g.score = 0;
    g.board = rows.iter().map(|r| r.to_vec()).collect();
    g
}

#[test]
fn new_game_spawns_two_tiles() {
    let g = TwentyFortyEight::new();
    assert!(matches!(g.game_state, GameState::Welcome));
    assert_eq!(g.score, 0);
    let mut nonzero = 0;
    for row in &g.board {
        assert_eq!(row.len(), 4);
        for &v in row {
            if v != 0 {
                nonzero += 1;
                assert!(v == 2 || v == 4);
            }
        }
    }
    assert_eq!(nonzero, 2);
}

#[test]
fn left_move_merges_the_leading_pair() {
    let mut g = with_board([[2, 2, 0, 0], [0, 0, 0, 0], [0, 0, 0, 0], [0, 0, 0, 0]]);
    let moved = g.move_tiles(Direction::Left);
    assert!(moved);
    assert_eq!(g.board[0], vec![4, 0, 0, 0]);
    assert_eq!(g.score, 4);
}

#[test]
fn one_move_never_chain_merges() {
    let mut g = with_board([[2, 2, 2, 2], [4, 2, 2, 0], [2, 2, 2, 0], [0, 0, 0, 0]]);
    let moved = g.move_tiles(Direction::Left);
    assert!(moved);
    assert_eq!(g.board[0], vec![4, 4, 0, 0]);
    assert_eq!(g.board[1], vec![4, 4, 0, 0]);
    assert_eq!(g.board[2], vec![4, 2, 0, 0]);
    // every merged pair is counted once: 4 + 4 from the first row, 4 from
    // each of the next two
    assert_eq!(g.score, 8 + 4 + 4);
    // the tile total is conserved by the move
    let total: u32 = g.board.iter().flatten().sum();
    assert_eq!(total, 8 + 8 + 6);
}

#[test]
fn moves_work_toward_every_edge() {
    let mut g = with_board([[2, 0, 0, 2], [0, 0, 0, 0], [0, 0, 0, 0], [2, 0, 0, 2]]);
    assert!(g.move_tiles(Direction::Right));
    assert_eq!(g.board[0], vec![0, 0, 0, 4]);
    assert_eq!(g.board[3], vec![0, 0, 0, 4]);
    let mut g = with_board([[2, 0, 0, 2], [0, 0, 0, 0], [0, 0, 0, 0], [2, 0, 0, 2]]);
    assert!(g.move_tiles(Direction::Down));
    assert_eq!(g.board[3], vec![4, 0, 0, 4]);
    let mut g = with_board([[2, 0, 0, 2], [0, 0, 0, 0], [0, 0, 0, 0], [2, 0, 0, 2]]);
    assert!(g.move_tiles(Direction::Up));
    assert_eq!(g.board[0], vec![4, 0, 0, 4]);
}

#[test]
fn a_move_that_changes_nothing_reports_so() {
    let mut g = with_board([[2, 4, 0, 0], [0, 0, 0, 0], [0, 0, 0, 0], [0, 0, 0, 0]]);
    let moved = g.move_tiles(Direction::Left);
    assert!(!moved);
    assert_eq!(g.board[0], vec![2, 4, 0, 0]);
    assert_eq!(g.score, 0);
}

#[test]
fn rejected_key_spawns_nothing() {
    let mut g = with_board([[2, 4, 0, 0], [0, 0, 0, 0], [0, 0, 0, 0], [0, 0, 0, 0]]);
    let acted = g.handle_input(Key::Left);
    assert!(!acted);
    let nonzero: usize = g.board.iter().flatten().filter(|&&v| v != 0).count();
    assert_eq!(nonzero, 2);
}

#[test]
fn an_accepted_move_spawns_one_tile() {
    let mut g = with_board([[2, 2, 0, 0], [0, 0, 0, 0], [0, 0, 0, 0], [0, 0, 0, 0]]);
    let acted = g.handle_input(Key::Left);
    assert!(acted);
    assert_eq!(g.board[0][0], 4);
    let nonzero: usize = g.board.iter().flatten().filter(|&&v| v != 0).count();
    assert_eq!(nonzero, 2);
}

#[test]
fn game_over_needs_a_full_board_without_pairs() {
    let mut g = with_board([
        [2, 4, 2, 4],
        [4, 2, 4, 2],
        [2, 4, 2, 4],
        [4, 2, 4, 2],
    ]);
    g.check_game_over();
    assert!(g.game_over);
    let mut g = with_board([
        [2, 4, 2, 4],
        [4, 2, 4, 2],
        [2, 4, 2, 4],
        [4, 2, 4, 4],
    ]);
    g.check_game_over();
    assert!(!g.game_over);
    let mut g = with_board([[2, 4, 2, 4], [4, 2, 4, 2], [2, 4, 2, 4], [4, 2, 4, 0]]);
    g.check_game_over();
    assert!(!g.game_over);
}

#[test]
fn restart_returns_straight_to_tile_play() {
    let mut g = with_board([[2, 2, 0, 0], [0, 0, 0, 0], [0, 0, 0, 0], [0, 0, 0, 0]]);
    g.game_over = true;
    g.score = 99;
    let acted = g.handle_input(Key::Char('r'));
    assert!(acted);
    assert!(matches!(g.game_state, GameState::Playing));
    assert!(!g.game_over);
    assert_eq!(g.score, 0);
}

#[test]
fn render_copies_the_board() {
    let mut g = with_board([[2, 4, 8, 16], [0, 0, 0, 0], [0, 0, 0, 0], [0, 0, 0, 32]]);
    match g.render(30) {
        TfeFrame::Board(copy) => {
            assert_eq!(copy[0], vec![2, 4, 8, 16]);
            assert_eq!(copy[3], vec![0, 0, 0, 32]);
        },
        _ => panic!("expected the board"),
    }
}
