use terminal_games::games::minesweeper::{GameState, MineSweeper, MsCell, MsFrame};
use terminal_games::keys::Key;

fn clear_mask() -> Vec<Vec<bool>> {
    (0..10).map(|_| vec![false; 10]).collect()
}

/// A started game whose only mine sits at `(mx, my)`, with counts computed.
fn with_single_mine(mx: usize, my: usize) -> MineSweeper {
    let mut g = MineSweeper::new();
    g.handle_input(Key::Enter);
    g.mines = clear_mask();
    g.mines[my][mx] = true;
    g.revealed = clear_mask();
    g.flagged = clear_mask();
    g.game_over = false;
    g.is_win = false;
    g.calculate_numbers();
    g
}

#[test]
fn new_game_hides_fifteen_mines() {
    let g = MineSweeper::new();
    assert!(matches!(g.game_state, GameState::Welcome));
    let mines: usize = g
        .mines
        .iter()
        .map(|r| r.iter().filter(|&&m| m).count())
        .sum();
    assert_eq!(mines, 15);
    for y in 0..10 {
        for x in 0..10 {
            assert!(!g.revealed[y][x]);
            assert!(!g.flagged[y][x]);
        }
    }
}

#[test]
fn counts_name_the_neighboring_mines() {
    let g = with_single_mine(5, 5);
    for y in 4..=6 {
        for x in 4..=6 {
            if x == 5 && y == 5 {
                continue;
            }
            assert_eq!(g.board[y][x], 1);
        }
    }
    assert_eq!(g.board[0][0], 0);
    assert_eq!(g.board[3][5], 0);
}

#[test]
fn flood_fill_spreads_but_never_crosses_a_flag() {
    let mut g = with_single_mine(9, 9);
    // flag a safe cell far from the mine
    g.flagged[3][0] = true;
    g.cursor_x = 0;
    g.cursor_y = 0;
    g.handle_input(Key::Char(' '));
    // the flood reached distant zero-count cells
    assert!(g.revealed[0][0]);
    assert!(g.revealed[7][0]);
    assert!(g.revealed[0][7]);
    // but never the flagged cell
    assert!(!g.revealed[3][0]);
    assert!(g.flagged[3][0]);
    // the mine stays hidden and the game goes on
    assert!(!g.game_over);
    assert!(!g.revealed[9][9]);
}

#[test]
fn revealing_a_mine_loses_and_shows_every_mine() {
    let mut g = with_single_mine(4, 4);
    g.cursor_x = 4;
    g.cursor_y = 4;
    g.handle_input(Key::Char(' '));
    assert!(g.game_over);
    assert!(!g.is_win);
    assert!(g.revealed[4][4]);
}

#[test]
fn exact_flags_win_the_game() {
    let mut g = with_single_mine(2, 7);
    g.cursor_x = 2;
    g.cursor_y = 7;
    g.handle_input(Key::Char('f'));
    assert!(g.flagged[7][2]);
    assert!(g.is_win);
    assert!(g.game_over);
    // winning shows the mine
    assert!(g.revealed[7][2]);
}

#[test]
fn a_superset_of_flags_does_not_win() {
    let mut g = with_single_mine(2, 7);
    g.flagged[0][0] = true;
    g.cursor_x = 2;
    g.cursor_y = 7;
    g.handle_input(Key::Char('f'));
    assert!(g.flagged[7][2]);
    assert!(!g.is_win);
    assert!(!g.game_over);
}

#[test]
fn a_subset_of_flags_does_not_win() {
    let mut g = MineSweeper::new();
    g.handle_input(Key::Enter);
    g.mines = clear_mask();
    g.mines[1][1] = true;
    g.mines[8][8] = true;
    g.revealed = clear_mask();
    g.flagged = clear_mask();
    g.game_over = false;
    g.is_win = false;
    g.calculate_numbers();
    g.cursor_x = 1;
    g.cursor_y = 1;
    g.handle_input(Key::Char('f'));
    assert!(!g.is_win);
    assert!(!g.game_over);
}

#[test]
fn revealing_every_safe_cell_wins() {
    let mut g = with_single_mine(0, 0);
    // reveal everything but the mine by hand, leaving one cell for the move
    for y in 0..10 {
        for x in 0..10 {
            if (x, y) != (0, 0) && (x, y) != (9, 9) {
                g.revealed[y][x] = true;
            }
        }
    }
    g.cursor_x = 9;
    g.cursor_y = 9;
    g.handle_input(Key::Char(' '));
    assert!(g.is_win);
    assert!(g.game_over);
    assert!(g.revealed[0][0]);
}

#[test]
fn flags_stay_off_revealed_cells() {
    let mut g = with_single_mine(9, 9);
    g.revealed[0][0] = true;
    g.cursor_x = 0;
    g.cursor_y = 0;
    g.handle_input(Key::Char('f'));
    assert!(!g.flagged[0][0]);
}

#[test]
fn cursor_stays_on_the_board() {
    let mut g = with_single_mine(9, 9);
    for _ in 0..15 {
        g.handle_input(Key::Left);
    }
    assert_eq!(g.cursor_x, 0);
    for _ in 0..15 {
        g.handle_input(Key::Right);
    }
    assert_eq!(g.cursor_x, 9);
    for _ in 0..15 {
        g.handle_input(Key::Up);
    }
    assert_eq!(g.cursor_y, 0);
    for _ in 0..15 {
        g.handle_input(Key::Down);
    }
    assert_eq!(g.cursor_y, 9);
}

#[test]
fn render_classifies_the_cells() {
    let mut g = with_single_mine(5, 5);
    g.flagged[1][1] = true;
    g.revealed[4][4] = true;
    match g.render(30) {
        MsFrame::Board(grid) => {
            assert!(matches!(grid[0][0], MsCell::Hidden));
            assert!(matches!(grid[1][1], MsCell::Flagged));
            assert!(matches!(grid[4][4], MsCell::Count(1)));
        },
        _ => panic!("expected the board"),
    }
}
