use vstd::prelude::*;

use crate::game_manager::CompileLanguage;
use crate::games::compiling::Compiling;
use crate::keys::Key;
use crate::rng::rand_below;
use crate::translation::{Language, Translations};

verus! {

/// The phase the falling-block game is in.
#[derive(Clone, Copy, PartialEq, Eq, Structural, Debug)]
pub enum GameState {
    Welcome,
    Playing,
    Paused,
}

/// Board width and height, in cells, and the number of canonical pieces.
pub const BOARD_W: usize = 10;

pub const BOARD_H: usize = 20;

pub const PIECE_COUNT: u32 = 7;

/// The falling-block puzzle: a 20-row occupancy grid, one active piece (a
/// 4-by-4 shape with a position), and the phase wrapper.
pub struct Tetris {
    pub board: Vec<Vec<bool>>,
    pub current_piece: usize,
    pub piece_x: i32,
    pub piece_y: i32,
    pub game_over: bool,
    pub score: u32,
    pub tick_count: u32,
    pub current_shape: Vec<Vec<bool>>,
    pub block_width: u16,
    pub game_state: GameState,
    pub translations: Translations,
    pub compiling: Compiling,
}

/// The views of a grid's rows.
pub open spec fn spec_grid(b: Seq<Vec<bool>>) -> Seq<Seq<bool>> {
    b.map_values(|r: Vec<bool>| r@)
}

/// The seven canonical shapes, each a 4-by-4 occupancy mask: the bar, the
/// square, the tee, the two bent pieces and the two skew pieces.
pub open spec fn spec_shape(p: int) -> Seq<Seq<bool>> {
    if p == 0 {
        seq![
            seq![false, false, false, false],
            seq![true, true, true, true],
            seq![false, false, false, false],
            seq![false, false, false, false],
        ]
    } else if p == 1 {
        seq![
            seq![false, false, false, false],
            seq![false, true, true, false],
            seq![false, true, true, false],
            seq![false, false, false, false],
        ]
    } else if p == 2 {
        seq![
            seq![false, false, false, false],
            seq![false, true, false, false],
            seq![true, true, true, false],
            seq![false, false, false, false],
        ]
    } else if p == 3 {
        seq![
            seq![false, false, false, false],
            seq![true, false, false, false],
            seq![true, true, true, false],
            seq![false, false, false, false],
        ]
    } else if p == 4 {
        seq![
            seq![false, false, false, false],
            seq![false, false, true, false],
            seq![true, true, true, false],
            seq![false, false, false, false],
        ]
    } else if p == 5 {
        seq![
            seq![false, false, false, false],
            seq![false, true, true, false],
            seq![true, true, false, false],
            seq![false, false, false, false],
        ]
    } else {
        seq![
            seq![false, false, false, false],
            seq![true, true, false, false],
            seq![false, true, true, false],
            seq![false, false, false, false],
        ]
    }
}

/// A well-formed 4-by-4 shape holding at least one occupied cell.
pub open spec fn spec_shape_wf(s: Seq<Seq<bool>>) -> bool {
    &&& s.len() == 4
    &&& forall|r: int| 0 <= r < 4 ==> (#[trigger] s[r]).len() == 4
    &&& exists|r: int, c: int| 0 <= r < 4 && 0 <= c < 4 && #[trigger] s[r][c]
}

/// A well-formed board: 20 rows of 10 cells.
pub open spec fn spec_board_wf(b: Seq<Vec<bool>>) -> bool {
    &&& b.len() == BOARD_H as int
    &&& forall|r: int| 0 <= r < BOARD_H as int ==> (#[trigger] b[r])@.len() == BOARD_W as int
}

/// Whether a shape fits at `(x, y)`: every occupied shape cell stays inside
/// the side walls and above the floor, and meets no frozen cell (cells still
/// above the top edge only need to respect the walls).
pub open spec fn spec_valid_pos(b: Seq<Vec<bool>>, s: Seq<Seq<bool>>, x: int, y: int) -> bool {
    forall|r: int, c: int|
        0 <= r < 4 && 0 <= c < 4 && #[trigger] s[r][c] ==> {
            let bx = x + c;
            let by = y + r;
            &&& 0 <= bx < BOARD_W as int
            &&& by < BOARD_H as int
            &&& (by >= 0 ==> !b[by]@[bx])
        }
}

/// The shape rotated a quarter turn clockwise.
pub open spec fn spec_rotated(s: Seq<Seq<bool>>) -> Seq<Seq<bool>> {
    Seq::new(4, |r: int| Seq::new(4, |c: int| s[3 - c][r]))
}

/// Whether the active piece, placed at `(x, y)`, covers board cell `(i, j)`.
pub open spec fn spec_piece_covers(s: Seq<Seq<bool>>, x: int, y: int, i: int, j: int) -> bool {
    0 <= i - y < 4 && 0 <= j - x < 4 && s[i - y][j - x]
}

/// Whether a row is fully occupied.
pub open spec fn spec_row_full(row: Seq<bool>) -> bool {
    forall|j: int| 0 <= j < row.len() ==> row[j]
}

/// The rows that survive a clear: those not fully occupied, in order.
pub open spec fn spec_kept_rows(b: Seq<Seq<bool>>) -> Seq<Seq<bool>> {
    b.filter(|row: Seq<bool>| !spec_row_full(row))
}

/// The points awarded for clearing `k` rows at once: clearing more rows in
/// one stroke pays more than clearing them one by one.
pub open spec fn spec_line_points(k: int) -> int {
    if k == 1 {
        100
    } else if k == 2 {
        300
    } else if k == 3 {
        500
    } else if k == 4 {
        800
    } else {
        0
    }
}

/// The board after the piece at `(x, y)` freezes into it: every occupied
/// shape cell inside the board becomes occupied.
pub open spec fn spec_frozen(b: Seq<Seq<bool>>, s: Seq<Seq<bool>>, x: int, y: int) -> Seq<
    Seq<bool>,
> {
    Seq::new(
        BOARD_H as nat,
        |i: int| Seq::new(BOARD_W as nat, |j: int| b[i][j] || spec_piece_covers(s, x, y, i, j)),
    )
}

/// The board after every full row is cleared: the surviving rows sink, empty
/// rows enter at the top.
pub open spec fn spec_cleared(b: Seq<Seq<bool>>) -> Seq<Seq<bool>> {
    let kept = spec_kept_rows(b);
    Seq::new(
        (BOARD_H as int - kept.len() as int) as nat,
        |i: int| Seq::new(BOARD_W as nat, |j: int| false),
    ) + kept
}

/// What freezing the piece at row `yl`, clearing full rows and spawning the
/// next piece does, taken together: the board becomes the cleared result of
/// the freeze, the stroke is scored by the rows that fell, and a fresh piece
/// waits at the spawn position — with the game over exactly when that
/// position is already blocked.
pub open spec fn spec_settle_rel(pre: Tetris, post: Tetris, yl: int) -> bool {
    let frozen = spec_frozen(
        spec_grid(pre.board@),
        spec_grid(pre.current_shape@),
        pre.piece_x as int,
        yl,
    );
    &&& spec_grid(post.board@) =~~= spec_cleared(frozen)
    &&& post.score as int == spec_add_points(
        pre.score as int,
        spec_line_points(BOARD_H as int - spec_kept_rows(frozen).len() as int),
    )
    &&& post.piece_x == 3
    &&& post.piece_y == 0
    &&& post.current_piece < 7
    &&& spec_grid(post.current_shape@) == spec_shape(post.current_piece as int)
    &&& post.game_over == !spec_valid_pos(post.board@, spec_grid(post.current_shape@), 3, 0)
    &&& post.game_state == pre.game_state
    &&& post.translations == pre.translations
    &&& post.compiling == pre.compiling
    &&& post.tick_count == pre.tick_count
    &&& post.block_width == pre.block_width
}

/// `a + b` stuck at the maximum rather than overflowing.
pub open spec fn spec_add_points(a: int, b: int) -> int {
    if a + b > u32::MAX {
        u32::MAX as int
    } else {
        a + b
    }
}

impl Tetris {
    /// The structural invariant: a 20-by-10 board, a nonempty 4-by-4 shape,
    /// a known piece index, and the piece inside the band the moves keep it
    /// in.
    pub open spec fn wf(self) -> bool {
        &&& spec_board_wf(self.board@)
        &&& spec_shape_wf(spec_grid(self.current_shape@))
        &&& self.current_piece < 7
        &&& -4 <= self.piece_x <= 10
        &&& 0 <= self.piece_y <= BOARD_H as int
    }

    /// The canonical shape of piece `p`, as a fresh grid.
    fn shape_for(p: usize) -> (s: Vec<Vec<bool>>)
        requires
            p < 7,
        ensures
            spec_grid(s@) =~~= spec_shape(p as int),
            spec_shape_wf(spec_grid(s@)),
    {
        let rows: [[bool; 4]; 4] = match p {
            0 => [
                [false, false, false, false],
                [true, true, true, true],
                [false, false, false, false],
                [false, false, false, false],
            ],
            1 => [
                [false, false, false, false],
                [false, true, true, false],
                [false, true, true, false],
                [false, false, false, false],
            ],
            2 => [
                [false, false, false, false],
                [false, true, false, false],
                [true, true, true, false],
                [false, false, false, false],
            ],
            3 => [
                [false, false, false, false],
                [true, false, false, false],
                [true, true, true, false],
                [false, false, false, false],
            ],
            4 => [
                [false, false, false, false],
                [false, false, true, false],
                [true, true, true, false],
                [false, false, false, false],
            ],
            5 => [
                [false, false, false, false],
                [false, true, true, false],
                [true, true, false, false],
                [false, false, false, false],
            ],
            _ => [
                [false, false, false, false],
                [true, true, false, false],
                [false, true, true, false],
                [false, false, false, false],
            ],
        };
        let mut s: Vec<Vec<bool>> = Vec::new();
        let mut r: usize = 0;
        while r < 4
            invariant
                0 <= r <= 4,
                s@.len() == r as int,
                forall|a: int| 0 <= a < r as int ==> (#[trigger] s@[a])@.len() == 4,
                forall|a: int, b: int| 0 <= a < r as int && 0 <= b < 4 ==> (#[trigger] s@[a]@[b])
                    == rows@[a][b],
            decreases 4 - r,
        {
            let mut row: Vec<bool> = Vec::new();
            let mut c: usize = 0;
            while c < 4
                invariant
                    0 <= c <= 4,
                    0 <= r < 4,
                    row@.len() == c as int,
                    forall|b: int| 0 <= b < c as int ==> (#[trigger] row@[b]) == rows@[r as int][b],
                decreases 4 - c,
            {
                row.push(rows[r][c]);
                c = c + 1;
            }
            s.push(row);
            r = r + 1;
        }
        proof {
            assert(spec_grid(s@) =~~= spec_shape(p as int));
            assert(spec_shape(p as int)[1][0] || spec_shape(p as int)[1][1] || spec_shape(
                p as int,
            )[1][2]);
        }
        s
    }

    /// A fresh game: an empty board, a random piece at the spawn position,
    /// no score, the welcome screen showing.
    pub fn new() -> (g: Tetris)
        ensures
            g.wf(),
            g.game_state == GameState::Welcome,
            g.game_over == false,
            g.score == 0,
            g.tick_count == 0,
            g.piece_x == 3,
            g.piece_y == 0,
            g.block_width == 2,
            g.current_piece < 7,
            spec_grid(g.current_shape@) == spec_shape(g.current_piece as int),
            forall|i: int, j: int|
                0 <= i < BOARD_H as int && 0 <= j < BOARD_W as int ==> !(#[trigger] g.board@[i]@[j]),
    {
        let piece = rand_below(PIECE_COUNT) as usize;
        let mut board: Vec<Vec<bool>> = Vec::new();
        let mut i: usize = 0;
        while i < BOARD_H
            invariant
                0 <= i <= BOARD_H as int,
                board@.len() == i as int,
                forall|a: int| 0 <= a < i as int ==> (#[trigger] board@[a])@.len()
                    == BOARD_W as int,
                forall|a: int, b: int| 0 <= a < i as int && 0 <= b < BOARD_W as int ==> !(
                #[trigger] board@[a]@[b]),
            decreases BOARD_H as int - i,
        {
            let mut row: Vec<bool> = Vec::new();
            let mut j: usize = 0;
            while j < BOARD_W
                invariant
                    0 <= j <= BOARD_W as int,
                    row@.len() == j as int,
                    forall|b: int| 0 <= b < j as int ==> !(#[trigger] row@[b]),
                decreases BOARD_W as int - j,
            {
                row.push(false);
                j = j + 1;
            }
            board.push(row);
            i = i + 1;
        }
        Tetris {
            board,
            current_piece: piece,
            piece_x: 3,
            piece_y: 0,
            game_over: false,
            score: 0,
            tick_count: 0,
            current_shape: Self::shape_for(piece),
            block_width: 2,
            game_state: GameState::Welcome,
            translations: Translations::new(),
            compiling: Compiling::new(),
        }
    }

    /// Selects the language the game's texts use.
    pub fn set_language(&mut self, language: Language)
        ensures
            *final(self) == (Tetris { translations: final(self).translations, ..*old(self) }),
            final(self).translations == (Translations {
                current_language: language,
                ..old(self).translations
            }),
    {
        self.translations.set_language(language);
    }

    /// Selects the build log the pause overlay scrolls through.
    pub fn set_compile_language(&mut self, lang: CompileLanguage)
        ensures
            *final(self) == (Tetris { compiling: final(self).compiling, ..*old(self) }),
            final(self).compiling.current_language == lang,
    {
        self.compiling.set_language(lang);
    }

    /// Whether the current shape fits at `(x, y)`.
    pub fn is_valid_position(&self, x: i32, y: i32) -> (r: bool)
        requires
            self.wf(),
            x <= i32::MAX - 3,
            y <= i32::MAX - 3,
        ensures
            r == spec_valid_pos(self.board@, spec_grid(self.current_shape@), x as int, y as int),
    {
        let mut py: usize = 0;
        while py < 4
            invariant
                0 <= py <= 4,
                self.wf(),
                x <= i32::MAX - 3,
                y <= i32::MAX - 3,
                forall|r: int, c: int|
                    0 <= r < py as int && 0 <= c < 4 && #[trigger] spec_grid(
                        self.current_shape@,
                    )[r][c] ==> {
                        let bx = x + c;
                        let by = y + r;
                        &&& 0 <= bx < BOARD_W as int
                        &&& by < BOARD_H as int
                        &&& (by >= 0 ==> !self.board@[by]@[bx])
                    },
            decreases 4 - py,
        {
            let mut px: usize = 0;
            while px < 4
                invariant
                    0 <= px <= 4,
                    0 <= py < 4,
                    self.wf(),
                    x <= i32::MAX - 3,
                    y <= i32::MAX - 3,
                    forall|r: int, c: int|
                        0 <= r < py as int && 0 <= c < 4 && #[trigger] spec_grid(
                            self.current_shape@,
                        )[r][c] ==> {
                            let bx = x + c;
                            let by = y + r;
                            &&& 0 <= bx < BOARD_W as int
                            &&& by < BOARD_H as int
                            &&& (by >= 0 ==> !self.board@[by]@[bx])
                        },
                    forall|c: int|
                        0 <= c < px as int && #[trigger] spec_grid(
                            self.current_shape@,
                        )[py as int][c] ==> {
                            let bx = x + c;
                            let by = y + py as int;
                            &&& 0 <= bx < BOARD_W as int
                            &&& by < BOARD_H as int
                            &&& (by >= 0 ==> !self.board@[by]@[bx])
                        },
                decreases 4 - px,
            {
                proof {
                    assert(spec_grid(self.current_shape@)[py as int] == self.current_shape@[
                        py as int]@);
                }
                if self.current_shape[py][px] {
                    let bx = x + px as i32;
                    let by = y + py as i32;
                    if bx < 0 || bx >= BOARD_W as i32 || by >= BOARD_H as i32 {
                        proof {
                            assert(spec_grid(self.current_shape@)[py as int][px as int]);
                        }
                        return false;
                    }
                    if by >= 0 && self.board[by as usize][bx as usize] {
                        proof {
                            assert(spec_grid(self.current_shape@)[py as int][px as int]);
                        }
                        return false;
                    }
                }
                px = px + 1;
            }
            py = py + 1;
        }
        true
    }

    /// Whether the given shape fits at `(x, y)`.
    pub fn is_valid_position_with_shape(&self, x: i32, y: i32, shape: &Vec<Vec<bool>>) -> (r: bool)
        requires
            spec_board_wf(self.board@),
            spec_grid(shape@).len() == 4,
            forall|r: int| 0 <= r < 4 ==> (#[trigger] spec_grid(shape@)[r]).len() == 4,
            x <= i32::MAX - 3,
            y <= i32::MAX - 3,
        ensures
            r == spec_valid_pos(self.board@, spec_grid(shape@), x as int, y as int),
    {
        let mut py: usize = 0;
        while py < 4
            invariant
                0 <= py <= 4,
                spec_board_wf(self.board@),
                spec_grid(shape@).len() == 4,
                forall|r: int| 0 <= r < 4 ==> (#[trigger] spec_grid(shape@)[r]).len() == 4,
                x <= i32::MAX - 3,
                y <= i32::MAX - 3,
                forall|r: int, c: int|
                    0 <= r < py as int && 0 <= c < 4 && #[trigger] spec_grid(shape@)[r][c] ==> {
                        let bx = x + c;
                        let by = y + r;
                        &&& 0 <= bx < BOARD_W as int
                        &&& by < BOARD_H as int
                        &&& (by >= 0 ==> !self.board@[by]@[bx])
                    },
            decreases 4 - py,
        {
            let mut px: usize = 0;
            while px < 4
                invariant
                    0 <= px <= 4,
                    0 <= py < 4,
                    spec_board_wf(self.board@),
                    spec_grid(shape@).len() == 4,
                    forall|r: int| 0 <= r < 4 ==> (#[trigger] spec_grid(shape@)[r]).len() == 4,
                    x <= i32::MAX - 3,
                    y <= i32::MAX - 3,
                    forall|r: int, c: int|
                        0 <= r < py as int && 0 <= c < 4 && #[trigger] spec_grid(shape@)[r][c]
                            ==> {
                            let bx = x + c;
                            let by = y + r;
                            &&& 0 <= bx < BOARD_W as int
                            &&& by < BOARD_H as int
                            &&& (by >= 0 ==> !self.board@[by]@[bx])
                        },
                    forall|c: int|
                        0 <= c < px as int && #[trigger] spec_grid(shape@)[py as int][c] ==> {
                            let bx = x + c;
                            let by = y + py as int;
                            &&& 0 <= bx < BOARD_W as int
                            &&& by < BOARD_H as int
                            &&& (by >= 0 ==> !self.board@[by]@[bx])
                        },
                decreases 4 - px,
            {
                proof {
                    assert(spec_grid(shape@)[py as int] == shape@[py as int]@);
                }
                if shape[py][px] {
                    let bx = x + px as i32;
                    let by = y + py as i32;
                    if bx < 0 || bx >= BOARD_W as i32 || by >= BOARD_H as i32 {
                        proof {
                            assert(spec_grid(shape@)[py as int][px as int]);
                        }
                        return false;
                    }
                    if by >= 0 && self.board[by as usize][bx as usize] {
                        proof {
                            assert(spec_grid(shape@)[py as int][px as int]);
                        }
                        return false;
                    }
                }
                px = px + 1;
            }
            py = py + 1;
        }
        true
    }

    /// Moves the piece by one of the game's steps (a sidestep or one row
    /// down) when the target position is free; an invalid move is rejected
    /// silently. The result says whether the piece moved. The step bounds in
    /// the precondition are the only steps the game ever issues; together
    /// with `dy >= 0` (a piece never rises) they are what keeps the piece
    /// inside the band `wf` tracks.
    pub fn move_piece(&mut self, dx: i32, dy: i32) -> (moved: bool)
        requires
            old(self).wf(),
            -1 <= dx <= 1,
            0 <= dy <= 1,
        ensures
            final(self).wf(),
            moved == spec_valid_pos(
                old(self).board@,
                spec_grid(old(self).current_shape@),
                old(self).piece_x + dx,
                old(self).piece_y + dy,
            ),
            moved ==> *final(self) == (Tetris {
                piece_x: (old(self).piece_x + dx) as i32,
                piece_y: (old(self).piece_y + dy) as i32,
                ..*old(self)
            }),
            !moved ==> *final(self) == *old(self),
    {
        let new_x = self.piece_x + dx;
        let new_y = self.piece_y + dy;
        if self.is_valid_position(new_x, new_y) {
            proof {
                let s = spec_grid(self.current_shape@);
                let (r, c) = choose|r: int, c: int| 0 <= r < 4 && 0 <= c < 4 && #[trigger] s[r][c];
                assert(0 <= new_x + c < BOARD_W as int);
                assert(new_y + r < BOARD_H as int);
            }
            self.piece_x = new_x;
            self.piece_y = new_y;
            true
        } else {
            false
        }
    }

    /// Rotates the piece a quarter turn clockwise when the rotated shape
    /// fits; otherwise the shape is left as it is.
    pub fn rotate_piece(&mut self)
        requires
            old(self).wf(),
        ensures
            final(self).wf(),
            ({
                let rot = spec_rotated(spec_grid(old(self).current_shape@));
                if spec_valid_pos(old(self).board@, rot, old(self).piece_x as int, old(self).piece_y as int) {
                    &&& *final(self) == (Tetris {
                        current_shape: final(self).current_shape,
                        ..*old(self)
                    })
                    &&& spec_grid(final(self).current_shape@) =~~= rot
                } else {
                    *final(self) == *old(self)
                }
            }),
    {
        let mut rotated: Vec<Vec<bool>> = Vec::new();
        let mut r: usize = 0;
        while r < 4
            invariant
                0 <= r <= 4,
                self.wf(),
                rotated@.len() == r as int,
                forall|a: int| 0 <= a < r as int ==> (#[trigger] rotated@[a])@.len() == 4,
                forall|a: int, b: int| 0 <= a < r as int && 0 <= b < 4 ==> (
                #[trigger] rotated@[a]@[b]) == spec_grid(self.current_shape@)[3 - b][a],
            decreases 4 - r,
        {
            let mut row: Vec<bool> = Vec::new();
            let mut c: usize = 0;
            while c < 4
                invariant
                    0 <= c <= 4,
                    0 <= r < 4,
                    self.wf(),
                    row@.len() == c as int,
                    forall|b: int| 0 <= b < c as int ==> (#[trigger] row@[b]) == spec_grid(
                        self.current_shape@,
                    )[3 - b][r as int],
                decreases 4 - c,
            {
                proof {
                    assert(spec_grid(self.current_shape@)[3 - c as int] == self.current_shape@[3
                        - c as int]@);
                }
                row.push(self.current_shape[3 - c][r]);
                c = c + 1;
            }
            rotated.push(row);
            r = r + 1;
        }
        proof {
            assert(spec_grid(rotated@) =~~= spec_rotated(spec_grid(self.current_shape@)));
        }
        if self.is_valid_position_with_shape(self.piece_x, self.piece_y, &rotated) {
            proof {
                let s0 = spec_grid(self.current_shape@);
                let (rr, cc) = choose|rr: int, cc: int|
                    0 <= rr < 4 && 0 <= cc < 4 && #[trigger] s0[rr][cc];
                assert(spec_grid(rotated@)[cc][3 - rr] == s0[rr][cc]);
            }
            self.current_shape = rotated;
        }
    }

    /// Freezes the piece into the board: every occupied shape cell inside
    /// the board becomes a frozen cell.
    pub fn freeze_piece(&mut self)
        requires
            old(self).wf(),
        ensures
            final(self).wf(),
            *final(self) == (Tetris { board: final(self).board, ..*old(self) }),
            forall|i: int, j: int|
                0 <= i < BOARD_H as int && 0 <= j < BOARD_W as int ==> (
                #[trigger] final(self).board@[i]@[j]) == (old(self).board@[i]@[j]
                    || spec_piece_covers(
                    spec_grid(old(self).current_shape@),
                    old(self).piece_x as int,
                    old(self).piece_y as int,
                    i,
                    j,
                )),
    {
        let ghost pre = *old(self);
        let mut py: usize = 0;
        while py < 4
            invariant
                0 <= py <= 4,
                self.wf(),
                *self == (Tetris { board: self.board, ..pre }),
                pre.wf(),
                forall|i: int, j: int|
                    0 <= i < BOARD_H as int && 0 <= j < BOARD_W as int ==> (
                    #[trigger] self.board@[i]@[j]) == (pre.board@[i]@[j] || (0 <= i
                        - pre.piece_y < py as int && 0 <= j - pre.piece_x < 4 && spec_grid(
                        pre.current_shape@,
                    )[i - pre.piece_y][j - pre.piece_x])),
            decreases 4 - py,
        {
            let mut px: usize = 0;
            while px < 4
                invariant
                    0 <= px <= 4,
                    0 <= py < 4,
                    self.wf(),
                    *self == (Tetris { board: self.board, ..pre }),
                    pre.wf(),
                    forall|i: int, j: int|
                        0 <= i < BOARD_H as int && 0 <= j < BOARD_W as int ==> (
                        #[trigger] self.board@[i]@[j]) == (pre.board@[i]@[j] || (0 <= i
                            - pre.piece_y < py as int && 0 <= j - pre.piece_x < 4 && spec_grid(
                            pre.current_shape@,
                        )[i - pre.piece_y][j - pre.piece_x]) || (i - pre.piece_y == py as int && 0
                            <= j - pre.piece_x < px as int && spec_grid(
                            pre.current_shape@,
                        )[py as int][j - pre.piece_x])),
                decreases 4 - px,
            {
                proof {
                    assert(spec_grid(self.current_shape@)[py as int] == self.current_shape@[
                        py as int]@);
                }
                if self.current_shape[py][px] {
                    let bx = self.piece_x + px as i32;
                    let by = self.piece_y + py as i32;
                    if bx >= 0 && bx < BOARD_W as i32 && by >= 0 && by < BOARD_H as i32 {
                        self.board[by as usize][bx as usize] = true;
                    }
                }
                px = px + 1;
            }
            py = py + 1;
        }
    }

    /// Clears every fully occupied row: the surviving rows sink to the
    /// bottom, empty rows enter at the top, and the stroke is scored by how
    /// many rows fell at once.
    pub fn clear_lines(&mut self)
        requires
            old(self).wf(),
        ensures
            final(self).wf(),
            *final(self) == (Tetris {
                board: final(self).board,
                score: final(self).score,
                ..*old(self)
            }),
            spec_grid(final(self).board@) =~~= spec_cleared(spec_grid(old(self).board@)),
            final(self).score as int == spec_add_points(
                old(self).score as int,
                spec_line_points(
                    BOARD_H as int - spec_kept_rows(spec_grid(old(self).board@)).len() as int,
                ),
            ),
    {
        let ghost pre_rows = spec_grid(self.board@);
        let mut kept: Vec<Vec<bool>> = Vec::new();
        let mut i: usize = 0;
        while i < BOARD_H
            invariant
                0 <= i <= BOARD_H as int,
                self.wf(),
                pre_rows == spec_grid(self.board@),
                spec_grid(kept@) =~~= spec_kept_rows(pre_rows.take(i as int)),
                forall|a: int| 0 <= a < kept@.len() ==> (#[trigger] kept@[a])@.len()
                    == BOARD_W as int,
            decreases BOARD_H as int - i,
        {
            let full = self.row_full(i);
            proof {
                reveal(Seq::filter);
                assert(pre_rows.take(i as int + 1).drop_last() =~= pre_rows.take(i as int));
                assert(pre_rows.take(i as int + 1).last() == pre_rows[i as int]);
            }
            if !full {
                let mut row: Vec<bool> = Vec::new();
                let mut j: usize = 0;
                while j < BOARD_W
                    invariant
                        0 <= j <= BOARD_W as int,
                        0 <= i < BOARD_H as int,
                        self.wf(),
                        row@.len() == j as int,
                        forall|b: int| 0 <= b < j as int ==> (#[trigger] row@[b])
                            == self.board@[i as int]@[b],
                    decreases BOARD_W as int - j,
                {
                    row.push(self.board[i][j]);
                    j = j + 1;
                }
                proof {
                    assert(row@ =~= pre_rows[i as int]);
                    assert(spec_grid(kept@.push(row)) =~~= spec_grid(kept@).push(row@));
                }
                kept.push(row);
            }
            i = i + 1;
        }
        proof {
            assert(pre_rows.take(pre_rows.len() as int) =~= pre_rows);
            pre_rows.lemma_filter_len(|row: Seq<bool>| !spec_row_full(row));
        }
        let kept_len = kept.len();
        let cleared = BOARD_H - kept_len;
        let mut fresh: Vec<Vec<bool>> = Vec::new();
        let mut t: usize = 0;
        while t < cleared
            invariant
                0 <= t <= cleared,
                cleared == BOARD_H as int - spec_kept_rows(pre_rows).len(),
                fresh@.len() == t as int,
                forall|a: int| 0 <= a < t as int ==> (#[trigger] fresh@[a])@ =~= Seq::new(
                    BOARD_W as nat,
                    |j: int| false,
                ),
            decreases cleared - t,
        {
            let mut row: Vec<bool> = Vec::new();
            let mut j: usize = 0;
            while j < BOARD_W
                invariant
                    0 <= j <= BOARD_W as int,
                    row@.len() == j as int,
                    forall|b: int| 0 <= b < j as int ==> !(#[trigger] row@[b]),
                decreases BOARD_W as int - j,
            {
                row.push(false);
                j = j + 1;
            }
            proof {
                assert(row@ =~= Seq::new(BOARD_W as nat, |jj: int| false));
            }
            fresh.push(row);
            t = t + 1;
        }
        let mut idx: usize = 0;
        let ghost fresh_pre = fresh@;
        while idx < kept_len
            invariant
                0 <= idx <= kept_len,
                kept_len == kept@.len(),
                forall|a: int| 0 <= a < kept@.len() ==> (#[trigger] kept@[a])@.len()
                    == BOARD_W as int,
                spec_grid(kept@) =~~= spec_kept_rows(pre_rows),
                fresh_pre.len() == BOARD_H as int - kept@.len(),
                forall|a: int| 0 <= a < fresh_pre.len() ==> (#[trigger] fresh_pre[a])@ =~= Seq::new(
                    BOARD_W as nat,
                    |j: int| false,
                ),
                fresh@.len() == fresh_pre.len() + idx as int,
                forall|a: int| 0 <= a < fresh_pre.len() ==> (#[trigger] fresh@[a]) == fresh_pre[a],
                forall|a: int| 0 <= a < idx as int ==> (#[trigger] fresh@[fresh_pre.len() + a])@
                    =~= kept@[a]@,
            decreases kept_len - idx,
        {
            let mut row: Vec<bool> = Vec::new();
            let mut j: usize = 0;
            while j < BOARD_W
                invariant
                    0 <= j <= BOARD_W as int,
                    idx < kept@.len(),
                    forall|a: int| 0 <= a < kept@.len() ==> (#[trigger] kept@[a])@.len()
                        == BOARD_W as int,
                    row@.len() == j as int,
                    forall|b: int| 0 <= b < j as int ==> (#[trigger] row@[b]) == kept@[
                        idx as int]@[b],
                decreases BOARD_W as int - j,
            {
                row.push(kept[idx][j]);
                j = j + 1;
            }
            proof {
                assert(row@ =~= kept@[idx as int]@);
            }
            let ghost before = fresh@;
            fresh.push(row);
            proof {
                assert(fresh@[before.len() as int] == row);
                assert(kept@[idx as int]@ =~= fresh@[fresh_pre.len() + idx as int]@);
            }
            idx = idx + 1;
        }
        let points: u32 = if cleared == 1 {
            100
        } else if cleared == 2 {
            300
        } else if cleared == 3 {
            500
        } else if cleared == 4 {
            800
        } else {
            0
        };
        self.score = if self.score > u32::MAX - points {
            u32::MAX
        } else {
            self.score + points
        };
        proof {
            let zeros_rows = Seq::new(
                (BOARD_H as int - spec_kept_rows(pre_rows).len()) as nat,
                |i: int| Seq::new(BOARD_W as nat, |j: int| false),
            );
            let expect = zeros_rows + spec_kept_rows(pre_rows);
            assert(spec_grid(fresh@).len() == expect.len());
            assert forall|i: int| 0 <= i < expect.len() implies spec_grid(fresh@)[i] =~= expect[i]
            by {
                if i < zeros_rows.len() {
                    assert(fresh@[i] == fresh_pre[i]);
                    assert(fresh_pre[i]@ =~= Seq::new(BOARD_W as nat, |j: int| false));
                } else {
                    let a = i - zeros_rows.len();
                    assert(fresh_pre.len() == zeros_rows.len());
                    assert(fresh@[fresh_pre.len() + a]@ =~= kept@[a]@);
                    assert(fresh@[i]@ =~= kept@[a]@);
                    assert(spec_grid(kept@)[a] == kept@[a]@);
                    assert(spec_kept_rows(pre_rows)[a] == spec_grid(kept@)[a]);
                }
            }
            assert(spec_grid(fresh@) =~~= expect);
            assert forall|r: int| 0 <= r < fresh@.len() implies (#[trigger] fresh@[r])@.len()
                == BOARD_W as int by {
                if r < fresh_pre.len() {
                    assert(fresh@[r] == fresh_pre[r]);
                    assert(fresh_pre[r]@ =~= Seq::new(BOARD_W as nat, |j: int| false));
                } else {
                    let a = r - fresh_pre.len();
                    assert(fresh@[fresh_pre.len() + a]@ =~= kept@[a]@);
                }
            }
        }
        self.board = fresh;
    }

    /// Whether row `i` is fully occupied.
    fn row_full(&self, i: usize) -> (r: bool)
        requires
            self.wf(),
            i < BOARD_H,
        ensures
            r == spec_row_full(self.board@[i as int]@),
    {
        let mut j: usize = 0;
        while j < BOARD_W
            invariant
                0 <= j <= BOARD_W as int,
                self.wf(),
                i < BOARD_H,
                forall|b: int| 0 <= b < j as int ==> (#[trigger] self.board@[i as int]@[b]),
            decreases BOARD_W as int - j,
        {
            if !self.board[i][j] {
                return false;
            }
            j = j + 1;
        }
        true
    }

    /// Drops a fresh random piece at the spawn position; a spawn position
    /// already blocked ends the game.
    pub fn spawn_new_piece(&mut self)
        requires
            old(self).wf(),
            old(self).game_over == false,
        ensures
            final(self).wf(),
            *final(self) == (Tetris {
                current_piece: final(self).current_piece,
                current_shape: final(self).current_shape,
                piece_x: 3,
                piece_y: 0,
                game_over: final(self).game_over,
                ..*old(self)
            }),
            final(self).current_piece < 7,
            spec_grid(final(self).current_shape@) == spec_shape(final(self).current_piece as int),
            final(self).game_over == !spec_valid_pos(
                old(self).board@,
                spec_grid(final(self).current_shape@),
                3,
                0,
            ),
    {
        let piece = rand_below(PIECE_COUNT) as usize;
        self.current_piece = piece;
        self.piece_x = 3;
        self.piece_y = 0;
        self.current_shape = Self::shape_for(piece);
        proof {
            assert(spec_grid(self.current_shape@) == spec_shape(piece as int));
        }
        if !self.is_valid_position(self.piece_x, self.piece_y) {
            self.game_over = true;
        }
    }

    /// Freezes the piece where it stands, clears full rows and spawns the
    /// next piece, as `spec_settle_rel` states it.
    fn settle_piece(&mut self)
        requires
            old(self).wf(),
            old(self).game_over == false,
        ensures
            final(self).wf(),
            spec_settle_rel(*old(self), *final(self), old(self).piece_y as int),
    {
        let ghost pre = *old(self);
        self.freeze_piece();
        proof {
            let frozen = spec_frozen(
                spec_grid(pre.board@),
                spec_grid(pre.current_shape@),
                pre.piece_x as int,
                pre.piece_y as int,
            );
            assert forall|i: int| 0 <= i < BOARD_H as int implies (#[trigger] spec_grid(
                self.board@,
            )[i]) =~= frozen[i] by {
                assert forall|j: int| 0 <= j < BOARD_W as int implies (#[trigger] spec_grid(
                    self.board@,
                )[i][j]) == frozen[i][j] by {
                    assert(spec_grid(self.board@)[i][j] == self.board@[i]@[j]);
                    assert(self.board@[i]@[j] == (pre.board@[i]@[j] || spec_piece_covers(
                        spec_grid(pre.current_shape@),
                        pre.piece_x as int,
                        pre.piece_y as int,
                        i,
                        j,
                    )));
                }
            }
            assert(spec_grid(self.board@) =~~= frozen);
        }
        self.clear_lines();
        self.spawn_new_piece();
    }

    /// Drops the piece straight to the bottom — exactly as far as repeated
    /// single-row falls reach — freezes it there, clears full rows and
    /// spawns the next piece.
    pub fn hard_drop(&mut self)
        requires
            old(self).wf(),
            old(self).game_over == false,
        ensures
            final(self).wf(),
            exists|yl: int|
                #![trigger spec_valid_pos(
                    old(self).board@,
                    spec_grid(old(self).current_shape@),
                    old(self).piece_x as int,
                    yl + 1,
                )]
                {
                    &&& old(self).piece_y <= yl <= BOARD_H as int
                    &&& forall|k: int|
                        old(self).piece_y < k <= yl ==> spec_valid_pos(
                            old(self).board@,
                            spec_grid(old(self).current_shape@),
                            old(self).piece_x as int,
                            k,
                        )
                    &&& !spec_valid_pos(
                        old(self).board@,
                        spec_grid(old(self).current_shape@),
                        old(self).piece_x as int,
                        yl + 1,
                    )
                    &&& spec_settle_rel(
                        (Tetris { piece_y: yl as i32, ..*old(self) }),
                        *final(self),
                        yl,
                    )
                },
    {
        let mut descending = true;
        while descending
            invariant
                self.wf(),
                *self == (Tetris { piece_y: self.piece_y, ..*old(self) }),
                old(self).piece_y <= self.piece_y <= BOARD_H as int,
                forall|k: int|
                    old(self).piece_y < k <= self.piece_y ==> spec_valid_pos(
                        old(self).board@,
                        spec_grid(old(self).current_shape@),
                        old(self).piece_x as int,
                        k,
                    ),
                !descending ==> !spec_valid_pos(
                    old(self).board@,
                    spec_grid(old(self).current_shape@),
                    old(self).piece_x as int,
                    self.piece_y + 1,
                ),
            decreases (if descending {
                1int
            } else {
                0int
            }) + BOARD_H as int - self.piece_y,
        {
            descending = self.move_piece(0, 1);
        }
        let ghost landed = *self;
        self.settle_piece();
        proof {
            assert(landed == (Tetris { piece_y: landed.piece_y, ..*old(self) }));
            assert(spec_settle_rel(
                (Tetris { piece_y: landed.piece_y as int as i32, ..*old(self) }),
                *self,
                landed.piece_y as int,
            ));
        }
    }

    /// One tick. Outside play (or after a game over) nothing moves — paused,
    /// the overlay ticks instead. In play, every twentieth tick the piece
    /// falls one row, freezing, clearing and respawning when it cannot.
    pub fn update(&mut self)
        requires
            old(self).wf(),
        ensures
            final(self).wf(),
            old(self).game_over || old(self).game_state != GameState::Playing ==> {
                &&& *final(self) == (Tetris { compiling: final(self).compiling, ..*old(self) })
                &&& if old(self).game_state == GameState::Paused {
                    crate::games::compiling::spec_ticked(old(self).compiling, final(self).compiling)
                } else {
                    final(self).compiling == old(self).compiling
                }
            },
            !old(self).game_over && old(self).game_state == GameState::Playing ==> {
                let tick = (if old(self).tick_count == u32::MAX {
                    0u32
                } else {
                    (old(self).tick_count + 1) as u32
                });
                &&& final(self).tick_count == tick
                &&& final(self).game_state == old(self).game_state
                &&& tick % 20 != 0 ==> *final(self) == (Tetris { tick_count: tick, ..*old(self) })
                &&& (tick % 20 == 0 && spec_valid_pos(
                    old(self).board@,
                    spec_grid(old(self).current_shape@),
                    old(self).piece_x as int,
                    old(self).piece_y + 1,
                )) ==> *final(self) == (Tetris {
                    tick_count: tick,
                    piece_y: (old(self).piece_y + 1) as i32,
                    ..*old(self)
                })
                &&& (tick % 20 == 0 && !spec_valid_pos(
                    old(self).board@,
                    spec_grid(old(self).current_shape@),
                    old(self).piece_x as int,
                    old(self).piece_y + 1,
                )) ==> spec_settle_rel(
                    (Tetris { tick_count: tick, ..*old(self) }),
                    *final(self),
                    old(self).piece_y as int,
                )
            },
    {
        if self.game_over || self.game_state != GameState::Playing {
            if self.game_state == GameState::Paused {
                self.compiling.update();
            }
            return;
        }

        self.tick_count = if self.tick_count == u32::MAX {
            0
        } else {
            self.tick_count + 1
        };
        if self.tick_count % 20 == 0 {
            if !self.move_piece(0, 1) {
                self.settle_piece();
            }
        }
    }

    /// Routes one key event. After a game over only R acts: it reinitializes
    /// the game in place and returns straight to play. While playing, the
    /// arrows and WASD sidestep, speed up or rotate the piece, Space drops
    /// it, and P or Esc pauses; the same keys resume. The result says
    /// whether the key did anything.
    pub fn handle_input(&mut self, key: Key) -> (r: bool)
        requires
            old(self).wf(),
        ensures
            final(self).wf(),
            old(self).game_over ==> {
                if key == Key::Char('r') {
                    &&& r == true
                    &&& final(self).game_state == GameState::Playing
                    &&& final(self).game_over == false
                    &&& final(self).score == 0
                    &&& final(self).tick_count == 0
                    &&& final(self).piece_x == 3
                    &&& final(self).piece_y == 0
                    &&& final(self).block_width == 2
                    &&& final(self).current_piece < 7
                    &&& spec_grid(final(self).current_shape@) == spec_shape(
                        final(self).current_piece as int,
                    )
                    &&& forall|i: int, j: int|
                        0 <= i < BOARD_H as int && 0 <= j < BOARD_W as int
                            ==> !(#[trigger] final(self).board@[i]@[j])
                } else {
                    r == false && *final(self) == *old(self)
                }
            },
            !old(self).game_over ==> match old(self).game_state {
                GameState::Welcome => {
                    if key == Key::Enter {
                        r == true && *final(self) == (Tetris {
                            game_state: GameState::Playing,
                            ..*old(self)
                        })
                    } else {
                        r == false && *final(self) == *old(self)
                    }
                },
                GameState::Playing => {
                    if key == Key::Char('p') || key == Key::Esc {
                        r == true && *final(self) == (Tetris {
                            game_state: GameState::Paused,
                            ..*old(self)
                        })
                    } else if key == Key::Left || key == Key::Char('a') {
                        &&& r == spec_valid_pos(
                            old(self).board@,
                            spec_grid(old(self).current_shape@),
                            old(self).piece_x - 1,
                            old(self).piece_y as int,
                        )
                        &&& if r {
                            *final(self) == (Tetris {
                                piece_x: (old(self).piece_x - 1) as i32,
                                ..*old(self)
                            })
                        } else {
                            *final(self) == *old(self)
                        }
                    } else if key == Key::Right || key == Key::Char('d') {
                        &&& r == spec_valid_pos(
                            old(self).board@,
                            spec_grid(old(self).current_shape@),
                            old(self).piece_x + 1,
                            old(self).piece_y as int,
                        )
                        &&& if r {
                            *final(self) == (Tetris {
                                piece_x: (old(self).piece_x + 1) as i32,
                                ..*old(self)
                            })
                        } else {
                            *final(self) == *old(self)
                        }
                    } else if key == Key::Down || key == Key::Char('s') {
                        &&& r == spec_valid_pos(
                            old(self).board@,
                            spec_grid(old(self).current_shape@),
                            old(self).piece_x as int,
                            old(self).piece_y + 1,
                        )
                        &&& if r {
                            *final(self) == (Tetris {
                                piece_y: (old(self).piece_y + 1) as i32,
                                ..*old(self)
                            })
                        } else {
                            *final(self) == *old(self)
                        }
                    } else if key == Key::Up || key == Key::Char('w') {
                        &&& r == true
                        &&& ({
                            let rot = spec_rotated(spec_grid(old(self).current_shape@));
                            if spec_valid_pos(
                                old(self).board@,
                                rot,
                                old(self).piece_x as int,
                                old(self).piece_y as int,
                            ) {
                                &&& *final(self) == (Tetris {
                                    current_shape: final(self).current_shape,
                                    ..*old(self)
                                })
                                &&& spec_grid(final(self).current_shape@) =~~= rot
                            } else {
                                *final(self) == *old(self)
                            }
                        })
                    } else if key == Key::Char(' ') {
                        &&& r == true
                        &&& exists|yl: int|
                            #![trigger spec_valid_pos(
                                old(self).board@,
                                spec_grid(old(self).current_shape@),
                                old(self).piece_x as int,
                                yl + 1,
                            )]
                            {
                                &&& old(self).piece_y <= yl <= BOARD_H as int
                                &&& forall|k: int|
                                    old(self).piece_y < k <= yl ==> spec_valid_pos(
                                        old(self).board@,
                                        spec_grid(old(self).current_shape@),
                                        old(self).piece_x as int,
                                        k,
                                    )
                                &&& !spec_valid_pos(
                                    old(self).board@,
                                    spec_grid(old(self).current_shape@),
                                    old(self).piece_x as int,
                                    yl + 1,
                                )
                                &&& spec_settle_rel(
                                    (Tetris { piece_y: yl as i32, ..*old(self) }),
                                    *final(self),
                                    yl,
                                )
                            }
                    } else {
                        r == false && *final(self) == *old(self)
                    }
                },
                GameState::Paused => {
                    if key == Key::Char('p') || key == Key::Esc {
                        r == true && *final(self) == (Tetris {
                            game_state: GameState::Playing,
                            ..*old(self)
                        })
                    } else {
                        r == false && *final(self) == *old(self)
                    }
                },
            },
    {
        if self.game_over {
            if key == Key::Char('r') {
                *self = Self::new();
                self.game_state = GameState::Playing;
                return true;
            }
            return false;
        }

        match self.game_state {
            GameState::Welcome => {
                if key == Key::Enter {
                    self.game_state = GameState::Playing;
                    true
                } else {
                    false
                }
            },
            GameState::Playing => {
                match key {
                    Key::Left | Key::Char('a') => self.move_piece(-1, 0),
                    Key::Right | Key::Char('d') => self.move_piece(1, 0),
                    Key::Down | Key::Char('s') => self.move_piece(0, 1),
                    Key::Up | Key::Char('w') => {
                        self.rotate_piece();
                        true
                    },
                    Key::Char(' ') => {
                        self.hard_drop();
                        true
                    },
                    Key::Char('p') | Key::Esc => {
                        self.game_state = GameState::Paused;
                        true
                    },
                    _ => false,
                }
            },
            GameState::Paused => {
                if key == Key::Char('p') || key == Key::Esc {
                    self.game_state = GameState::Playing;
                    true
                } else {
                    false
                }
            },
        }
    }
}

/// What the falling-block render produces for one frame.
pub enum TetrisFrame {
    Welcome,
    Board(Vec<Vec<bool>>),
    Paused(Vec<String>),
}

/// Whether board cell `(i, j)` shows as occupied: a frozen cell, or a cell
/// of the active piece while the game is still running.
pub open spec fn spec_display_cell(t: Tetris, i: int, j: int) -> bool {
    t.board@[i]@[j] || (!t.game_over && spec_piece_covers(
        spec_grid(t.current_shape@),
        t.piece_x as int,
        t.piece_y as int,
        i,
        j,
    ))
}

impl Tetris {
    /// The board with the active piece drawn in, as a 20-by-10 occupancy
    /// grid.
    pub fn render_game(&self) -> (r: Vec<Vec<bool>>)
        requires
            self.wf(),
        ensures
            r@.len() == BOARD_H as int,
            forall|i: int| 0 <= i < BOARD_H as int ==> (#[trigger] r@[i])@.len() == BOARD_W as int,
            forall|i: int, j: int|
                0 <= i < BOARD_H as int && 0 <= j < BOARD_W as int ==> (#[trigger] r@[i]@[j])
                    == spec_display_cell(*self, i, j),
    {
        let mut grid: Vec<Vec<bool>> = Vec::new();
        let mut i: usize = 0;
        while i < BOARD_H
            invariant
                0 <= i <= BOARD_H as int,
                self.wf(),
                grid@.len() == i as int,
                forall|a: int| 0 <= a < i as int ==> (#[trigger] grid@[a])@.len() == BOARD_W as int,
                forall|a: int, b: int|
                    0 <= a < i as int && 0 <= b < BOARD_W as int ==> (#[trigger] grid@[a]@[b])
                        == spec_display_cell(*self, a, b),
            decreases BOARD_H as int - i,
        {
            let mut row: Vec<bool> = Vec::new();
            let mut j: usize = 0;
            while j < BOARD_W
                invariant
                    0 <= j <= BOARD_W as int,
                    0 <= i < BOARD_H as int,
                    self.wf(),
                    row@.len() == j as int,
                    forall|b: int| 0 <= b < j as int ==> (#[trigger] row@[b]) == spec_display_cell(
                        *self,
                        i as int,
                        b,
                    ),
                decreases BOARD_W as int - j,
            {
                let mut v = self.board[i][j];
                if !self.game_over {
                    let r0 = i as i32 - self.piece_y;
                    let c0 = j as i32 - self.piece_x;
                    if 0 <= r0 && r0 < 4 && 0 <= c0 && c0 < 4 {
                        proof {
                            assert(spec_grid(self.current_shape@)[r0 as int]
                                == self.current_shape@[r0 as int]@);
                        }
                        if self.current_shape[r0 as usize][c0 as usize] {
                            v = true;
                        }
                    }
                }
                row.push(v);
                j = j + 1;
            }
            grid.push(row);
            i = i + 1;
        }
        grid
    }

    /// One rendered frame for the current phase: the welcome text, the board
    /// with the piece drawn in, or the pause overlay's log lines for a
    /// viewport of `height` rows.
    pub fn render(&mut self, height: u16) -> (r: TetrisFrame)
        requires
            old(self).wf(),
        ensures
            final(self).wf(),
            old(self).game_state == GameState::Welcome ==> r is Welcome && *final(self) == *old(
                self,
            ),
            old(self).game_state == GameState::Paused ==> r is Paused,
            old(self).game_state == GameState::Paused ==> *final(self) == (Tetris {
                compiling: final(self).compiling,
                ..*old(self)
            }) && final(self).compiling == (Compiling {
                display_messages: final(self).compiling.display_messages,
                ..old(self).compiling
            }),
            old(self).game_state == GameState::Paused ==> match r {
                TetrisFrame::Paused(lines) => {
                    &&& lines@.len() == vstd::math::min(
                        if height >= 2 {
                            (height - 2) as int
                        } else {
                            0
                        },
                        old(self).compiling.messages@.len() as int,
                    )
                    &&& forall|i: int| 0 <= i < lines@.len() ==> (#[trigger] lines@[i]) == old(
                        self,
                    ).compiling.messages@[i]
                },
                _ => false,
            },
            old(self).game_state == GameState::Playing ==> *final(self) == *old(self) && match r {
                TetrisFrame::Board(grid) => {
                    &&& grid@.len() == BOARD_H as int
                    &&& forall|i: int, j: int|
                        0 <= i < BOARD_H as int && 0 <= j < BOARD_W as int ==> (
                        #[trigger] grid@[i]@[j]) == spec_display_cell(*old(self), i, j)
                },
                _ => false,
            },
    {
        match self.game_state {
            GameState::Welcome => TetrisFrame::Welcome,
            GameState::Playing => TetrisFrame::Board(self.render_game()),
            GameState::Paused => TetrisFrame::Paused(self.compiling.render(height)),
        }
    }
}

} // verus!
