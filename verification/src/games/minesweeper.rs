use vstd::prelude::*;

use crate::game_manager::CompileLanguage;
use crate::games::compiling::Compiling;
use crate::keys::Key;
use crate::rng::rand_below;
use crate::translation::{Language, Translations};

verus! {

/// The phase the minesweeper game is in.
#[derive(Clone, Copy, PartialEq, Eq, Structural, Debug)]
pub enum GameState {
    Welcome,
    Playing,
    Paused,
}

/// The side length of the square board, in cells, and how many mines it
/// hides.
pub const BOARD_SIZE: usize = 10;

pub const MINE_COUNT: usize = 15;

/// The minesweeper clone: hidden mines, precomputed neighbor counts, and the
/// revealed and flagged masks, under the phase wrapper.
pub struct MineSweeper {
    pub board: Vec<Vec<u8>>,
    pub mines: Vec<Vec<bool>>,
    pub revealed: Vec<Vec<bool>>,
    pub flagged: Vec<Vec<bool>>,
    pub game_over: bool,
    pub is_win: bool,
    pub cursor_x: usize,
    pub cursor_y: usize,
    pub language: Language,
    pub compile_language: CompileLanguage,
    pub game_state: GameState,
    pub translations: Translations,
    pub compiling: Compiling,
    pub last_click_x: Option<usize>,
    pub last_click_y: Option<usize>,
}

/// A well-formed 10-by-10 mask.
pub open spec fn spec_mask_wf(g: Seq<Vec<bool>>) -> bool {
    &&& g.len() == BOARD_SIZE as int
    &&& forall|r: int| 0 <= r < BOARD_SIZE as int ==> (#[trigger] g[r])@.len() == BOARD_SIZE as int
}

/// A well-formed 10-by-10 count grid.
pub open spec fn spec_counts_wf(g: Seq<Vec<u8>>) -> bool {
    &&& g.len() == BOARD_SIZE as int
    &&& forall|r: int| 0 <= r < BOARD_SIZE as int ==> (#[trigger] g[r])@.len() == BOARD_SIZE as int
}

/// Whether `(x, y)` lies on the board.
pub open spec fn spec_on_board(x: int, y: int) -> bool {
    0 <= x < BOARD_SIZE as int && 0 <= y < BOARD_SIZE as int
}

/// The indicator of one cell, as a count.
pub open spec fn spec_cell_ind(g: Seq<Vec<bool>>, x: int, y: int) -> int {
    if spec_on_board(x, y) && g[y]@[x] {
        1
    } else {
        0
    }
}

/// How many of the eight neighbors of `(x, y)` hold a mine.
pub open spec fn spec_adj_count(g: Seq<Vec<bool>>, x: int, y: int) -> int {
    spec_cell_ind(g, x - 1, y - 1) + spec_cell_ind(g, x, y - 1) + spec_cell_ind(g, x + 1, y - 1)
        + spec_cell_ind(g, x - 1, y) + spec_cell_ind(g, x + 1, y) + spec_cell_ind(g, x - 1, y + 1)
        + spec_cell_ind(g, x, y + 1) + spec_cell_ind(g, x + 1, y + 1)
}

/// How many cells of a row are set.
pub open spec fn spec_row_count(row: Seq<bool>) -> int
    decreases row.len(),
{
    if row.len() == 0 {
        0
    } else {
        (if row[0] {
            1int
        } else {
            0int
        }) + spec_row_count(row.skip(1))
    }
}

/// How many cells of a mask are set.
pub open spec fn spec_grid_count(g: Seq<Vec<bool>>) -> int
    decreases g.len(),
{
    if g.len() == 0 {
        0
    } else {
        spec_row_count(g[0]@) + spec_grid_count(g.skip(1))
    }
}

/// A row's count lies between zero and its length.
pub proof fn lemma_row_count_bounds(row: Seq<bool>)
    ensures
        0 <= spec_row_count(row) <= row.len(),
    decreases row.len(),
{
    if row.len() > 0 {
        lemma_row_count_bounds(row.skip(1));
    }
}

/// Setting one clear cell of a row raises its count by one.
pub proof fn lemma_row_count_update(row: Seq<bool>, j: int)
    requires
        0 <= j < row.len(),
        !row[j],
    ensures
        spec_row_count(row.update(j, true)) == spec_row_count(row) + 1,
    decreases row.len(),
{
    if j == 0 {
        assert(row.update(0, true).skip(1) =~= row.skip(1));
    } else {
        assert(row.update(j, true).skip(1) =~= row.skip(1).update(j - 1, true));
        lemma_row_count_update(row.skip(1), j - 1);
    }
}

/// A mask's count lies between zero and its cell count.
pub proof fn lemma_grid_count_bounds(g: Seq<Vec<bool>>)
    requires
        forall|r: int| 0 <= r < g.len() ==> (#[trigger] g[r])@.len() == BOARD_SIZE as int,
    ensures
        0 <= spec_grid_count(g) <= g.len() * BOARD_SIZE as int,
    decreases g.len(),
{
    if g.len() > 0 {
        lemma_row_count_bounds(g[0]@);
        assert(forall|r: int| 0 <= r < g.skip(1).len() ==> (#[trigger] g.skip(1)[r])@.len()
            == BOARD_SIZE as int);
        lemma_grid_count_bounds(g.skip(1));
    }
}

/// Setting one clear cell of a mask raises its count by one; `g2` is the
/// mask with row `y` replaced by a row whose views differ from row `y` only
/// by setting column `x`.
pub proof fn lemma_grid_count_update(g1: Seq<Vec<bool>>, g2: Seq<Vec<bool>>, x: int, y: int)
    requires
        0 <= y < g1.len(),
        g2.len() == g1.len(),
        0 <= x < g1[y]@.len(),
        !g1[y]@[x],
        g2[y]@ =~= g1[y]@.update(x, true),
        forall|r: int| 0 <= r < g1.len() && r != y ==> (#[trigger] g2[r])@ =~= g1[r]@,
    ensures
        spec_grid_count(g2) == spec_grid_count(g1) + 1,
    decreases g1.len(),
{
    if y == 0 {
        lemma_row_count_update(g1[0]@, x);
        lemma_grid_count_rows_equal(g1.skip(1), g2.skip(1));
    } else {
        assert(g2[0]@ =~= g1[0]@);
        lemma_row_count_views(g1[0]@, g2[0]@);
        lemma_grid_count_update(g1.skip(1), g2.skip(1), x, y - 1);
    }
}

/// Two rows that read the same count the same.
pub proof fn lemma_row_count_views(r1: Seq<bool>, r2: Seq<bool>)
    requires
        r1 =~= r2,
    ensures
        spec_row_count(r1) == spec_row_count(r2),
{
}

/// Two masks whose rows read the same count the same.
pub proof fn lemma_grid_count_rows_equal(g1: Seq<Vec<bool>>, g2: Seq<Vec<bool>>)
    requires
        g1.len() == g2.len(),
        forall|r: int| 0 <= r < g1.len() ==> (#[trigger] g2[r])@ =~= g1[r]@,
    ensures
        spec_grid_count(g1) == spec_grid_count(g2),
    decreases g1.len(),
{
    if g1.len() > 0 {
        lemma_row_count_views(g1[0]@, g2[0]@);
        lemma_grid_count_rows_equal(g1.skip(1), g2.skip(1));
    }
}

/// A mask that grows pointwise cannot lose count.
pub proof fn lemma_grid_count_monotone(g1: Seq<Vec<bool>>, g2: Seq<Vec<bool>>)
    requires
        g1.len() == g2.len(),
        forall|r: int| 0 <= r < g1.len() ==> (#[trigger] g1[r])@.len() == g2[r]@.len(),
        forall|r: int, c: int|
            0 <= r < g1.len() && 0 <= c < g1[r]@.len() && (#[trigger] g1[r]@[c]) ==> g2[r]@[c],
    ensures
        spec_grid_count(g1) <= spec_grid_count(g2),
    decreases g1.len(),
{
    if g1.len() > 0 {
        lemma_row_count_monotone(g1[0]@, g2[0]@);
        assert forall|r: int, c: int|
            0 <= r < g1.skip(1).len() && 0 <= c < g1.skip(1)[r]@.len() && (#[trigger] g1.skip(
                1,
            )[r]@[c]) implies g2.skip(1)[r]@[c] by {
            assert(g1[r + 1]@[c]);
        }
        lemma_grid_count_monotone(g1.skip(1), g2.skip(1));
    }
}

/// A row that grows pointwise cannot lose count.
pub proof fn lemma_row_count_monotone(r1: Seq<bool>, r2: Seq<bool>)
    requires
        r1.len() == r2.len(),
        forall|c: int| 0 <= c < r1.len() && (#[trigger] r1[c]) ==> r2[c],
    ensures
        spec_row_count(r1) <= spec_row_count(r2),
    decreases r1.len(),
{
    if r1.len() > 0 {
        assert forall|c: int| 0 <= c < r1.skip(1).len() && (#[trigger] r1.skip(1)[c]) implies
            r2.skip(1)[c] by {
            assert(r1[c + 1]);
        }
        lemma_row_count_monotone(r1.skip(1), r2.skip(1));
    }
}

/// What revealing does to the masks, stated for every outcome: only the
/// revealed mask, the end flags and the last-click note change; revealing is
/// monotone; a flagged safe cell is never revealed by it; a flagged mine
/// shows only when the game ends on this very call.
pub open spec fn spec_reveal_rel(pre: MineSweeper, post: MineSweeper) -> bool {
    &&& post == (MineSweeper {
        revealed: post.revealed,
        game_over: post.game_over,
        is_win: post.is_win,
        ..pre
    })
    &&& spec_mask_wf(post.revealed@)
    &&& forall|x: int, y: int|
        spec_on_board(x, y) && (#[trigger] pre.revealed@[y]@[x]) ==> post.revealed@[y]@[x]
    &&& forall|x: int, y: int|
        spec_on_board(x, y) && pre.flagged@[y]@[x] && !pre.mines@[y]@[x]
            ==> (#[trigger] post.revealed@[y]@[x]) == pre.revealed@[y]@[x]
    &&& forall|x: int, y: int|
        spec_on_board(x, y) && pre.flagged@[y]@[x] && !post.game_over
            ==> (#[trigger] post.revealed@[y]@[x]) == pre.revealed@[y]@[x]
    &&& (pre.game_over ==> post.game_over)
}

impl MineSweeper {
    /// The structural invariant: four 10-by-10 grids and the cursor on the
    /// board.
    pub open spec fn wf(self) -> bool {
        &&& spec_counts_wf(self.board@)
        &&& spec_mask_wf(self.mines@)
        &&& spec_mask_wf(self.revealed@)
        &&& spec_mask_wf(self.flagged@)
        &&& self.cursor_x < BOARD_SIZE
        &&& self.cursor_y < BOARD_SIZE
    }

    /// A fresh game: mines placed at random, neighbor counts computed,
    /// everything hidden and unflagged, the welcome screen showing.
    pub fn new() -> (g: MineSweeper)
        ensures
            g.wf(),
            g.game_state == GameState::Welcome,
            g.game_over == false,
            g.is_win == false,
            g.cursor_x == 0,
            g.cursor_y == 0,
            g.last_click_x is None,
            g.last_click_y is None,
            g.language == Language::English,
            g.compile_language == CompileLanguage::Rust,
            spec_grid_count(g.mines@) == MINE_COUNT as int,
            forall|x: int, y: int| spec_on_board(x, y) ==> !(#[trigger] g.revealed@[y]@[x]),
            forall|x: int, y: int| spec_on_board(x, y) ==> !(#[trigger] g.flagged@[y]@[x]),
            forall|x: int, y: int|
                spec_on_board(x, y) && !g.mines@[y]@[x] ==> (#[trigger] g.board@[y]@[x]) as int
                    == spec_adj_count(g.mines@, x, y),
    {
        let mut game = MineSweeper {
            board: Self::zero_counts(),
            mines: Self::clear_mask(),
            revealed: Self::clear_mask(),
            flagged: Self::clear_mask(),
            game_over: false,
            is_win: false,
            cursor_x: 0,
            cursor_y: 0,
            language: Language::English,
            compile_language: CompileLanguage::Rust,
            game_state: GameState::Welcome,
            translations: Translations::new(),
            compiling: Compiling::new(),
            last_click_x: None,
            last_click_y: None,
        };
        proof {
            lemma_empty_grid_count(game.mines@);
        }
        game.place_mines();
        game.calculate_numbers();
        game
    }

    /// A 10-by-10 grid of zero counts.
    fn zero_counts() -> (g: Vec<Vec<u8>>)
        ensures
            spec_counts_wf(g@),
    {
        let mut g: Vec<Vec<u8>> = Vec::new();
        let mut i: usize = 0;
        while i < BOARD_SIZE
            invariant
                0 <= i <= BOARD_SIZE as int,
                g@.len() == i as int,
                forall|r: int| 0 <= r < i as int ==> (#[trigger] g@[r])@.len() == BOARD_SIZE as int,
            decreases BOARD_SIZE as int - i,
        {
            let mut row: Vec<u8> = Vec::new();
            let mut j: usize = 0;
            while j < BOARD_SIZE
                invariant
                    0 <= j <= BOARD_SIZE as int,
                    row@.len() == j as int,
                decreases BOARD_SIZE as int - j,
            {
                row.push(0);
                j = j + 1;
            }
            g.push(row);
            i = i + 1;
        }
        g
    }

    /// A 10-by-10 mask with nothing set.
    fn clear_mask() -> (g: Vec<Vec<bool>>)
        ensures
            spec_mask_wf(g@),
            forall|x: int, y: int| spec_on_board(x, y) ==> !(#[trigger] g@[y]@[x]),
    {
        let mut g: Vec<Vec<bool>> = Vec::new();
        let mut i: usize = 0;
        while i < BOARD_SIZE
            invariant
                0 <= i <= BOARD_SIZE as int,
                g@.len() == i as int,
                forall|r: int| 0 <= r < i as int ==> (#[trigger] g@[r])@.len() == BOARD_SIZE as int,
                forall|r: int, c: int| 0 <= r < i as int && 0 <= c < BOARD_SIZE as int ==> !(
                #[trigger] g@[r]@[c]),
            decreases BOARD_SIZE as int - i,
        {
            let mut row: Vec<bool> = Vec::new();
            let mut j: usize = 0;
            while j < BOARD_SIZE
                invariant
                    0 <= j <= BOARD_SIZE as int,
                    row@.len() == j as int,
                    forall|c: int| 0 <= c < j as int ==> !(#[trigger] row@[c]),
                decreases BOARD_SIZE as int - j,
            {
                row.push(false);
                j = j + 1;
            }
            g.push(row);
            i = i + 1;
        }
        g
    }

    /// Scatters exactly `MINE_COUNT` mines over distinct cells, each drawn
    /// uniformly from the cells still clear.
    fn place_mines(&mut self)
        requires
            old(self).wf(),
            spec_grid_count(old(self).mines@) == 0,
            forall|x: int, y: int| spec_on_board(x, y) ==> !(#[trigger] old(self).mines@[y]@[x]),
        ensures
            final(self).wf(),
            *final(self) == (MineSweeper { mines: final(self).mines, ..*old(self) }),
            spec_grid_count(final(self).mines@) == MINE_COUNT as int,
    {
        let mut placed: usize = 0;
        while placed < MINE_COUNT
            invariant
                0 <= placed <= MINE_COUNT,
                self.wf(),
                *self == (MineSweeper { mines: self.mines, ..*old(self) }),
                spec_grid_count(self.mines@) == placed as int,
            decreases MINE_COUNT - placed,
        {
            let mut free: Vec<(usize, usize)> = Vec::new();
            let mut y: usize = 0;
            while y < BOARD_SIZE
                invariant
                    0 <= y <= BOARD_SIZE as int,
                    self.wf(),
                    free@.len() <= y as int * BOARD_SIZE as int,
                    forall|k: int| 0 <= k < free@.len() ==> {
                        &&& (#[trigger] free@[k]).0 < BOARD_SIZE
                        &&& free@[k].1 < BOARD_SIZE
                        &&& !self.mines@[free@[k].1 as int]@[free@[k].0 as int]
                    },
                    free@.len() == 0 ==> forall|qx: int, qy: int|
                        0 <= qx < BOARD_SIZE as int && 0 <= qy < y as int ==> (
                        #[trigger] self.mines@[qy]@[qx]),
                decreases BOARD_SIZE as int - y,
            {
                let mut x: usize = 0;
                while x < BOARD_SIZE
                    invariant
                        0 <= x <= BOARD_SIZE as int,
                        0 <= y < BOARD_SIZE as int,
                        self.wf(),
                        free@.len() <= y as int * BOARD_SIZE as int + x as int,
                        forall|k: int| 0 <= k < free@.len() ==> {
                            &&& (#[trigger] free@[k]).0 < BOARD_SIZE
                            &&& free@[k].1 < BOARD_SIZE
                            &&& !self.mines@[free@[k].1 as int]@[free@[k].0 as int]
                        },
                        free@.len() == 0 ==> forall|qx: int, qy: int|
                            0 <= qx < BOARD_SIZE as int && 0 <= qy < y as int ==> (
                            #[trigger] self.mines@[qy]@[qx]),
                        free@.len() == 0 ==> forall|qx: int|
                            0 <= qx < x as int ==> (#[trigger] self.mines@[y as int]@[qx]),
                    decreases BOARD_SIZE as int - x,
                {
                    if !self.mines[y][x] {
                        free.push((x, y));
                        proof {
                            assert(free@[free@.len() - 1] == (x, y));
                        }
                    }
                    x = x + 1;
                }
                y = y + 1;
            }
            if free.len() == 0 {
                proof {
                    lemma_full_grid_count(self.mines@);
                }
                proof {
                    assert(false);
                }
            } else {
                let pick = rand_below(free.len() as u32) as usize;
                let (mx, my) = free[pick];
                let ghost pre_mines = self.mines@;
                self.mines[my][mx] = true;
                proof {
                    lemma_grid_count_update(pre_mines, self.mines@, mx as int, my as int);
                }
                placed = placed + 1;
            }
        }
    }

    /// Computes every safe cell's neighbor-mine count; mine cells keep their
    /// stored count.
    pub fn calculate_numbers(&mut self)
        requires
            old(self).wf(),
        ensures
            final(self).wf(),
            *final(self) == (MineSweeper { board: final(self).board, ..*old(self) }),
            forall|x: int, y: int|
                spec_on_board(x, y) && !old(self).mines@[y]@[x] ==> (
                #[trigger] final(self).board@[y]@[x]) as int == spec_adj_count(
                    old(self).mines@,
                    x,
                    y,
                ),
            forall|x: int, y: int|
                spec_on_board(x, y) && old(self).mines@[y]@[x] ==> (
                #[trigger] final(self).board@[y]@[x]) == old(self).board@[y]@[x],
    {
        let ghost pre = *old(self);
        let mut y: usize = 0;
        while y < BOARD_SIZE
            invariant
                0 <= y <= BOARD_SIZE as int,
                self.wf(),
                pre.wf(),
                *self == (MineSweeper { board: self.board, ..pre }),
                forall|qx: int, qy: int|
                    spec_on_board(qx, qy) && qy < y as int && !pre.mines@[qy]@[qx] ==> (
                    #[trigger] self.board@[qy]@[qx]) as int == spec_adj_count(pre.mines@, qx, qy),
                forall|qx: int, qy: int|
                    spec_on_board(qx, qy) && (qy >= y as int || pre.mines@[qy]@[qx]) ==> (
                    #[trigger] self.board@[qy]@[qx]) == pre.board@[qy]@[qx],
            decreases BOARD_SIZE as int - y,
        {
            let mut x: usize = 0;
            while x < BOARD_SIZE
                invariant
                    0 <= x <= BOARD_SIZE as int,
                    0 <= y < BOARD_SIZE as int,
                    self.wf(),
                    pre.wf(),
                    *self == (MineSweeper { board: self.board, ..pre }),
                    forall|qx: int, qy: int|
                        spec_on_board(qx, qy) && qy < y as int && !pre.mines@[qy]@[qx] ==> (
                        #[trigger] self.board@[qy]@[qx]) as int == spec_adj_count(
                            pre.mines@,
                            qx,
                            qy,
                        ),
                    forall|qx: int|
                        0 <= qx < x as int && !pre.mines@[y as int]@[qx] ==> (
                        #[trigger] self.board@[y as int]@[qx]) as int == spec_adj_count(
                            pre.mines@,
                            qx,
                            y as int,
                        ),
                    forall|qx: int, qy: int|
                        spec_on_board(qx, qy) && (qy > y as int || (qy == y as int && qx
                            >= x as int) || pre.mines@[qy]@[qx]) ==> (
                        #[trigger] self.board@[qy]@[qx]) == pre.board@[qy]@[qx],
                decreases BOARD_SIZE as int - x,
            {
                if !self.mines[y][x] {
                    let count = self.adj_mines(x, y);
                    self.board[y][x] = count;
                }
                x = x + 1;
            }
            y = y + 1;
        }
    }

    /// The number of mines among the eight neighbors of `(x, y)`.
    fn adj_mines(&self, x: usize, y: usize) -> (c: u8)
        requires
            self.wf(),
            x < BOARD_SIZE,
            y < BOARD_SIZE,
        ensures
            c as int == spec_adj_count(self.mines@, x as int, y as int),
    {
        let mut count: u8 = 0;
        count = count + self.mine_ind(x as i32 - 1, y as i32 - 1);
        count = count + self.mine_ind(x as i32, y as i32 - 1);
        count = count + self.mine_ind(x as i32 + 1, y as i32 - 1);
        count = count + self.mine_ind(x as i32 - 1, y as i32);
        count = count + self.mine_ind(x as i32 + 1, y as i32);
        count = count + self.mine_ind(x as i32 - 1, y as i32 + 1);
        count = count + self.mine_ind(x as i32, y as i32 + 1);
        count = count + self.mine_ind(x as i32 + 1, y as i32 + 1);
        count
    }

    /// One if `(x, y)` is a mine cell on the board, else zero.
    fn mine_ind(&self, x: i32, y: i32) -> (c: u8)
        requires
            self.wf(),
            -1000 <= x <= 1000,
            -1000 <= y <= 1000,
        ensures
            c as int == spec_cell_ind(self.mines@, x as int, y as int),
            c <= 1,
    {
        if x >= 0 && x < BOARD_SIZE as i32 && y >= 0 && y < BOARD_SIZE as i32 {
            if self.mines[y as usize][x as usize] {
                1
            } else {
                0
            }
        } else {
            0
        }
    }
}

/// Whether `(ax, ay)` and `(bx, by)` are two distinct touching cells.
pub open spec fn spec_adjacent(ax: int, ay: int, bx: int, by: int) -> bool {
    &&& -1 <= ax - bx <= 1
    &&& -1 <= ay - by <= 1
    &&& !(ax == bx && ay == by)
}

/// Whether the stored neighbor counts agree with the mines for every safe
/// cell — as `calculate_numbers` leaves them.
pub open spec fn spec_counts_consistent(s: MineSweeper) -> bool {
    forall|x: int, y: int|
        spec_on_board(x, y) && !s.mines@[y]@[x] ==> (#[trigger] s.board@[y]@[x]) as int
            == spec_adj_count(s.mines@, x, y)
}

/// Whether `path` is a flood-fill walk from the start: it begins at the
/// start cell, every cell on it is hidden and unflagged, and every step
/// moves to a neighbor of a safe cell whose stored count is zero. Such walks
/// are exactly what a recursive flood fill traverses.
pub open spec fn spec_flood_path(
    pre: MineSweeper,
    sx: int,
    sy: int,
    path: Seq<(int, int)>,
) -> bool {
    &&& path.len() >= 1
    &&& path[0] == (sx, sy)
    &&& forall|i: int|
        0 <= i < path.len() ==> {
            let c = #[trigger] path[i];
            &&& spec_on_board(c.0, c.1)
            &&& !pre.revealed@[c.1]@[c.0]
            &&& !pre.flagged@[c.1]@[c.0]
        }
    &&& forall|i: int|
        0 <= i < path.len() - 1 ==> {
            let c = #[trigger] path[i];
            let d = path[i + 1];
            &&& spec_adjacent(c.0, c.1, d.0, d.1)
            &&& pre.board@[c.1]@[c.0] == 0
            &&& !pre.mines@[c.1]@[c.0]
        }
}

/// Whether the flood fill started at `(sx, sy)` reaches `(x, y)`: some
/// flood-fill walk ends there.
pub open spec fn spec_flooded(pre: MineSweeper, sx: int, sy: int, x: int, y: int) -> bool {
    exists|path: Seq<(int, int)>|
        #[trigger] spec_flood_path(pre, sx, sy, path) && path.last() == (x, y)
}

/// Whether some work-list entry is cell `(cx, cy)`.
pub open spec fn spec_stack_has(st: Seq<(usize, usize)>, cx: int, cy: int) -> bool {
    exists|k: int| 0 <= k < st.len() && (#[trigger] st[k]).0 == cx && st[k].1 == cy
}

/// Whether every unflagged board neighbor of `(cx, cy)` is revealed in
/// `cur`: the cell has been fully expanded.
pub open spec fn spec_closed_at(pre: MineSweeper, cur: MineSweeper, cx: int, cy: int) -> bool {
    forall|dx: int, dy: int|
        spec_on_board(dx, dy) && spec_adjacent(cx, cy, dx, dy) && !pre.flagged@[dy]@[dx] ==> (
        #[trigger] cur.revealed@[dy]@[dx])
}

/// The flood fill's running state, relative to the pre-state and the start
/// cell: only the revealed mask and the game-over bit have moved, the start
/// is shown, revealing is monotone and never touches flagged safe cells,
/// every work-list entry is a freshly shown unflagged cell, and — whenever
/// the stored counts are consistent — everything freshly shown is reachable
/// and everything freshly shown, safe and zero-counted that has left the
/// work list is fully expanded.
pub open spec fn spec_flood_inv(
    pre: MineSweeper,
    cur: MineSweeper,
    st: Seq<(usize, usize)>,
    sx: int,
    sy: int,
) -> bool {
    &&& pre.wf()
    &&& cur.wf()
    &&& spec_on_board(sx, sy)
    &&& !pre.revealed@[sy]@[sx]
    &&& !pre.flagged@[sy]@[sx]
    &&& !pre.mines@[sy]@[sx]
    &&& cur == (MineSweeper { revealed: cur.revealed, game_over: cur.game_over, ..pre })
    &&& cur.revealed@[sy]@[sx]
    &&& forall|cx: int, cy: int|
        spec_on_board(cx, cy) && pre.revealed@[cy]@[cx] ==> (#[trigger] cur.revealed@[cy]@[cx])
    &&& forall|cx: int, cy: int|
        spec_on_board(cx, cy) && pre.flagged@[cy]@[cx] && !pre.mines@[cy]@[cx] ==> (
        #[trigger] cur.revealed@[cy]@[cx]) == pre.revealed@[cy]@[cx]
    &&& forall|cx: int, cy: int|
        spec_on_board(cx, cy) && pre.flagged@[cy]@[cx] && !cur.game_over ==> (
        #[trigger] cur.revealed@[cy]@[cx]) == pre.revealed@[cy]@[cx]
    &&& (pre.game_over ==> cur.game_over)
    &&& forall|k: int|
        0 <= k < st.len() ==> {
            &&& spec_on_board((#[trigger] st[k]).0 as int, st[k].1 as int)
            &&& cur.revealed@[st[k].1 as int]@[st[k].0 as int]
            &&& !pre.revealed@[st[k].1 as int]@[st[k].0 as int]
            &&& !pre.flagged@[st[k].1 as int]@[st[k].0 as int]
        }
    &&& (spec_counts_consistent(pre) ==> cur.game_over == pre.game_over)
    &&& (spec_counts_consistent(pre) ==> forall|cx: int, cy: int|
        spec_on_board(cx, cy) && (#[trigger] cur.revealed@[cy]@[cx]) && !pre.revealed@[cy]@[cx]
            ==> spec_flooded(pre, sx, sy, cx, cy))
    &&& (spec_counts_consistent(pre) ==> forall|cx: int, cy: int|
        spec_on_board(cx, cy) && (#[trigger] cur.revealed@[cy]@[cx]) && !pre.revealed@[cy]@[cx]
            && pre.board@[cy]@[cx] == 0 && !pre.mines@[cy]@[cx] && !spec_stack_has(st, cx, cy)
            ==> spec_closed_at(pre, cur, cx, cy))
}

/// A safe cell whose stored count is zero has no mined neighbor, as long as
/// the stored counts are consistent.
pub proof fn lemma_zero_cell_neighbors_safe(
    pre: MineSweeper,
    cx: int,
    cy: int,
    dx: int,
    dy: int,
)
    requires
        pre.wf(),
        spec_counts_consistent(pre),
        spec_on_board(cx, cy),
        spec_on_board(dx, dy),
        spec_adjacent(cx, cy, dx, dy),
        !pre.mines@[cy]@[cx],
        pre.board@[cy]@[cx] == 0,
    ensures
        !pre.mines@[dy]@[dx],
{
    assert(spec_adj_count(pre.mines@, cx, cy) == 0);
    assert(spec_cell_ind(pre.mines@, dx, dy) == 0);
}

/// The flood fill reaches its own start.
pub proof fn lemma_flooded_start(pre: MineSweeper, sx: int, sy: int)
    requires
        spec_on_board(sx, sy),
        !pre.revealed@[sy]@[sx],
        !pre.flagged@[sy]@[sx],
    ensures
        spec_flooded(pre, sx, sy, sx, sy),
{
    let path: Seq<(int, int)> = seq![(sx, sy)];
    assert(spec_flood_path(pre, sx, sy, path));
    assert(path.last() == (sx, sy));
}

/// A flood-fill walk extends by one step: from a reached safe cell whose
/// stored count is zero, any hidden, unflagged board neighbor is reached.
pub proof fn lemma_flooded_step(
    pre: MineSweeper,
    sx: int,
    sy: int,
    cx: int,
    cy: int,
    dx: int,
    dy: int,
)
    requires
        spec_flooded(pre, sx, sy, cx, cy),
        spec_on_board(cx, cy),
        pre.board@[cy]@[cx] == 0,
        !pre.mines@[cy]@[cx],
        spec_adjacent(cx, cy, dx, dy),
        spec_on_board(dx, dy),
        !pre.revealed@[dy]@[dx],
        !pre.flagged@[dy]@[dx],
    ensures
        spec_flooded(pre, sx, sy, dx, dy),
{
    let path = choose|path: Seq<(int, int)>|
        #[trigger] spec_flood_path(pre, sx, sy, path) && path.last() == (cx, cy);
    let longer = path.push((dx, dy));
    assert(longer[0] == path[0]);
    assert forall|i: int| 0 <= i < longer.len() - 1 implies {
        let c = #[trigger] longer[i];
        let d = longer[i + 1];
        &&& spec_adjacent(c.0, c.1, d.0, d.1)
        &&& pre.board@[c.1]@[c.0] == 0
        &&& !pre.mines@[c.1]@[c.0]
    } by {
        if i < path.len() - 1 {
            assert(longer[i] == path[i]);
            assert(longer[i + 1] == path[i + 1]);
        } else {
            assert(longer[i] == path.last());
            assert(longer[i + 1] == (dx, dy));
        }
    }
    assert(spec_flood_path(pre, sx, sy, longer));
    assert(longer.last() == (dx, dy));
}

/// Everything the flood fill can reach ends up revealed: the start is shown
/// and every shown, safe, zero-counted cell is fully expanded, so the
/// reachable region is contained in the shown region.
pub proof fn lemma_flood_lower(
    pre: MineSweeper,
    cur: MineSweeper,
    sx: int,
    sy: int,
    path: Seq<(int, int)>,
)
    requires
        pre.wf(),
        cur.wf(),
        cur.board == pre.board,
        cur.mines == pre.mines,
        cur.flagged == pre.flagged,
        cur.revealed@[sy]@[sx],
        spec_on_board(sx, sy),
        forall|ax: int, ay: int|
            spec_on_board(ax, ay) && (#[trigger] cur.revealed@[ay]@[ax]) && !pre.revealed@[ay]@[
                ax] && pre.board@[ay]@[ax] == 0 && !pre.mines@[ay]@[ax] ==> spec_closed_at(
                pre,
                cur,
                ax,
                ay,
            ),
        spec_flood_path(pre, sx, sy, path),
    ensures
        cur.revealed@[path.last().1]@[path.last().0],
    decreases path.len(),
{
    if path.len() == 1 {
        assert(path.last() == (sx, sy));
    } else {
        let prefix = path.drop_last();
        assert forall|i: int| 0 <= i < prefix.len() implies {
            let c = #[trigger] prefix[i];
            &&& spec_on_board(c.0, c.1)
            &&& !pre.revealed@[c.1]@[c.0]
            &&& !pre.flagged@[c.1]@[c.0]
        } by {
            assert(prefix[i] == path[i]);
        }
        assert forall|i: int| 0 <= i < prefix.len() - 1 implies {
            let c = #[trigger] prefix[i];
            let d = prefix[i + 1];
            &&& spec_adjacent(c.0, c.1, d.0, d.1)
            &&& pre.board@[c.1]@[c.0] == 0
            &&& !pre.mines@[c.1]@[c.0]
        } by {
            assert(prefix[i] == path[i]);
            assert(prefix[i + 1] == path[i + 1]);
        }
        assert(spec_flood_path(pre, sx, sy, prefix));
        lemma_flood_lower(pre, cur, sx, sy, prefix);
        let p = path[path.len() - 2];
        let c = path.last();
        assert(prefix.last() == p);
        assert(spec_adjacent(p.0, p.1, c.0, c.1) && pre.board@[p.1]@[p.0] == 0 && !pre.mines@[
            p.1]@[p.0]);
        assert(spec_closed_at(pre, cur, p.0, p.1));
    }
}

/// From a start whose stored count is not zero the flood never spreads: it
/// reaches the start cell alone.
pub proof fn lemma_no_spread(pre: MineSweeper, sx: int, sy: int, path: Seq<(int, int)>)
    requires
        pre.board@[sy]@[sx] != 0,
        spec_flood_path(pre, sx, sy, path),
    ensures
        path.last() == (sx, sy),
        path.len() == 1,
{
    if path.len() >= 2 {
        assert(path[0] == (sx, sy));
        assert(pre.board@[path[0].1]@[path[0].0] == 0);
        assert(false);
    }
}

/// What checking for a win does: with every safe cell revealed, or with the
/// flagged set exactly matching the mine set, the game is won and over and
/// every mine is shown; any superset or subset mismatch of flags leaves the
/// state untouched.
pub open spec fn spec_check_win_rel(pre: MineSweeper, post: MineSweeper) -> bool {
    let all_safe = forall|x: int, y: int|
        spec_on_board(x, y) && !pre.mines@[y]@[x] ==> (#[trigger] pre.revealed@[y]@[x]);
    let all_flag = forall|x: int, y: int|
        spec_on_board(x, y) ==> (#[trigger] pre.mines@[y]@[x]) == pre.flagged@[y]@[x];
    if all_safe || all_flag {
        &&& post == (MineSweeper {
            revealed: post.revealed,
            is_win: true,
            game_over: true,
            ..pre
        })
        &&& spec_mask_wf(post.revealed@)
        &&& forall|x: int, y: int|
            spec_on_board(x, y) ==> (#[trigger] post.revealed@[y]@[x]) == (pre.revealed@[y]@[x]
                || pre.mines@[y]@[x])
    } else {
        post == pre
    }
}

/// What revealing cell `(x, y)` does, case by case: an already revealed or
/// flagged cell is a no-op; an unflagged cell always ends up revealed; a
/// fresh mine ends the game without declaring a win and shows every mine;
/// and, whenever the stored counts are consistent, revealing a safe cell
/// shows exactly the flood fill's reachable region — the connected zero-
/// count region and its unflagged border — before the win check runs.
pub open spec fn spec_reveal_cases(pre: MineSweeper, post: MineSweeper, x: int, y: int) -> bool {
    &&& (pre.revealed@[y]@[x] || pre.flagged@[y]@[x]) ==> post == pre
    &&& !pre.flagged@[y]@[x] ==> post.revealed@[y]@[x]
    &&& (!pre.revealed@[y]@[x] && !pre.flagged@[y]@[x] && pre.mines@[y]@[x]) ==> {
        &&& post.game_over
        &&& post.is_win == pre.is_win
        &&& forall|mx: int, my: int|
            spec_on_board(mx, my) ==> (#[trigger] post.revealed@[my]@[mx]) == (
            pre.revealed@[my]@[mx] || pre.mines@[my]@[mx] || (mx == x && my == y))
    }
    &&& (spec_counts_consistent(pre) && !pre.revealed@[y]@[x] && !pre.flagged@[y]@[x]
        && !pre.mines@[y]@[x]) ==> exists|mid: MineSweeper|
        #![trigger spec_check_win_rel(mid, post)]
        {
            &&& mid == (MineSweeper { revealed: mid.revealed, ..pre })
            &&& spec_mask_wf(mid.revealed@)
            &&& forall|cx: int, cy: int|
                spec_on_board(cx, cy) ==> ((#[trigger] mid.revealed@[cy]@[cx]) == (
                pre.revealed@[cy]@[cx] || spec_flooded(pre, x, y, cx, cy)))
            &&& spec_check_win_rel(mid, post)
        }
}

/// Checking for a win only ever adds mine cells to the revealed mask, so it
/// refines what a reveal promises.
pub proof fn lemma_check_win_refines_reveal(pre: MineSweeper, post: MineSweeper)
    requires
        pre.wf(),
        spec_check_win_rel(pre, post),
    ensures
        spec_reveal_rel(pre, post),
{
}

/// The reveal relation composes.
pub proof fn lemma_reveal_rel_trans(a: MineSweeper, b: MineSweeper, c: MineSweeper)
    requires
        a.wf(),
        spec_reveal_rel(a, b),
        spec_reveal_rel(b, c),
    ensures
        spec_reveal_rel(a, c),
{
}

/// A mask with nothing set counts zero.
pub proof fn lemma_empty_grid_count(g: Seq<Vec<bool>>)
    requires
        forall|r: int, c: int|
            0 <= r < g.len() && 0 <= c < g[r]@.len() ==> !(#[trigger] g[r]@[c]),
    ensures
        spec_grid_count(g) == 0,
    decreases g.len(),
{
    if g.len() > 0 {
        lemma_empty_row_count(g[0]@, 0);
        assert(g[0]@.skip(0) =~= g[0]@);
        lemma_row_count_views(g[0]@.skip(0), g[0]@);
        assert forall|r: int, c: int|
            0 <= r < g.skip(1).len() && 0 <= c < g.skip(1)[r]@.len() implies !(#[trigger] g.skip(
            1,
        )[r]@[c]) by {
            assert(!g[r + 1]@[c]);
        }
        lemma_empty_grid_count(g.skip(1));
    }
}

/// A row with nothing set counts zero from any point on.
proof fn lemma_empty_row_count(row: Seq<bool>, j: int)
    requires
        0 <= j <= row.len(),
        forall|c: int| 0 <= c < row.len() ==> !(#[trigger] row[c]),
    ensures
        spec_row_count(row.skip(j)) == 0,
    decreases row.len() - j,
{
    if j < row.len() {
        assert(row.skip(j)[0] == row[j]);
        assert(row.skip(j).skip(1) =~= row.skip(j + 1));
        lemma_empty_row_count(row, j + 1);
    } else {
        assert(row.skip(j).len() == 0);
    }
}

/// Every cell of a full 10-by-10 mask set means a count of one hundred.
pub proof fn lemma_full_grid_count(g: Seq<Vec<bool>>)
    requires
        spec_mask_wf(g),
        forall|x: int, y: int| spec_on_board(x, y) ==> (#[trigger] g[y]@[x]),
    ensures
        spec_grid_count(g) == BOARD_SIZE as int * BOARD_SIZE as int,
{
    lemma_full_grid_count_from(g, 0);
    assert(g.skip(0) =~= g);
    lemma_grid_count_rows_equal(g.skip(0), g);
}

/// The tail of a full mask from row `i` on counts one row's worth per row.
proof fn lemma_full_grid_count_from(g: Seq<Vec<bool>>, i: int)
    requires
        spec_mask_wf(g),
        0 <= i <= BOARD_SIZE as int,
        forall|x: int, y: int| spec_on_board(x, y) ==> (#[trigger] g[y]@[x]),
    ensures
        spec_grid_count(g.skip(i)) == (BOARD_SIZE as int - i) * BOARD_SIZE as int,
    decreases BOARD_SIZE as int - i,
{
    if i == BOARD_SIZE as int {
        assert(g.skip(i).len() == 0);
    } else {
        lemma_full_row_count(g[i]@, 0);
        assert(g[i]@.skip(0) =~= g[i]@);
        lemma_row_count_views(g[i]@.skip(0), g[i]@);
        assert(g.skip(i)[0] == g[i]);
        assert(g.skip(i).skip(1) =~= g.skip(i + 1));
        lemma_full_grid_count_from(g, i + 1);
        assert((BOARD_SIZE as int - i) * BOARD_SIZE as int == BOARD_SIZE as int + (
        BOARD_SIZE as int - i - 1) * BOARD_SIZE as int) by (nonlinear_arith);
    }
}

/// A fully set row counts its whole length.
proof fn lemma_full_row_count(row: Seq<bool>, j: int)
    requires
        row.len() == BOARD_SIZE as int,
        0 <= j <= BOARD_SIZE as int,
        forall|c: int| 0 <= c < row.len() ==> (#[trigger] row[c]),
    ensures
        spec_row_count(row.skip(j)) == BOARD_SIZE as int - j,
    decreases BOARD_SIZE as int - j,
{
    if j == BOARD_SIZE as int {
        assert(row.skip(j).len() == 0);
    } else {
        assert(row.skip(j)[0] == row[j]);
        assert(row.skip(j).skip(1) =~= row.skip(j + 1));
        lemma_full_row_count(row, j + 1);
    }
}

impl MineSweeper {
    /// Shows every mine: each mine cell joins the revealed mask.
    fn reveal_all_mines(&mut self)
        requires
            old(self).wf(),
        ensures
            final(self).wf(),
            *final(self) == (MineSweeper { revealed: final(self).revealed, ..*old(self) }),
            forall|x: int, y: int|
                spec_on_board(x, y) ==> (#[trigger] final(self).revealed@[y]@[x]) == (old(
                    self,
                ).revealed@[y]@[x] || old(self).mines@[y]@[x]),
    {
        let ghost pre = *old(self);
        let mut y: usize = 0;
        while y < BOARD_SIZE
            invariant
                0 <= y <= BOARD_SIZE as int,
                self.wf(),
                pre.wf(),
                *self == (MineSweeper { revealed: self.revealed, ..pre }),
                forall|qx: int, qy: int|
                    spec_on_board(qx, qy) && qy < y as int ==> (
                    #[trigger] self.revealed@[qy]@[qx]) == (pre.revealed@[qy]@[qx]
                        || pre.mines@[qy]@[qx]),
                forall|qx: int, qy: int|
                    spec_on_board(qx, qy) && qy >= y as int ==> (
                    #[trigger] self.revealed@[qy]@[qx]) == pre.revealed@[qy]@[qx],
            decreases BOARD_SIZE as int - y,
        {
            let mut x: usize = 0;
            while x < BOARD_SIZE
                invariant
                    0 <= x <= BOARD_SIZE as int,
                    0 <= y < BOARD_SIZE as int,
                    self.wf(),
                    pre.wf(),
                    *self == (MineSweeper { revealed: self.revealed, ..pre }),
                    forall|qx: int, qy: int|
                        spec_on_board(qx, qy) && qy < y as int ==> (
                        #[trigger] self.revealed@[qy]@[qx]) == (pre.revealed@[qy]@[qx]
                            || pre.mines@[qy]@[qx]),
                    forall|qx: int|
                        0 <= qx < x as int ==> (#[trigger] self.revealed@[y as int]@[qx]) == (
                        pre.revealed@[y as int]@[qx] || pre.mines@[y as int]@[qx]),
                    forall|qx: int, qy: int|
                        spec_on_board(qx, qy) && (qy > y as int || (qy == y as int && qx
                            >= x as int)) ==> (#[trigger] self.revealed@[qy]@[qx])
                            == pre.revealed@[qy]@[qx],
                decreases BOARD_SIZE as int - x,
            {
                if self.mines[y][x] {
                    self.revealed[y][x] = true;
                }
                x = x + 1;
            }
            y = y + 1;
        }
    }

    /// Declares the game won when every safe cell is revealed or the flags
    /// match the mines exactly; winning shows every mine. A flag set that is
    /// merely a superset or subset of the mines does not win.
    pub fn check_win(&mut self)
        requires
            old(self).wf(),
        ensures
            final(self).wf(),
            spec_check_win_rel(*old(self), *final(self)),
    {
        let mut all_safe_revealed = true;
        let mut all_mines_flagged = true;
        let ghost mut ws: (int, int) = (0int, 0int);
        let ghost mut wfg: (int, int) = (0int, 0int);
        let mut y: usize = 0;
        while y < BOARD_SIZE
            invariant
                0 <= y <= BOARD_SIZE as int,
                self == old(self),
                self.wf(),
                !all_safe_revealed ==> spec_on_board(ws.0, ws.1) && !self.mines@[ws.1]@[ws.0]
                    && !self.revealed@[ws.1]@[ws.0],
                all_safe_revealed ==> forall|qx: int, qy: int|
                    spec_on_board(qx, qy) && qy < y as int && !self.mines@[qy]@[qx] ==> (
                    #[trigger] self.revealed@[qy]@[qx]),
                !all_mines_flagged ==> spec_on_board(wfg.0, wfg.1) && self.mines@[wfg.1]@[wfg.0]
                    != self.flagged@[wfg.1]@[wfg.0],
                all_mines_flagged ==> forall|qx: int, qy: int|
                    spec_on_board(qx, qy) && qy < y as int ==> (#[trigger] self.mines@[qy]@[qx])
                        == self.flagged@[qy]@[qx],
            decreases BOARD_SIZE as int - y,
        {
            let mut x: usize = 0;
            while x < BOARD_SIZE
                invariant
                    0 <= x <= BOARD_SIZE as int,
                    0 <= y < BOARD_SIZE as int,
                    self == old(self),
                    self.wf(),
                    !all_safe_revealed ==> spec_on_board(ws.0, ws.1) && !self.mines@[ws.1]@[ws.0]
                        && !self.revealed@[ws.1]@[ws.0],
                    all_safe_revealed ==> forall|qx: int, qy: int|
                        spec_on_board(qx, qy) && qy < y as int && !self.mines@[qy]@[qx] ==> (
                        #[trigger] self.revealed@[qy]@[qx]),
                    all_safe_revealed ==> forall|qx: int|
                        0 <= qx < x as int && !self.mines@[y as int]@[qx] ==> (
                        #[trigger] self.revealed@[y as int]@[qx]),
                    !all_mines_flagged ==> spec_on_board(wfg.0, wfg.1) && self.mines@[wfg.1]@[
                        wfg.0] != self.flagged@[wfg.1]@[wfg.0],
                    all_mines_flagged ==> forall|qx: int, qy: int|
                        spec_on_board(qx, qy) && qy < y as int ==> (
                        #[trigger] self.mines@[qy]@[qx]) == self.flagged@[qy]@[qx],
                    all_mines_flagged ==> forall|qx: int|
                        0 <= qx < x as int ==> (#[trigger] self.mines@[y as int]@[qx])
                            == self.flagged@[y as int]@[qx],
                decreases BOARD_SIZE as int - x,
            {
                if !self.mines[y][x] && !self.revealed[y][x] {
                    all_safe_revealed = false;
                    proof {
                        ws = (x as int, y as int);
                    }
                }
                if self.mines[y][x] != self.flagged[y][x] {
                    all_mines_flagged = false;
                    proof {
                        wfg = (x as int, y as int);
                    }
                }
                x = x + 1;
            }
            y = y + 1;
        }

        if all_safe_revealed || all_mines_flagged {
            self.is_win = true;
            self.game_over = true;
            self.reveal_all_mines();
        }
    }

    /// Marks the neighbor `(nx, ny)` of the expander `(ex, ey)` during a
    /// flood fill: off-board, already revealed or flagged cells are left
    /// alone; otherwise the cell is shown and joins the work list. A mine
    /// here is possible only when the stored counts disagree with the mines;
    /// it ends the game and shows every mine, as visiting it directly would.
    #[verifier::rlimit(100)]
    fn mark_neighbor(
        &mut self,
        nx: i32,
        ny: i32,
        stack: &mut Vec<(usize, usize)>,
        Ghost(pre): Ghost<MineSweeper>,
        Ghost(sx): Ghost<int>,
        Ghost(sy): Ghost<int>,
        Ghost(ex): Ghost<int>,
        Ghost(ey): Ghost<int>,
    )
        requires
            spec_flood_inv(pre, *old(self), old(stack)@, sx, sy),
            spec_on_board(ex, ey),
            pre.board@[ey]@[ex] == 0,
            !pre.mines@[ey]@[ex],
            !pre.revealed@[ey]@[ex],
            !pre.flagged@[ey]@[ex],
            spec_counts_consistent(pre) ==> spec_flooded(pre, sx, sy, ex, ey),
            spec_adjacent(ex, ey, nx as int, ny as int),
        ensures
            spec_flood_inv(pre, *final(self), final(stack)@, sx, sy),
            spec_on_board(nx as int, ny as int) && !pre.flagged@[ny as int]@[nx as int]
                ==> final(self).revealed@[ny as int]@[nx as int],
            final(stack)@ == old(stack)@ || final(stack)@ == old(stack)@.push(
                ((nx as usize), (ny as usize)),
            ),
            forall|cx: int, cy: int|
                spec_on_board(cx, cy) && (#[trigger] old(self).revealed@[cy]@[cx])
                    ==> final(self).revealed@[cy]@[cx],
            spec_grid_count(final(self).revealed@) >= spec_grid_count(old(self).revealed@),
            spec_grid_count(final(self).revealed@) - spec_grid_count(old(self).revealed@)
                >= final(stack)@.len() - old(stack)@.len(),
            final(stack)@.len() == old(stack)@.len() ==> *final(self) == *old(self)
                && final(stack)@ == old(stack)@,
    {
        if nx >= 0 && nx < BOARD_SIZE as i32 && ny >= 0 && ny < BOARD_SIZE as i32 {
            let ux = nx as usize;
            let uy = ny as usize;
            if !self.revealed[uy][ux] && !self.flagged[uy][ux] {
                let ghost cur0 = *old(self);
                let ghost rev0 = self.revealed@;
                self.revealed[uy][ux] = true;
                proof {
                    lemma_grid_count_update(rev0, self.revealed@, ux as int, uy as int);
                    lemma_grid_count_bounds(rev0);
                    lemma_grid_count_bounds(self.revealed@);
                    if spec_counts_consistent(pre) {
                        lemma_flooded_step(pre, sx, sy, ex, ey, nx as int, ny as int);
                    }
                    assert(self.revealed@ =~= rev0.update(uy as int, self.revealed@[uy as int]));
                }
                if self.mines[uy][ux] {
                    proof {
                        assert(!spec_counts_consistent(pre)) by {
                            if spec_counts_consistent(pre) {
                                lemma_zero_cell_neighbors_safe(pre, ex, ey, nx as int, ny as int);
                            }
                        }
                    }
                    self.game_over = true;
                    let ghost rev1 = self.revealed@;
                    self.reveal_all_mines();
                    proof {
                        lemma_grid_count_monotone(rev1, self.revealed@);
                        lemma_grid_count_bounds(self.revealed@);
                    }
                    stack.push((ux, uy));
                    proof {
                        assert(spec_flood_inv(pre, *self, stack@, sx, sy));
                    }
                } else {
                    stack.push((ux, uy));
                    proof {
                        assert(stack@[stack@.len() - 1] == (ux, uy));
                        assert forall|cx2: int, cy2: int|
                            spec_counts_consistent(pre) && spec_on_board(cx2, cy2) && (
                            #[trigger] self.revealed@[cy2]@[cx2]) && !pre.revealed@[cy2]@[cx2]
                                implies spec_flooded(pre, sx, sy, cx2, cy2) by {
                            if !(cx2 == nx as int && cy2 == ny as int) {
                                assert(cur0.revealed@[cy2]@[cx2]);
                            }
                        }
                        assert forall|cx2: int, cy2: int|
                            spec_counts_consistent(pre) && spec_on_board(cx2, cy2) && (
                            #[trigger] self.revealed@[cy2]@[cx2]) && !pre.revealed@[cy2]@[cx2]
                                && pre.board@[cy2]@[cx2] == 0 && !pre.mines@[cy2]@[cx2]
                                && !spec_stack_has(stack@, cx2, cy2) implies spec_closed_at(
                            pre,
                            *self,
                            cx2,
                            cy2,
                        ) by {
                            assert(!(cx2 == nx as int && cy2 == ny as int)) by {
                                assert(stack@[stack@.len() - 1] == (ux, uy));
                            }
                            assert(cur0.revealed@[cy2]@[cx2]);
                            assert(!spec_stack_has(old(stack)@, cx2, cy2)) by {
                                if spec_stack_has(old(stack)@, cx2, cy2) {
                                    let k = choose|k: int|
                                        0 <= k < old(stack)@.len() && (#[trigger] old(
                                            stack,
                                        )@[k]).0 == cx2 && old(stack)@[k].1 == cy2;
                                    assert(stack@[k] == old(stack)@[k]);
                                }
                            }
                            assert(spec_closed_at(pre, cur0, cx2, cy2));
                            assert forall|dx: int, dy: int|
                                spec_on_board(dx, dy) && spec_adjacent(cx2, cy2, dx, dy)
                                    && !pre.flagged@[dy]@[dx] implies (
                            #[trigger] self.revealed@[dy]@[dx]) by {
                                assert(cur0.revealed@[dy]@[dx]);
                            }
                        }
                        assert(spec_flood_inv(pre, *self, stack@, sx, sy));
                    }
                }
            }
        }
    }

    /// Reveals `(x, y)` and flood-fills with an explicit work list: an
    /// already revealed or flagged cell is left alone; a mine ends the game
    /// and shows every mine; a safe cell with no neighboring mines spreads
    /// the reveal across the connected zero-count region and its unflagged
    /// border, never crossing a flagged cell — exactly what a recursive
    /// flood fill visits; finally the win condition is rechecked.
    #[verifier::rlimit(100)]
    pub fn reveal_cell(&mut self, x: usize, y: usize)
        requires
            old(self).wf(),
            x < BOARD_SIZE,
            y < BOARD_SIZE,
        ensures
            final(self).wf(),
            spec_reveal_rel(*old(self), *final(self)),
            spec_reveal_cases(*old(self), *final(self), x as int, y as int),
    {
        if self.revealed[y][x] || self.flagged[y][x] {
            return;
        }

        let ghost pre = *old(self);
        let ghost pre_rev = self.revealed@;
        self.revealed[y][x] = true;
        proof {
            lemma_grid_count_update(pre_rev, self.revealed@, x as int, y as int);
            lemma_grid_count_bounds(pre_rev);
            lemma_grid_count_bounds(self.revealed@);
        }

        if self.mines[y][x] {
            self.game_over = true;
            self.reveal_all_mines();
            return;
        }

        if self.board[y][x] == 0 {
            let mut stack: Vec<(usize, usize)> = Vec::new();
            stack.push((x, y));
            proof {
                lemma_flooded_start(pre, x as int, y as int);
                assert(stack@ =~= seq![(x, y)]);
                assert(self.revealed@[y as int]@[x as int]);
                assert forall|cx: int, cy: int|
                    spec_on_board(cx, cy) && (#[trigger] self.revealed@[cy]@[cx])
                        && !pre.revealed@[cy]@[cx] implies cx == x as int && cy == y as int by {
                    assert(self.revealed@ =~= pre.revealed@.update(
                        y as int,
                        self.revealed@[y as int],
                    ));
                }
                assert(spec_stack_has(stack@, x as int, y as int)) by {
                    assert(stack@[0] == (x, y));
                }
                assert(*self == (MineSweeper {
                    revealed: self.revealed,
                    game_over: self.game_over,
                    ..pre
                }));
                assert(spec_mask_wf(self.revealed@));
                assert(forall|cx: int, cy: int|
                    spec_on_board(cx, cy) && pre.revealed@[cy]@[cx]
                        ==> (#[trigger] self.revealed@[cy]@[cx]));
                assert(forall|cx: int, cy: int|
                    spec_on_board(cx, cy) && pre.flagged@[cy]@[cx] && !pre.mines@[cy]@[cx] ==> (
                    #[trigger] self.revealed@[cy]@[cx]) == pre.revealed@[cy]@[cx]);
                assert(forall|cx: int, cy: int|
                    spec_on_board(cx, cy) && pre.flagged@[cy]@[cx] && !self.game_over ==> (
                    #[trigger] self.revealed@[cy]@[cx]) == pre.revealed@[cy]@[cx]);
                assert(forall|k: int|
                    0 <= k < stack@.len() ==> {
                        &&& spec_on_board((#[trigger] stack@[k]).0 as int, stack@[k].1 as int)
                        &&& self.revealed@[stack@[k].1 as int]@[stack@[k].0 as int]
                        &&& !pre.revealed@[stack@[k].1 as int]@[stack@[k].0 as int]
                        &&& !pre.flagged@[stack@[k].1 as int]@[stack@[k].0 as int]
                    });
                assert(spec_counts_consistent(pre) ==> forall|cx: int, cy: int|
                    spec_on_board(cx, cy) && (#[trigger] self.revealed@[cy]@[cx])
                        && !pre.revealed@[cy]@[cx] ==> spec_flooded(
                        pre,
                        x as int,
                        y as int,
                        cx,
                        cy,
                    ));
                assert(spec_counts_consistent(pre) ==> forall|cx: int, cy: int|
                    spec_on_board(cx, cy) && (#[trigger] self.revealed@[cy]@[cx])
                        && !pre.revealed@[cy]@[cx] && pre.board@[cy]@[cx] == 0
                        && !pre.mines@[cy]@[cx] && !spec_stack_has(stack@, cx, cy)
                        ==> spec_closed_at(pre, *self, cx, cy));
                assert(spec_flood_inv(pre, *self, stack@, x as int, y as int));
            }
            while stack.len() > 0
                invariant
                    pre == *old(self),
                    x < BOARD_SIZE,
                    y < BOARD_SIZE,
                    spec_flood_inv(pre, *self, stack@, x as int, y as int),
                decreases BOARD_SIZE as int * BOARD_SIZE as int - spec_grid_count(
                    self.revealed@,
                ), stack@.len(),
            {
                let (cx, cy) = stack[0];
                let ghost st0 = stack@;
                let ghost c0 = spec_grid_count(self.revealed@);
                proof {
                    lemma_grid_count_bounds(self.revealed@);
                    assert(st0[0] == (cx, cy));
                }
                if self.board[cy][cx] == 0 && !self.mines[cy][cx] {
                    self.mark_neighbor(
                        cx as i32 - 1,
                        cy as i32 - 1,
                        &mut stack,
                        Ghost(pre),
                        Ghost(x as int),
                        Ghost(y as int),
                        Ghost(cx as int),
                        Ghost(cy as int),
                    );
                    self.mark_neighbor(
                        cx as i32,
                        cy as i32 - 1,
                        &mut stack,
                        Ghost(pre),
                        Ghost(x as int),
                        Ghost(y as int),
                        Ghost(cx as int),
                        Ghost(cy as int),
                    );
                    self.mark_neighbor(
                        cx as i32 + 1,
                        cy as i32 - 1,
                        &mut stack,
                        Ghost(pre),
                        Ghost(x as int),
                        Ghost(y as int),
                        Ghost(cx as int),
                        Ghost(cy as int),
                    );
                    self.mark_neighbor(
                        cx as i32 - 1,
                        cy as i32,
                        &mut stack,
                        Ghost(pre),
                        Ghost(x as int),
                        Ghost(y as int),
                        Ghost(cx as int),
                        Ghost(cy as int),
                    );
                    self.mark_neighbor(
                        cx as i32 + 1,
                        cy as i32,
                        &mut stack,
                        Ghost(pre),
                        Ghost(x as int),
                        Ghost(y as int),
                        Ghost(cx as int),
                        Ghost(cy as int),
                    );
                    self.mark_neighbor(
                        cx as i32 - 1,
                        cy as i32 + 1,
                        &mut stack,
                        Ghost(pre),
                        Ghost(x as int),
                        Ghost(y as int),
                        Ghost(cx as int),
                        Ghost(cy as int),
                    );
                    self.mark_neighbor(
                        cx as i32,
                        cy as i32 + 1,
                        &mut stack,
                        Ghost(pre),
                        Ghost(x as int),
                        Ghost(y as int),
                        Ghost(cx as int),
                        Ghost(cy as int),
                    );
                    self.mark_neighbor(
                        cx as i32 + 1,
                        cy as i32 + 1,
                        &mut stack,
                        Ghost(pre),
                        Ghost(x as int),
                        Ghost(y as int),
                        Ghost(cx as int),
                        Ghost(cy as int),
                    );
                }
                let ghost stb = stack@;
                let ghost curb = *self;
                proof {
                    lemma_grid_count_bounds(self.revealed@);
                    assert(spec_grid_count(self.revealed@) - c0 >= stb.len() - st0.len());
                    assert(st0.len() <= stb.len());
                    assert(forall|k: int| 0 <= k < st0.len() ==> stb[k] == st0[k]);
                }
                let _done = stack.remove(0);
                proof {
                    assert(stack@ =~= stb.subrange(1, stb.len() as int));
                    assert forall|zx: int, zy: int|
                        spec_counts_consistent(pre) && spec_on_board(zx, zy) && (
                        #[trigger] self.revealed@[zy]@[zx]) && !pre.revealed@[zy]@[zx]
                            && pre.board@[zy]@[zx] == 0 && !pre.mines@[zy]@[zx]
                            && !spec_stack_has(stack@, zx, zy) implies spec_closed_at(
                        pre,
                        *self,
                        zx,
                        zy,
                    ) by {
                        if zx == cx as int && zy == cy as int {
                            assert(spec_closed_at(pre, *self, zx, zy)) by {
                                assert forall|dx: int, dy: int|
                                    spec_on_board(dx, dy) && spec_adjacent(zx, zy, dx, dy)
                                        && !pre.flagged@[dy]@[dx] implies (
                                    #[trigger] self.revealed@[dy]@[dx]) by {
                                    assert(-1 <= dx - zx <= 1 && -1 <= dy - zy <= 1);
                                }
                            }
                        } else {
                            assert(!spec_stack_has(stb, zx, zy)) by {
                                if spec_stack_has(stb, zx, zy) {
                                    let k = choose|k: int|
                                        0 <= k < stb.len() && (#[trigger] stb[k]).0 == zx
                                            && stb[k].1 == zy;
                                    assert(k != 0);
                                    assert(stack@[k - 1] == stb[k]);
                                }
                            }
                            assert(spec_closed_at(pre, curb, zx, zy));
                        }
                    }
                    assert(spec_flood_inv(pre, *self, stack@, x as int, y as int));
                }
            }
            proof {
                if spec_counts_consistent(pre) {
                    assert forall|cx: int, cy: int| spec_on_board(cx, cy) implies (
                    #[trigger] self.revealed@[cy]@[cx]) == (pre.revealed@[cy]@[cx]
                        || spec_flooded(pre, x as int, y as int, cx, cy)) by {
                        if spec_flooded(pre, x as int, y as int, cx, cy) {
                            let path = choose|path: Seq<(int, int)>|
                                #[trigger] spec_flood_path(pre, x as int, y as int, path)
                                    && path.last() == (cx, cy);
                            lemma_flood_lower(pre, *self, x as int, y as int, path);
                        }
                    }
                }
            }
        } else {
            proof {
                if spec_counts_consistent(pre) {
                    lemma_flooded_start(pre, x as int, y as int);
                    assert forall|cx: int, cy: int| spec_on_board(cx, cy) implies (
                    #[trigger] self.revealed@[cy]@[cx]) == (pre.revealed@[cy]@[cx]
                        || spec_flooded(pre, x as int, y as int, cx, cy)) by {
                        if spec_flooded(pre, x as int, y as int, cx, cy) {
                            let path = choose|path: Seq<(int, int)>|
                                #[trigger] spec_flood_path(pre, x as int, y as int, path)
                                    && path.last() == (cx, cy);
                            lemma_no_spread(pre, x as int, y as int, path);
                        }
                    }
                }
            }
        }

        let ghost mid = *self;
        self.check_win();
        proof {
            assert(spec_reveal_rel(pre, mid));
            lemma_check_win_refines_reveal(mid, *self);
            lemma_reveal_rel_trans(pre, mid, *self);
        }
    }
}

/// One cell of the rendered minesweeper board, by content class: still
/// hidden, flagged, a revealed mine, or a revealed count (zero renders as a
/// blank).
#[derive(Clone, Copy, PartialEq, Eq, Structural, Debug)]
pub enum MsCell {
    Hidden,
    Flagged,
    Mine,
    Count(u8),
}

/// What the minesweeper render produces for one frame.
pub enum MsFrame {
    Welcome,
    Board(Vec<Vec<MsCell>>),
    Paused(Vec<String>),
}

/// The content class of board cell `(x, y)`.
pub open spec fn spec_ms_cell(g: MineSweeper, x: int, y: int) -> MsCell {
    if g.revealed@[y]@[x] {
        if g.mines@[y]@[x] {
            MsCell::Mine
        } else {
            MsCell::Count(g.board@[y]@[x])
        }
    } else if g.flagged@[y]@[x] {
        MsCell::Flagged
    } else {
        MsCell::Hidden
    }
}

impl MineSweeper {
    /// Selects the language the game's texts use.
    pub fn set_language(&mut self, language: Language)
        ensures
            *final(self) == (MineSweeper {
                language,
                translations: final(self).translations,
                ..*old(self)
            }),
            final(self).translations == (Translations {
                current_language: language,
                ..old(self).translations
            }),
    {
        self.language = language;
        self.translations.set_language(language);
    }

    /// Selects the build log the pause overlay scrolls through.
    pub fn set_compile_language(&mut self, lang: CompileLanguage)
        ensures
            *final(self) == (MineSweeper {
                compile_language: lang,
                compiling: final(self).compiling,
                ..*old(self)
            }),
            final(self).compiling.current_language == lang,
    {
        self.compile_language = lang;
        self.compiling.set_language(lang);
    }

    /// One tick: only the pause overlay ever moves on its own.
    pub fn update(&mut self)
        ensures
            *final(self) == (MineSweeper { compiling: final(self).compiling, ..*old(self) }),
            if old(self).game_state == GameState::Paused {
                crate::games::compiling::spec_ticked(old(self).compiling, final(self).compiling)
            } else {
                final(self).compiling == old(self).compiling
            },
    {
        if self.game_state == GameState::Paused {
            self.compiling.update();
        }
    }

    /// Routes one key event. Enter starts from the welcome screen. While
    /// playing, the arrows and WASD move the cursor inside the board, Space
    /// reveals the cursor cell unless it is flagged, F toggles the flag on an
    /// unrevealed cell and rechecks the win, and P or Esc pauses; after a
    /// game over only R acts, reinitializing in place straight into play.
    pub fn handle_input(&mut self, key: Key)
        requires
            old(self).wf(),
        ensures
            final(self).wf(),
            match old(self).game_state {
                GameState::Welcome => {
                    if key == Key::Enter {
                        *final(self) == (MineSweeper {
                            game_state: GameState::Playing,
                            ..*old(self)
                        })
                    } else {
                        *final(self) == *old(self)
                    }
                },
                GameState::Playing => {
                    if old(self).game_over {
                        if key == Key::Char('r') {
                            &&& final(self).game_state == GameState::Playing
                            &&& final(self).game_over == false
                            &&& final(self).is_win == false
                            &&& spec_grid_count(final(self).mines@) == MINE_COUNT as int
                            &&& forall|x: int, y: int|
                                spec_on_board(x, y) ==> !(#[trigger] final(self).revealed@[y]@[x])
                                    && !final(self).flagged@[y]@[x]
                        } else {
                            *final(self) == *old(self)
                        }
                    } else if key == Key::Up || key == Key::Char('w') {
                        *final(self) == (MineSweeper {
                            cursor_y: if old(self).cursor_y > 0 {
                                (old(self).cursor_y - 1) as usize
                            } else {
                                0
                            },
                            ..*old(self)
                        })
                    } else if key == Key::Down || key == Key::Char('s') {
                        *final(self) == (MineSweeper {
                            cursor_y: if old(self).cursor_y < BOARD_SIZE - 1 {
                                (old(self).cursor_y + 1) as usize
                            } else {
                                old(self).cursor_y
                            },
                            ..*old(self)
                        })
                    } else if key == Key::Left || key == Key::Char('a') {
                        *final(self) == (MineSweeper {
                            cursor_x: if old(self).cursor_x > 0 {
                                (old(self).cursor_x - 1) as usize
                            } else {
                                0
                            },
                            ..*old(self)
                        })
                    } else if key == Key::Right || key == Key::Char('d') {
                        *final(self) == (MineSweeper {
                            cursor_x: if old(self).cursor_x < BOARD_SIZE - 1 {
                                (old(self).cursor_x + 1) as usize
                            } else {
                                old(self).cursor_x
                            },
                            ..*old(self)
                        })
                    } else if key == Key::Char(' ') {
                        if !old(self).flagged@[old(self).cursor_y as int]@[old(self).cursor_x as int] {
                            let clicked = MineSweeper {
                                last_click_x: Some(old(self).cursor_x),
                                last_click_y: Some(old(self).cursor_y),
                                ..*old(self)
                            };
                            spec_reveal_rel(clicked, *final(self)) && spec_reveal_cases(
                                clicked,
                                *final(self),
                                old(self).cursor_x as int,
                                old(self).cursor_y as int,
                            )
                        } else {
                            *final(self) == *old(self)
                        }
                    } else if key == Key::Char('f') {
                        if !old(self).revealed@[old(self).cursor_y as int]@[old(self).cursor_x as int] {
                            exists|mid: MineSweeper|
                                {
                                    &&& mid == (MineSweeper { flagged: mid.flagged, ..*old(self) })
                                    &&& spec_mask_wf(mid.flagged@)
                                    &&& forall|x: int, y: int|
                                        spec_on_board(x, y) && (x != old(self).cursor_x as int || y
                                            != old(self).cursor_y as int) ==> (
                                        #[trigger] mid.flagged@[y]@[x]) == old(self).flagged@[y]@[x]
                                    &&& mid.flagged@[old(self).cursor_y as int]@[old(self).cursor_x as int]
                                        == !old(self).flagged@[old(self).cursor_y as int]@[old(self).cursor_x as int]
                                    &&& #[trigger] spec_check_win_rel(mid, *final(self))
                                }
                        } else {
                            *final(self) == *old(self)
                        }
                    } else if key == Key::Char('p') || key == Key::Esc {
                        *final(self) == (MineSweeper { game_state: GameState::Paused, ..*old(self) })
                    } else {
                        *final(self) == *old(self)
                    }
                },
                GameState::Paused => {
                    if key == Key::Char('p') || key == Key::Esc {
                        *final(self) == (MineSweeper {
                            game_state: GameState::Playing,
                            ..*old(self)
                        })
                    } else {
                        *final(self) == *old(self)
                    }
                },
            },
    {
        match self.game_state {
            GameState::Welcome => {
                if key == Key::Enter {
                    self.game_state = GameState::Playing;
                }
            },
            GameState::Playing => {
                if self.game_over {
                    if key == Key::Char('r') {
                        *self = Self::new();
                        self.game_state = GameState::Playing;
                    }
                    return;
                }

                if key == Key::Up || key == Key::Char('w') {
                    if self.cursor_y > 0 {
                        self.cursor_y = self.cursor_y - 1;
                    }
                } else if key == Key::Down || key == Key::Char('s') {
                    if self.cursor_y < BOARD_SIZE - 1 {
                        self.cursor_y = self.cursor_y + 1;
                    }
                } else if key == Key::Left || key == Key::Char('a') {
                    if self.cursor_x > 0 {
                        self.cursor_x = self.cursor_x - 1;
                    }
                } else if key == Key::Right || key == Key::Char('d') {
                    if self.cursor_x < BOARD_SIZE - 1 {
                        self.cursor_x = self.cursor_x + 1;
                    }
                } else if key == Key::Char(' ') {
                    if !self.flagged[self.cursor_y][self.cursor_x] {
                        self.last_click_x = Some(self.cursor_x);
                        self.last_click_y = Some(self.cursor_y);
                        let cx = self.cursor_x;
                        let cy = self.cursor_y;
                        self.reveal_cell(cx, cy);
                    }
                } else if key == Key::Char('f') {
                    if !self.revealed[self.cursor_y][self.cursor_x] {
                        let cx = self.cursor_x;
                        let cy = self.cursor_y;
                        let was = self.flagged[cy][cx];
                        self.flagged[cy][cx] = !was;
                        let ghost mid = *self;
                        self.check_win();
                        proof {
                            assert(mid == (MineSweeper { flagged: mid.flagged, ..*old(self) }));
                            assert(spec_check_win_rel(mid, *self));
                        }
                    }
                } else if key == Key::Char('p') || key == Key::Esc {
                    self.game_state = GameState::Paused;
                }
            },
            GameState::Paused => {
                if key == Key::Char('p') || key == Key::Esc {
                    self.game_state = GameState::Playing;
                }
            },
        }
    }

    /// The board as a 10-by-10 grid of cell classes; the cursor cell is the
    /// front end's affair, read off the cursor fields.
    pub fn render_game(&self) -> (r: Vec<Vec<MsCell>>)
        requires
            self.wf(),
        ensures
            r@.len() == BOARD_SIZE as int,
            forall|y: int| 0 <= y < BOARD_SIZE as int ==> (#[trigger] r@[y])@.len()
                == BOARD_SIZE as int,
            forall|y: int, x: int|
                0 <= y < BOARD_SIZE as int && 0 <= x < BOARD_SIZE as int ==> (
                #[trigger] r@[y]@[x]) == spec_ms_cell(*self, x, y),
    {
        let mut grid: Vec<Vec<MsCell>> = Vec::new();
        let mut y: usize = 0;
        while y < BOARD_SIZE
            invariant
                0 <= y <= BOARD_SIZE as int,
                self.wf(),
                grid@.len() == y as int,
                forall|a: int| 0 <= a < y as int ==> (#[trigger] grid@[a])@.len()
                    == BOARD_SIZE as int,
                forall|a: int, b: int|
                    0 <= a < y as int && 0 <= b < BOARD_SIZE as int ==> (#[trigger] grid@[a]@[b])
                        == spec_ms_cell(*self, b, a),
            decreases BOARD_SIZE as int - y,
        {
            let mut row: Vec<MsCell> = Vec::new();
            let mut x: usize = 0;
            while x < BOARD_SIZE
                invariant
                    0 <= x <= BOARD_SIZE as int,
                    0 <= y < BOARD_SIZE as int,
                    self.wf(),
                    row@.len() == x as int,
                    forall|b: int| 0 <= b < x as int ==> (#[trigger] row@[b]) == spec_ms_cell(
                        *self,
                        b,
                        y as int,
                    ),
                decreases BOARD_SIZE as int - x,
            {
                let cell = if self.revealed[y][x] {
                    if self.mines[y][x] {
                        MsCell::Mine
                    } else {
                        MsCell::Count(self.board[y][x])
                    }
                } else if self.flagged[y][x] {
                    MsCell::Flagged
                } else {
                    MsCell::Hidden
                };
                row.push(cell);
                x = x + 1;
            }
            grid.push(row);
            y = y + 1;
        }
        grid
    }

    /// One rendered frame for the current phase.
    pub fn render(&mut self, height: u16) -> (r: MsFrame)
        requires
            old(self).wf(),
        ensures
            final(self).wf(),
            old(self).game_state == GameState::Welcome ==> r is Welcome && *final(self) == *old(
                self,
            ),
            old(self).game_state == GameState::Paused ==> r is Paused,
            old(self).game_state == GameState::Paused ==> *final(self) == (MineSweeper {
                compiling: final(self).compiling,
                ..*old(self)
            }) && final(self).compiling == (Compiling {
                display_messages: final(self).compiling.display_messages,
                ..old(self).compiling
            }),
            old(self).game_state == GameState::Paused ==> match r {
                MsFrame::Paused(lines) => {
                    &&& lines@.len() == vstd::math::min(
                        if height >= 2 {
                            (height - 2) as int
                        } else {
                            0
                        },
                        old(self).compiling.messages@.len() as int,
                    )
                    &&& forall|i: int| 0 <= i < lines@.len() ==> (#[trigger] lines@[i]) == old(
                        self,
                    ).compiling.messages@[i]
                },
                _ => false,
            },
            old(self).game_state == GameState::Playing ==> *final(self) == *old(self) && match r {
                MsFrame::Board(grid) => {
                    &&& grid@.len() == BOARD_SIZE as int
                    &&& forall|y: int, x: int|
                        0 <= y < BOARD_SIZE as int && 0 <= x < BOARD_SIZE as int ==> (
                        #[trigger] grid@[y]@[x]) == spec_ms_cell(*old(self), x, y)
                },
                _ => false,
            },
    {
        match self.game_state {
            GameState::Welcome => MsFrame::Welcome,
            GameState::Playing => MsFrame::Board(self.render_game()),
            GameState::Paused => MsFrame::Paused(self.compiling.render(height)),
        }
    }
}

/// The flood-fill reveal never crosses a flagged cell: a flagged safe cell
/// is exactly as revealed after any reveal as it was before.
pub proof fn lemma_reveal_never_crosses_flags(pre: MineSweeper, post: MineSweeper)
    requires
        pre.wf(),
        spec_reveal_rel(pre, post),
    ensures
        forall|x: int, y: int|
            spec_on_board(x, y) && pre.flagged@[y]@[x] && !pre.mines@[y]@[x]
                ==> (#[trigger] post.revealed@[y]@[x]) == pre.revealed@[y]@[x],
{
}

/// Winning by flags takes the flagged set to equal the mine set exactly:
/// while some safe cell is still hidden, any superset or subset mismatch
/// between flags and mines leaves the game unwon and untouched.
pub proof fn lemma_win_by_flags_needs_exact_match(
    pre: MineSweeper,
    post: MineSweeper,
    hx: int,
    hy: int,
    mx: int,
    my: int,
)
    requires
        pre.wf(),
        spec_check_win_rel(pre, post),
        spec_on_board(hx, hy),
        !pre.mines@[hy]@[hx],
        !pre.revealed@[hy]@[hx],
        spec_on_board(mx, my),
        pre.mines@[my]@[mx] != pre.flagged@[my]@[mx],
    ensures
        post == pre,
{
}

} // verus!
