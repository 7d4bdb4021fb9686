use vstd::prelude::*;

use crate::game_manager::CompileLanguage;
use crate::games::compiling::Compiling;
use crate::keys::Key;
use crate::rng::rand_below;
use crate::translation::{Language, Translations};

verus! {

/// The phase the tile-merge game is in.
#[derive(Clone, Copy, PartialEq, Eq, Structural, Debug)]
pub enum GameState {
    Welcome,
    Playing,
    Paused,
}

/// The edge a move slides the tiles toward.
#[derive(Clone, Copy, PartialEq, Eq, Structural, Debug)]
pub enum Direction {
    Up,
    Down,
    Left,
    Right,
}

/// The side length of the square board, in cells.
pub const GRID: usize = 4;

/// The 2048-style tile-merge game: a four-by-four board of tile values
/// (zero for an empty cell), a score, and the phase wrapper.
pub struct TwentyFortyEight {
    pub board: Vec<Vec<u32>>,
    pub score: u32,
    pub game_over: bool,
    pub game_state: GameState,
    pub translations: Translations,
    pub compiling: Compiling,
}

/// The nonzero tiles of a line, in order.
pub open spec fn spec_compact(line: Seq<u32>) -> Seq<u32> {
    line.filter(|v: u32| v != 0)
}

/// Whether the two leading tiles of a compacted line merge: equal, nonzero
/// by construction, and the doubled value still representable.
pub open spec fn spec_can_merge(c: Seq<u32>) -> bool {
    c.len() >= 2 && c[0] == c[1] && c[0] * 2 <= u32::MAX
}

/// One left-to-right merge pass over a compacted line: each tile merges with
/// at most one partner, and a merged result never merges again — no
/// chain-merging within a single move.
pub open spec fn spec_pair_merge(c: Seq<u32>) -> Seq<u32>
    decreases c.len(),
{
    if c.len() == 0 {
        Seq::empty()
    } else if spec_can_merge(c) {
        seq![(c[0] * 2) as u32] + spec_pair_merge(c.skip(2))
    } else {
        seq![c[0]] + spec_pair_merge(c.skip(1))
    }
}

/// The points one merge pass awards: each merged pair contributes its
/// doubled value once.
pub open spec fn spec_merge_score(c: Seq<u32>) -> int
    decreases c.len(),
{
    if c.len() == 0 {
        0
    } else if spec_can_merge(c) {
        c[0] * 2 + spec_merge_score(c.skip(2))
    } else {
        spec_merge_score(c.skip(1))
    }
}

/// `n` empty cells.
pub open spec fn spec_zeros(n: int) -> Seq<u32> {
    Seq::new(
        if n >= 0 {
            n as nat
        } else {
            0
        },
        |i: int| 0u32,
    )
}

/// What a line reads after a move toward its front: the merged tiles
/// compacted to the front, empty cells behind.
pub open spec fn spec_merged_line(line: Seq<u32>) -> Seq<u32> {
    let m = spec_pair_merge(spec_compact(line));
    m + spec_zeros(line.len() as int - m.len() as int)
}

/// A line reversed.
pub open spec fn spec_rev(s: Seq<u32>) -> Seq<u32> {
    s.reverse()
}

/// The total of a line's tile values.
pub open spec fn spec_sum(s: Seq<u32>) -> int
    decreases s.len(),
{
    if s.len() == 0 {
        0
    } else {
        s[0] + spec_sum(s.skip(1))
    }
}

/// `a + b` stuck at the maximum rather than overflowing.
pub open spec fn spec_add_points(a: int, b: int) -> int {
    if a + b > u32::MAX {
        u32::MAX as int
    } else {
        a + b
    }
}

/// A well-formed four-by-four board.
pub open spec fn spec_board_wf(b: Seq<Vec<u32>>) -> bool {
    &&& b.len() == GRID as int
    &&& forall|i: int| 0 <= i < GRID as int ==> (#[trigger] b[i])@.len() == GRID as int
}

/// The line a move works on: row `idx` or column `idx`, read from the move's
/// target edge when `rev` is set.
pub open spec fn spec_extract(b: Seq<Vec<u32>>, idx: int, is_row: bool, rev: bool) -> Seq<u32> {
    let raw = if is_row {
        b[idx]@
    } else {
        Seq::new(GRID as nat, |i: int| b[i]@[idx])
    };
    if rev {
        spec_rev(raw)
    } else {
        raw
    }
}

/// Whether the board holds no empty cell and no merge in any direction: the
/// game is over.
pub open spec fn spec_no_moves(b: Seq<Vec<u32>>) -> bool {
    &&& forall|i: int, j: int| 0 <= i < GRID as int && 0 <= j < GRID as int ==> (#[trigger] b[i]@[j])
        != 0
    &&& forall|i: int, j: int| 0 <= i < GRID as int && 0 <= j < GRID as int - 1 ==> (
    #[trigger] b[i]@[j]) != b[i]@[j + 1]
    &&& forall|i: int, j: int| 0 <= i < GRID as int - 1 && 0 <= j < GRID as int ==> (
    #[trigger] b[i]@[j]) != b[i + 1]@[j]
}

/// Which lines a move works on and from which edge: rows for horizontal
/// moves, columns for vertical ones; sliding toward the high edge reads the
/// line reversed.
pub open spec fn spec_dir_axes(d: Direction) -> (bool, bool) {
    match d {
        Direction::Left => (true, false),
        Direction::Right => (true, true),
        Direction::Up => (false, false),
        Direction::Down => (false, true),
    }
}

/// The score after the first `upto` lines of a move have banked their merge
/// points, each addition clamped.
pub open spec fn spec_score_fold(
    b: Seq<Vec<u32>>,
    s0: int,
    is_row: bool,
    rev: bool,
    upto: int,
) -> int
    decreases upto,
{
    if upto <= 0 {
        s0
    } else {
        spec_add_points(
            spec_score_fold(b, s0, is_row, rev, upto - 1),
            spec_merge_score(spec_compact(spec_extract(b, upto - 1, is_row, rev))),
        )
    }
}

/// What one whole-board move does: only the board and the score change,
/// every affected line reads (from the move's target edge) as its own
/// slide-and-merge result, `moved` says whether any line changed, and the
/// merge points of all four lines are banked in order.
pub open spec fn spec_move_tiles_rel(
    pre: TwentyFortyEight,
    post: TwentyFortyEight,
    direction: Direction,
    moved: bool,
) -> bool {
    let axes = spec_dir_axes(direction);
    &&& post == (TwentyFortyEight { board: post.board, score: post.score, ..pre })
    &&& spec_board_wf(post.board@)
    &&& forall|idx: int| 0 <= idx < GRID as int ==> spec_extract(post.board@, idx, axes.0, axes.1)
        =~= spec_merged_line(spec_extract(pre.board@, idx, axes.0, axes.1))
    &&& moved == exists|idx: int|
        0 <= idx < GRID as int && spec_merged_line(
            #[trigger] spec_extract(pre.board@, idx, axes.0, axes.1),
        ) != spec_extract(pre.board@, idx, axes.0, axes.1)
    &&& post.score as int == spec_score_fold(
        pre.board@,
        pre.score as int,
        axes.0,
        axes.1,
        GRID as int,
    )
}

/// What dropping one fresh tile does: only the board changes; when an empty
/// cell exists, exactly one formerly empty cell now holds a two or a four
/// and every other cell is untouched; a full board stays as it is.
pub open spec fn spec_spawn_rel(pre: TwentyFortyEight, post: TwentyFortyEight) -> bool {
    &&& post == (TwentyFortyEight { board: post.board, ..pre })
    &&& spec_board_wf(post.board@)
    &&& (exists|i: int, j: int|
        0 <= i < GRID as int && 0 <= j < GRID as int && pre.board@[i]@[j] == 0) ==> exists|
        i: int,
        j: int,
    |
        {
            &&& 0 <= i < GRID as int && 0 <= j < GRID as int
            &&& pre.board@[i]@[j] == 0
            &&& (post.board@[i]@[j] == 2 || post.board@[i]@[j] == 4)
            &&& forall|a: int, b: int|
                0 <= a < GRID as int && 0 <= b < GRID as int && (a != i || b != j) ==> (
                #[trigger] post.board@[a]@[b]) == pre.board@[a]@[b]
        }
    &&& (forall|i: int, j: int|
        0 <= i < GRID as int && 0 <= j < GRID as int ==> (#[trigger] pre.board@[i]@[j]) != 0)
        ==> post.board@ =~= pre.board@
}

/// The sum of two lines' totals is the total of their concatenation.
pub proof fn lemma_sum_add(a: Seq<u32>, b: Seq<u32>)
    ensures
        spec_sum(a + b) == spec_sum(a) + spec_sum(b),
    decreases a.len(),
{
    if a.len() == 0 {
        assert(a + b =~= b);
    } else {
        assert((a + b).skip(1) =~= a.skip(1) + b);
        lemma_sum_add(a.skip(1), b);
    }
}

/// Dropping the zeros of a line keeps its total.
pub proof fn lemma_compact_sum(line: Seq<u32>)
    ensures
        spec_sum(spec_compact(line)) == spec_sum(line),
        spec_compact(line).len() <= line.len(),
    decreases line.len(),
{
    reveal(Seq::filter);
    if line.len() > 0 {
        lemma_compact_sum(line.drop_last());
        let pred = |v: u32| v != 0;
        assert(spec_sum(line) == spec_sum(line.drop_last()) + line.last()) by {
            assert(line =~= line.drop_last() + seq![line.last()]);
            lemma_sum_add(line.drop_last(), seq![line.last()]);
            assert(spec_sum(seq![line.last()]) == line.last() + spec_sum(
                seq![line.last()].skip(1),
            ));
            assert(seq![line.last()].skip(1) =~= Seq::<u32>::empty());
        }
        if pred(line.last()) {
            assert(spec_compact(line) == spec_compact(line.drop_last()).push(line.last()));
            assert(spec_compact(line) =~= spec_compact(line.drop_last()) + seq![line.last()]);
            lemma_sum_add(spec_compact(line.drop_last()), seq![line.last()]);
            assert(spec_sum(seq![line.last()]) == line.last() + spec_sum(
                seq![line.last()].skip(1),
            ));
            assert(seq![line.last()].skip(1) =~= Seq::<u32>::empty());
        }
    }
}

/// One merge pass conserves the total, awards at most the line's total, and
/// never lengthens the line.
pub proof fn lemma_pair_merge_sum(c: Seq<u32>)
    ensures
        spec_sum(spec_pair_merge(c)) == spec_sum(c),
        0 <= spec_merge_score(c) <= spec_sum(c),
        spec_pair_merge(c).len() <= c.len(),
        spec_sum(c) >= 0,
    decreases c.len(),
{
    if c.len() == 0 {
    } else if spec_can_merge(c) {
        lemma_pair_merge_sum(c.skip(2));
        assert(c.skip(1).skip(1) =~= c.skip(2));
        assert(spec_sum(c.skip(1)) == c[1] + spec_sum(c.skip(2)));
        lemma_sum_add(seq![(c[0] * 2) as u32], spec_pair_merge(c.skip(2)));
        assert(spec_sum(seq![(c[0] * 2) as u32]) == (c[0] * 2) as u32 + spec_sum(
            seq![(c[0] * 2) as u32].skip(1),
        ));
        assert(seq![(c[0] * 2) as u32].skip(1) =~= Seq::<u32>::empty());
    } else {
        lemma_pair_merge_sum(c.skip(1));
        lemma_sum_add(seq![c[0]], spec_pair_merge(c.skip(1)));
        assert(spec_sum(seq![c[0]]) == c[0] + spec_sum(seq![c[0]].skip(1)));
        assert(seq![c[0]].skip(1) =~= Seq::<u32>::empty());
    }
}

/// Padding with empty cells keeps the total.
pub proof fn lemma_zeros_sum(n: int)
    ensures
        spec_sum(spec_zeros(n)) == 0,
    decreases
            (if n >= 0 {
                n
            } else {
                0
            }),
{
    if n > 0 {
        lemma_zeros_sum(n - 1);
        assert(spec_zeros(n).skip(1) =~= spec_zeros(n - 1));
    }
}

/// A single move of one line merges each tile into at most one pair: the
/// total of the tile values is conserved exactly, and the score the move
/// awards never exceeds the line's total — a chain merge (one tile absorbing
/// two partners in one move) would break that bound.
pub proof fn lemma_move_conserves_sum(line: Seq<u32>)
    ensures
        spec_sum(spec_merged_line(line)) == spec_sum(line),
        0 <= spec_merge_score(spec_compact(line)) <= spec_sum(line),
        spec_merged_line(line).len() == line.len(),
{
    lemma_compact_sum(line);
    lemma_pair_merge_sum(spec_compact(line));
    let m = spec_pair_merge(spec_compact(line));
    lemma_sum_add(m, spec_zeros(line.len() as int - m.len() as int));
    lemma_zeros_sum(line.len() as int - m.len() as int);
}

impl TwentyFortyEight {
    /// The structural invariant: a four-by-four board.
    pub open spec fn wf(self) -> bool {
        spec_board_wf(self.board@)
    }

    /// A fresh game: an empty board with two spawned tiles, no score, the
    /// welcome screen showing.
    pub fn new() -> (g: TwentyFortyEight)
        ensures
            g.wf(),
            g.game_state == GameState::Welcome,
            g.score == 0,
            g.game_over == false,
            exists|i1: int, j1: int, i2: int, j2: int|
                #![trigger g.board@[i1]@[j1], g.board@[i2]@[j2]]
                {
                    &&& 0 <= i1 < GRID as int && 0 <= j1 < GRID as int
                    &&& 0 <= i2 < GRID as int && 0 <= j2 < GRID as int
                    &&& (i1 != i2 || j1 != j2)
                    &&& (g.board@[i1]@[j1] == 2 || g.board@[i1]@[j1] == 4)
                    &&& (g.board@[i2]@[j2] == 2 || g.board@[i2]@[j2] == 4)
                    &&& forall|a: int, b: int|
                        0 <= a < GRID as int && 0 <= b < GRID as int && (a != i1 || b != j1) && (a
                            != i2 || b != j2) ==> (#[trigger] g.board@[a]@[b]) == 0
                },
    {
        let mut row0: Vec<u32> = Vec::new();
        let mut game = TwentyFortyEight {
            board: Vec::new(),
            score: 0,
            game_over: false,
            game_state: GameState::Welcome,
            translations: Translations::new(),
            compiling: Compiling::new(),
        };
        let mut i: usize = 0;
        while i < GRID
            invariant
                0 <= i <= GRID as int,
                game.board@.len() == i as int,
                forall|k: int| 0 <= k < i as int ==> (#[trigger] game.board@[k])@.len()
                    == GRID as int,
                forall|k: int, b: int|
                    0 <= k < i as int && 0 <= b < GRID as int ==> (#[trigger] game.board@[k]@[b])
                        == 0,
                game.score == 0,
                game.game_over == false,
                game.game_state == GameState::Welcome,
            decreases GRID as int - i,
        {
            let mut row: Vec<u32> = Vec::new();
            let mut j: usize = 0;
            while j < GRID
                invariant
                    0 <= j <= GRID as int,
                    row@.len() == j as int,
                    forall|b: int| 0 <= b < j as int ==> (#[trigger] row@[b]) == 0,
                decreases GRID as int - j,
            {
                row.push(0);
                j = j + 1;
            }
            game.board.push(row);
            i = i + 1;
        }
        let ghost g0 = game.board@;
        proof {
            assert(g0[0]@[0] == 0);
        }
        game.spawn_new_tile();
        let ghost g1 = game.board@;
        proof {
            let (i1, j1) = choose|i1: int, j1: int|
                {
                    &&& 0 <= i1 < GRID as int && 0 <= j1 < GRID as int
                    &&& g0[i1]@[j1] == 0
                    &&& (g1[i1]@[j1] == 2 || g1[i1]@[j1] == 4)
                    &&& forall|a: int, b: int|
                        0 <= a < GRID as int && 0 <= b < GRID as int && (a != i1 || b != j1) ==> (
                        #[trigger] g1[a]@[b]) == g0[a]@[b]
                };
            if i1 != 0 || j1 != 0 {
                assert(g1[0]@[0] == 0);
            } else {
                assert(g1[0]@[1] == 0);
            }
        }
        game.spawn_new_tile();
        proof {
            let g2 = game.board@;
            let (i1, j1) = choose|i1: int, j1: int|
                {
                    &&& 0 <= i1 < GRID as int && 0 <= j1 < GRID as int
                    &&& g0[i1]@[j1] == 0
                    &&& (g1[i1]@[j1] == 2 || g1[i1]@[j1] == 4)
                    &&& forall|a: int, b: int|
                        0 <= a < GRID as int && 0 <= b < GRID as int && (a != i1 || b != j1) ==> (
                        #[trigger] g1[a]@[b]) == g0[a]@[b]
                };
            let (i2, j2) = choose|i2: int, j2: int|
                {
                    &&& 0 <= i2 < GRID as int && 0 <= j2 < GRID as int
                    &&& g1[i2]@[j2] == 0
                    &&& (g2[i2]@[j2] == 2 || g2[i2]@[j2] == 4)
                    &&& forall|a: int, b: int|
                        0 <= a < GRID as int && 0 <= b < GRID as int && (a != i2 || b != j2) ==> (
                        #[trigger] g2[a]@[b]) == g1[a]@[b]
                };
            assert(i1 != i2 || j1 != j2);
            assert(g2[i1]@[j1] == g1[i1]@[j1]);
            assert forall|a: int, b: int|
                0 <= a < GRID as int && 0 <= b < GRID as int && (a != i1 || b != j1) && (a != i2
                    || b != j2) implies (#[trigger] g2[a]@[b]) == 0 by {
                assert(g2[a]@[b] == g1[a]@[b]);
                assert(g1[a]@[b] == g0[a]@[b]);
            }
        }
        game
    }

    /// Selects the language the game's texts use.
    pub fn set_language(&mut self, language: Language)
        ensures
            *final(self) == (TwentyFortyEight {
                translations: final(self).translations,
                ..*old(self)
            }),
            final(self).translations == (Translations {
                current_language: language,
                ..old(self).translations
            }),
    {
        self.translations.set_language(language);
    }

    /// Selects the build log the pause overlay scrolls through.
    pub fn set_compile_language(&mut self, language: CompileLanguage)
        ensures
            *final(self) == (TwentyFortyEight { compiling: final(self).compiling, ..*old(self) }),
            final(self).compiling.current_language == language,
    {
        self.compiling.set_language(language);
    }

    /// One tick: only the pause overlay ever moves on its own.
    pub fn update(&mut self)
        ensures
            *final(self) == (TwentyFortyEight { compiling: final(self).compiling, ..*old(self) }),
            if old(self).game_state == GameState::Paused {
                crate::games::compiling::spec_ticked(old(self).compiling, final(self).compiling)
            } else {
                final(self).compiling == old(self).compiling
            },
    {
        if self.game_state == GameState::Paused {
            self.compiling.update();
        }
    }

    /// Slides and merges the line toward its front: compact, merge pairs
    /// left to right, compact again, and bank the merge points. The result
    /// says whether the line changed.
    fn merge_vec(line: &Vec<u32>) -> (res: (Vec<u32>, u64))
        requires
            line@.len() <= 16,
        ensures
            res.0@ == spec_merged_line(line@),
            res.1 as int == spec_merge_score(spec_compact(line@)),
    {
        let mut c: Vec<u32> = Vec::new();
        let mut i: usize = 0;
        while i < line.len()
            invariant
                0 <= i <= line@.len(),
                c@ == spec_compact(line@.take(i as int)),
            decreases line@.len() - i,
        {
            let v = line[i];
            proof {
                reveal(Seq::filter);
                assert(line@.take(i as int + 1).drop_last() =~= line@.take(i as int));
                assert(line@.take(i as int + 1).last() == line@[i as int]);
            }
            if v != 0 {
                c.push(v);
            }
            i = i + 1;
        }
        proof {
            assert(line@.take(line@.len() as int) =~= line@);
        }

        let mut out: Vec<u32> = Vec::new();
        let mut gained: u64 = 0;
        let mut k: usize = 0;
        proof {
            assert(c@.skip(0) =~= c@);
            assert(out@ + spec_pair_merge(c@) =~= spec_pair_merge(c@));
        }
        while k < c.len()
            invariant
                0 <= k <= c@.len(),
                c@.len() <= line@.len(),
                spec_pair_merge(c@) == out@ + spec_pair_merge(c@.skip(k as int)),
                spec_merge_score(c@) == gained + spec_merge_score(c@.skip(k as int)),
                out@.len() <= k as int,
                c@.len() <= 16,
                gained <= k as int * (u32::MAX as int),
            decreases c@.len() - k,
        {
            let ghost rest = c@.skip(k as int);
            if k + 1 < c.len() && c[k] == c[k + 1] && c[k] <= u32::MAX / 2 {
                proof {
                    assert(rest[0] == c@[k as int]);
                    assert(rest[1] == c@[k as int + 1]);
                    assert(spec_can_merge(rest));
                    assert(rest.skip(2) =~= c@.skip(k as int + 2));
                    assert(spec_pair_merge(rest) == seq![(rest[0] * 2) as u32] + spec_pair_merge(
                        c@.skip(k as int + 2),
                    ));
                    assert(out@.push((rest[0] * 2) as u32) + spec_pair_merge(
                        c@.skip(k as int + 2),
                    ) =~= out@ + spec_pair_merge(rest));
                }
                out.push(c[k] * 2);
                gained = gained + (c[k] as u64) * 2;
                k = k + 2;
            } else {
                proof {
                    assert(rest[0] == c@[k as int]);
                    assert(!spec_can_merge(rest));
                    assert(rest.skip(1) =~= c@.skip(k as int + 1));
                    assert(spec_pair_merge(rest) == seq![rest[0]] + spec_pair_merge(
                        c@.skip(k as int + 1),
                    ));
                    assert(out@.push(rest[0]) + spec_pair_merge(c@.skip(k as int + 1)) =~= out@
                        + spec_pair_merge(rest));
                }
                out.push(c[k]);
                k = k + 1;
            }
        }
        proof {
            assert(c@.skip(c@.len() as int) =~= Seq::<u32>::empty());
            assert(spec_pair_merge(c@) =~= out@);
        }

        let ghost m = spec_pair_merge(c@);
        while out.len() < line.len()
            invariant
                m =~= spec_pair_merge(spec_compact(line@)),
                out@.len() >= m.len(),
                out@ == m + spec_zeros(out@.len() as int - m.len() as int),
                out@.len() <= line@.len(),
            decreases line@.len() - out@.len(),
        {
            proof {
                assert((m + spec_zeros(out@.len() as int - m.len() as int)).push(0u32) =~= m
                    + spec_zeros(out@.len() as int + 1 - m.len() as int));
            }
            out.push(0);
        }
        proof {
            assert(out@ =~= spec_merged_line(line@));
        }
        (out, gained)
    }

    /// Applies one move to row or column `index`, sliding toward the low
    /// edge, or toward the high edge when `reverse` is set. The merge points
    /// are banked; the result says whether the line changed.
    pub fn merge_line(&mut self, index: usize, is_row: bool, reverse: bool) -> (moved: bool)
        requires
            old(self).wf(),
            index < GRID,
        ensures
            final(self).wf(),
            *final(self) == (TwentyFortyEight {
                board: final(self).board,
                score: final(self).score,
                ..*old(self)
            }),
            ({
                let line = spec_extract(old(self).board@, index as int, is_row, reverse);
                let merged = spec_merged_line(line);
                let written = if reverse {
                    spec_rev(merged)
                } else {
                    merged
                };
                &&& moved == (merged != line)
                &&& final(self).score as int == spec_add_points(
                    old(self).score as int,
                    spec_merge_score(spec_compact(line)),
                )
                &&& if is_row {
                    final(self).board@ =~= old(self).board@.update(
                        index as int,
                        final(self).board@[index as int],
                    ) && final(self).board@[index as int]@ =~= written
                } else {
                    &&& final(self).board@.len() == GRID as int
                    &&& forall|i: int, j: int|
                        0 <= i < GRID as int && 0 <= j < GRID as int && j != index as int ==> (
                        #[trigger] final(self).board@[i]@[j]) == old(self).board@[i]@[j]
                    &&& forall|i: int| 0 <= i < GRID as int
                        ==> (#[trigger] final(self).board@[i]@[index as int]) == written[i]
                }
            }),
    {
        let ghost pre = *old(self);
        let mut line: Vec<u32> = Vec::new();
        if is_row {
            let mut j: usize = 0;
            while j < GRID
                invariant
                    0 <= j <= GRID as int,
                    self == old(self),
                    self.wf(),
                    index < GRID,
                    line@.len() == j as int,
                    forall|t: int| 0 <= t < j as int ==> line@[t] == self.board@[index as int]@[t],
                decreases GRID as int - j,
            {
                line.push(self.board[index][j]);
                j = j + 1;
            }
        } else {
            let mut i: usize = 0;
            while i < GRID
                invariant
                    0 <= i <= GRID as int,
                    self == old(self),
                    self.wf(),
                    index < GRID,
                    line@.len() == i as int,
                    forall|t: int| 0 <= t < i as int ==> line@[t] == self.board@[t]@[index as int],
                decreases GRID as int - i,
            {
                line.push(self.board[i][index]);
                i = i + 1;
            }
        }
        if reverse {
            let mut rev: Vec<u32> = Vec::new();
            let mut t: usize = 0;
            while t < GRID
                invariant
                    0 <= t <= GRID as int,
                    line@.len() == GRID as int,
                    rev@.len() == t as int,
                    forall|q: int| 0 <= q < t as int ==> rev@[q] == line@[GRID as int - 1 - q],
                decreases GRID as int - t,
            {
                rev.push(line[GRID - 1 - t]);
                t = t + 1;
            }
            line = rev;
        }
        proof {
            assert(line@ =~= spec_extract(pre.board@, index as int, is_row, reverse));
        }

        let (merged, gained) = Self::merge_vec(&line);
        let moved = !Self::lines_equal(&merged, &line);
        proof {
            lemma_move_conserves_sum(line@);
        }

        let mut written = merged;
        if reverse {
            let mut rev: Vec<u32> = Vec::new();
            let mut t: usize = 0;
            proof {
                lemma_move_conserves_sum(line@);
            }
            while t < GRID
                invariant
                    0 <= t <= GRID as int,
                    written@.len() == GRID as int,
                    rev@.len() == t as int,
                    forall|q: int| 0 <= q < t as int ==> rev@[q] == written@[GRID as int - 1 - q],
                decreases GRID as int - t,
            {
                rev.push(written[GRID - 1 - t]);
                t = t + 1;
            }
            proof {
                assert(rev@ =~= spec_rev(written@));
            }
            written = rev;
        }

        if is_row {
            self.board[index] = written;
        } else {
            let mut i: usize = 0;
            while i < GRID
                invariant
                    0 <= i <= GRID as int,
                    index < GRID,
                    written@.len() == GRID as int,
                    self.wf(),
                    spec_board_wf(pre.board@),
                    *self == (TwentyFortyEight { board: self.board, ..pre }),
                    self.board@.len() == GRID as int,
                    forall|a: int, b: int|
                        0 <= a < GRID as int && 0 <= b < GRID as int && b != index as int ==> (
                        #[trigger] self.board@[a]@[b]) == pre.board@[a]@[b],
                    forall|a: int| 0 <= a < i as int
                        ==> (#[trigger] self.board@[a]@[index as int]) == written@[a],
                    forall|a: int| i as int <= a < GRID as int
                        ==> (#[trigger] self.board@[a]@[index as int]) == pre.board@[a]@[index as int],
                decreases GRID as int - i,
            {
                self.board[i][index] = written[i];
                i = i + 1;
            }
        }
        let add: u32 = if gained > u32::MAX as u64 {
            u32::MAX
        } else {
            gained as u32
        };
        self.score = if self.score > u32::MAX - add {
            u32::MAX
        } else {
            self.score + add
        };
        proof {
            lemma_pair_merge_sum(spec_compact(line@));
            lemma_compact_sum(line@);
            assert(self.score as int == spec_add_points(
                pre.score as int,
                spec_merge_score(spec_compact(line@)),
            ));
        }
        moved
    }

    /// Whether two lines hold the same tiles.
    fn lines_equal(a: &Vec<u32>, b: &Vec<u32>) -> (r: bool)
        ensures
            r == (a@ == b@),
    {
        if a.len() != b.len() {
            proof {
                assert(a@ != b@);
            }
            return false;
        }
        let mut i: usize = 0;
        while i < a.len()
            invariant
                0 <= i <= a@.len(),
                a@.len() == b@.len(),
                forall|j: int| 0 <= j < i as int ==> a@[j] == b@[j],
            decreases a@.len() - i,
        {
            if a[i] != b[i] {
                return false;
            }
            i = i + 1;
        }
        proof {
            assert(a@ =~= b@);
        }
        true
    }

    /// Applies one move to the whole board, line by line: every affected
    /// line reads, from the move's target edge, as its own slide-and-merge
    /// result; the merge points of each line are banked in order.
    pub fn move_tiles(&mut self, direction: Direction) -> (moved: bool)
        requires
            old(self).wf(),
        ensures
            final(self).wf(),
            spec_move_tiles_rel(*old(self), *final(self), direction, moved),
    {
        let mut moved = false;
        let (is_row, reverse) = match direction {
            Direction::Left => (true, false),
            Direction::Right => (true, true),
            Direction::Up => (false, false),
            Direction::Down => (false, true),
        };
        let ghost mut wmv: int = 0int;
        let mut idx: usize = 0;
        while idx < GRID
            invariant
                0 <= idx <= GRID as int,
                self.wf(),
                spec_board_wf(old(self).board@),
                (is_row, reverse) == spec_dir_axes(direction),
                *self == (TwentyFortyEight { board: self.board, score: self.score, ..*old(self) }),
                forall|q: int| 0 <= q < idx as int ==> spec_extract(
                    self.board@,
                    q,
                    is_row,
                    reverse,
                ) =~= spec_merged_line(spec_extract(old(self).board@, q, is_row, reverse)),
                forall|q: int| idx as int <= q < GRID as int ==> spec_extract(
                    self.board@,
                    q,
                    is_row,
                    reverse,
                ) =~= spec_extract(old(self).board@, q, is_row, reverse),
                moved ==> 0 <= wmv < idx as int && spec_merged_line(
                    spec_extract(old(self).board@, wmv, is_row, reverse),
                ) != spec_extract(old(self).board@, wmv, is_row, reverse),
                !moved ==> forall|q: int| 0 <= q < idx as int ==> spec_merged_line(
                    #[trigger] spec_extract(old(self).board@, q, is_row, reverse),
                ) == spec_extract(old(self).board@, q, is_row, reverse),
                self.score as int == spec_score_fold(
                    old(self).board@,
                    old(self).score as int,
                    is_row,
                    reverse,
                    idx as int,
                ),
            decreases GRID as int - idx,
        {
            let ghost before = *self;
            let m = self.merge_line(idx, is_row, reverse);
            proof {
                assert(spec_extract(before.board@, idx as int, is_row, reverse) =~= spec_extract(
                    old(self).board@,
                    idx as int,
                    is_row,
                    reverse,
                ));
                lemma_move_conserves_sum(spec_extract(old(self).board@, idx as int, is_row, reverse));
                if m {
                    wmv = idx as int;
                }
                assert forall|q: int| 0 <= q < GRID as int && q != idx as int
                    implies spec_extract(self.board@, q, is_row, reverse) =~= spec_extract(
                    before.board@,
                    q,
                    is_row,
                    reverse,
                ) by {
                    if is_row {
                        assert(self.board@[q] == before.board@[q]);
                    }
                }
                assert forall|q: int| 0 <= q < idx as int implies spec_extract(
                    self.board@,
                    q,
                    is_row,
                    reverse,
                ) =~= spec_merged_line(spec_extract(old(self).board@, q, is_row, reverse)) by {
                    assert(spec_extract(self.board@, q, is_row, reverse) =~= spec_extract(
                        before.board@,
                        q,
                        is_row,
                        reverse,
                    ));
                    assert(spec_extract(before.board@, q, is_row, reverse) =~= spec_merged_line(
                        spec_extract(old(self).board@, q, is_row, reverse),
                    ));
                }
                assert(spec_extract(self.board@, idx as int, is_row, reverse)
                    =~= spec_merged_line(spec_extract(old(self).board@, idx as int, is_row, reverse)))
                by {
                    let merged = spec_merged_line(
                        spec_extract(before.board@, idx as int, is_row, reverse),
                    );
                    lemma_move_conserves_sum(
                        spec_extract(before.board@, idx as int, is_row, reverse),
                    );
                    if reverse {
                        assert(spec_rev(spec_rev(merged)) =~= merged);
                    }
                }
            }
            moved = moved || m;
            idx = idx + 1;
        }
        moved
    }

    /// Drops a fresh tile — a two nine times out of ten, else a four — on a
    /// random empty cell; a full board is left as it is.
    pub fn spawn_new_tile(&mut self)
        requires
            old(self).wf(),
        ensures
            final(self).wf(),
            spec_spawn_rel(*old(self), *final(self)),
    {
        let mut empty_cells: Vec<(usize, usize)> = Vec::new();
        let mut i: usize = 0;
        while i < GRID
            invariant
                0 <= i <= GRID as int,
                self == old(self),
                self.wf(),
                empty_cells@.len() <= i as int * GRID as int,
                forall|k: int| 0 <= k < empty_cells@.len() ==> {
                    &&& 0 <= (#[trigger] empty_cells@[k]).0 < GRID as int
                    &&& 0 <= empty_cells@[k].1 < GRID as int
                    &&& self.board@[empty_cells@[k].0 as int]@[empty_cells@[k].1 as int] == 0
                },
                empty_cells@.len() == 0 ==> forall|a: int, b: int|
                    0 <= a < i as int && 0 <= b < GRID as int ==> (#[trigger] self.board@[a]@[b])
                        != 0,
            decreases GRID as int - i,
        {
            let mut j: usize = 0;
            while j < GRID
                invariant
                    0 <= j <= GRID as int,
                    0 <= i < GRID as int,
                    self == old(self),
                    self.wf(),
                    empty_cells@.len() <= i as int * GRID as int + j as int,
                    forall|k: int| 0 <= k < empty_cells@.len() ==> {
                        &&& 0 <= (#[trigger] empty_cells@[k]).0 < GRID as int
                        &&& 0 <= empty_cells@[k].1 < GRID as int
                        &&& self.board@[empty_cells@[k].0 as int]@[empty_cells@[k].1 as int] == 0
                    },
                    empty_cells@.len() == 0 ==> forall|a: int, b: int|
                        0 <= a < i as int && 0 <= b < GRID as int ==> (
                        #[trigger] self.board@[a]@[b]) != 0,
                    empty_cells@.len() == 0 ==> forall|b: int|
                        0 <= b < j as int ==> (#[trigger] self.board@[i as int]@[b]) != 0,
                decreases GRID as int - j,
            {
                if self.board[i][j] == 0 {
                    empty_cells.push((i, j));
                    proof {
                        assert(empty_cells@[empty_cells@.len() - 1] == (i, j));
                    }
                }
                j = j + 1;
            }
            i = i + 1;
        }
        if empty_cells.len() == 0 {
            return;
        }
        let pick = rand_below(empty_cells.len() as u32) as usize;
        let (ci, cj) = empty_cells[pick];
        let value: u32 = if rand_below(10) < 9 {
            2
        } else {
            4
        };
        self.board[ci][cj] = value;
    }

    /// Recomputes whether the game is lost: no empty cell and no two equal
    /// neighbors anywhere.
    pub fn check_game_over(&mut self)
        requires
            old(self).wf(),
        ensures
            final(self).wf(),
            *final(self) == (TwentyFortyEight { game_over: final(self).game_over, ..*old(self) }),
            final(self).game_over == spec_no_moves(old(self).board@),
    {
        let mut has_empty = false;
        let mut can_merge = false;
        let ghost mut we: (int, int) = (0int, 0int);
        let ghost mut wm: (int, int, bool) = (0int, 0int, true);
        let mut i: usize = 0;
        while i < GRID
            invariant
                0 <= i <= GRID as int,
                self == old(self),
                self.wf(),
                has_empty ==> 0 <= we.0 < GRID as int && 0 <= we.1 < GRID as int
                    && self.board@[we.0]@[we.1] == 0,
                !has_empty ==> forall|a: int, b: int|
                    0 <= a < i as int && 0 <= b < GRID as int ==> (#[trigger] self.board@[a]@[b])
                        != 0,
                can_merge ==> 0 <= wm.0 < GRID as int && 0 <= wm.1 < GRID as int && (if wm.2 {
                    wm.1 < GRID as int - 1 && self.board@[wm.0]@[wm.1] == self.board@[wm.0]@[wm.1
                        + 1]
                } else {
                    wm.0 < GRID as int - 1 && self.board@[wm.0]@[wm.1] == self.board@[wm.0
                        + 1]@[wm.1]
                }),
                !can_merge ==> forall|a: int, b: int|
                    0 <= a < i as int && 0 <= b < GRID as int - 1 ==> (
                    #[trigger] self.board@[a]@[b]) != self.board@[a]@[b + 1],
                !can_merge ==> forall|a: int, b: int|
                    0 <= a < i as int && a < GRID as int - 1 && 0 <= b < GRID as int ==> (
                    #[trigger] self.board@[a]@[b]) != self.board@[a + 1]@[b],
            decreases GRID as int - i,
        {
            let mut j: usize = 0;
            while j < GRID
                invariant
                    0 <= j <= GRID as int,
                    0 <= i < GRID as int,
                    self == old(self),
                    self.wf(),
                    has_empty ==> 0 <= we.0 < GRID as int && 0 <= we.1 < GRID as int
                        && self.board@[we.0]@[we.1] == 0,
                    !has_empty ==> forall|a: int, b: int|
                        0 <= a < i as int && 0 <= b < GRID as int ==> (
                        #[trigger] self.board@[a]@[b]) != 0,
                    !has_empty ==> forall|b: int|
                        0 <= b < j as int ==> (#[trigger] self.board@[i as int]@[b]) != 0,
                    can_merge ==> 0 <= wm.0 < GRID as int && 0 <= wm.1 < GRID as int && (if wm.2 {
                        wm.1 < GRID as int - 1 && self.board@[wm.0]@[wm.1] == self.board@[wm.0]@[
                            wm.1 + 1]
                    } else {
                        wm.0 < GRID as int - 1 && self.board@[wm.0]@[wm.1] == self.board@[wm.0
                            + 1]@[wm.1]
                    }),
                    !can_merge ==> forall|a: int, b: int|
                        0 <= a < i as int && 0 <= b < GRID as int - 1 ==> (
                        #[trigger] self.board@[a]@[b]) != self.board@[a]@[b + 1],
                    !can_merge ==> forall|a: int, b: int|
                        0 <= a < i as int && a < GRID as int - 1 && 0 <= b < GRID as int ==> (
                        #[trigger] self.board@[a]@[b]) != self.board@[a + 1]@[b],
                    !can_merge ==> forall|b: int|
                        0 <= b < j as int && b < GRID as int - 1 ==> (#[trigger] self.board@[
                            i as int]@[b]) != self.board@[i as int]@[b + 1],
                    !can_merge ==> forall|b: int|
                        0 <= b < j as int && (i as int) < GRID as int - 1 ==> (
                        #[trigger] self.board@[i as int]@[b]) != self.board@[i as int + 1]@[b],
                decreases GRID as int - j,
            {
                if self.board[i][j] == 0 {
                    has_empty = true;
                    proof {
                        we = (i as int, j as int);
                    }
                }
                if j < GRID - 1 && self.board[i][j] == self.board[i][j + 1] {
                    can_merge = true;
                    proof {
                        wm = (i as int, j as int, true);
                    }
                }
                if i < GRID - 1 && self.board[i][j] == self.board[i + 1][j] {
                    can_merge = true;
                    proof {
                        wm = (i as int, j as int, false);
                    }
                }
                j = j + 1;
            }
            i = i + 1;
        }
        self.game_over = !has_empty && !can_merge;
        proof {
            if has_empty {
                assert(self.board@[we.0]@[we.1] == 0);
                assert(!spec_no_moves(self.board@));
            }
            if can_merge {
                assert(!spec_no_moves(self.board@));
            }
        }
    }
}

impl TwentyFortyEight {
    /// Routes one key event. After a game over only R acts: it reinitializes
    /// the game in place and returns straight to play. While playing, an
    /// arrow or WASD key applies the move; only a move that changed the
    /// board spawns a fresh tile and re-checks for the end of the game. P or
    /// Esc pauses and resumes. The result says whether the key did anything.
    pub fn handle_input(&mut self, key: Key) -> (r: bool)
        requires
            old(self).wf(),
        ensures
            final(self).wf(),
            old(self).game_over ==> {
                if key == Key::Char('r') {
                    &&& r == true
                    &&& final(self).game_state == GameState::Playing
                    &&& final(self).game_over == false
                    &&& final(self).score == 0
                } else {
                    r == false && *final(self) == *old(self)
                }
            },
            !old(self).game_over ==> match old(self).game_state {
                GameState::Welcome => {
                    if key == Key::Enter {
                        r == true && *final(self) == (TwentyFortyEight {
                            game_state: GameState::Playing,
                            ..*old(self)
                        })
                    } else {
                        r == false && *final(self) == *old(self)
                    }
                },
                GameState::Playing => {
                    if key == Key::Char('p') || key == Key::Esc {
                        r == true && *final(self) == (TwentyFortyEight {
                            game_state: GameState::Paused,
                            ..*old(self)
                        })
                    } else {
                        match spec_key_direction(key) {
                            Some(d) => {
                                let axes = spec_dir_axes(d);
                                &&& *final(self) == (TwentyFortyEight {
                                    board: final(self).board,
                                    score: final(self).score,
                                    game_over: final(self).game_over,
                                    ..*old(self)
                                })
                                &&& r == exists|idx: int|
                                    0 <= idx < GRID as int && spec_merged_line(
                                        #[trigger] spec_extract(
                                            old(self).board@,
                                            idx,
                                            axes.0,
                                            axes.1,
                                        ),
                                    ) != spec_extract(old(self).board@, idx, axes.0, axes.1)
                                &&& !r ==> final(self).game_over == old(self).game_over
                                    && forall|i: int, j: int|
                                    0 <= i < GRID as int && 0 <= j < GRID as int ==> (
                                    #[trigger] final(self).board@[i]@[j]) == old(
                                        self,
                                    ).board@[i]@[j]
                                &&& r ==> final(self).game_over == spec_no_moves(
                                    final(self).board@,
                                )
                                &&& !r ==> spec_move_tiles_rel(*old(self), *final(self), d, r)
                                &&& r ==> exists|mid: TwentyFortyEight|
                                    #![trigger spec_move_tiles_rel(*old(self), mid, d, r)]
                                    {
                                        &&& spec_move_tiles_rel(*old(self), mid, d, r)
                                        &&& spec_spawn_rel(
                                            mid,
                                            (TwentyFortyEight {
                                                game_over: mid.game_over,
                                                ..*final(self)
                                            }),
                                        )
                                    }
                            },
                            None => r == false && *final(self) == *old(self),
                        }
                    }
                },
                GameState::Paused => {
                    if key == Key::Char('p') || key == Key::Esc {
                        r == true && *final(self) == (TwentyFortyEight {
                            game_state: GameState::Playing,
                            ..*old(self)
                        })
                    } else {
                        r == false && *final(self) == *old(self)
                    }
                },
            },
    {
        if self.game_over {
            if key == Key::Char('r') {
                *self = Self::new();
                self.game_state = GameState::Playing;
                return true;
            }
            return false;
        }

        match self.game_state {
            GameState::Welcome => {
                if key == Key::Enter {
                    self.game_state = GameState::Playing;
                    true
                } else {
                    false
                }
            },
            GameState::Playing => {
                if key == Key::Char('p') || key == Key::Esc {
                    self.game_state = GameState::Paused;
                    return true;
                }
                let dir: Option<Direction> = match key {
                    Key::Left | Key::Char('a') => Some(Direction::Left),
                    Key::Right | Key::Char('d') => Some(Direction::Right),
                    Key::Up | Key::Char('w') => Some(Direction::Up),
                    Key::Down | Key::Char('s') => Some(Direction::Down),
                    _ => None,
                };
                match dir {
                    Some(d) => {
                        let ghost pre = *self;
                        let moved = self.move_tiles(d);
                        let ghost mid = *self;
                        proof {
                            if !moved {
                                let axes = spec_dir_axes(d);
                                assert forall|i: int, j: int|
                                    0 <= i < GRID as int && 0 <= j < GRID as int implies (
                                #[trigger] self.board@[i]@[j]) == pre.board@[i]@[j] by {
                                    if axes.0 {
                                        assert(spec_extract(self.board@, i, true, axes.1)
                                            =~= spec_extract(pre.board@, i, true, axes.1));
                                        if axes.1 {
                                            assert(spec_extract(self.board@, i, true, true)[
                                                GRID as int - 1 - j] == self.board@[i]@[j]);
                                        } else {
                                            assert(spec_extract(self.board@, i, true, false)[j]
                                                == self.board@[i]@[j]);
                                        }
                                    } else {
                                        assert(spec_extract(self.board@, j, false, axes.1)
                                            =~= spec_extract(pre.board@, j, false, axes.1));
                                        if axes.1 {
                                            assert(spec_extract(self.board@, j, false, true)[
                                                GRID as int - 1 - i] == self.board@[i]@[j]);
                                        } else {
                                            assert(spec_extract(self.board@, j, false, false)[i]
                                                == self.board@[i]@[j]);
                                        }
                                    }
                                }
                            }
                        }
                        if moved {
                            self.spawn_new_tile();
                            let ghost mid2 = *self;
                            self.check_game_over();
                            proof {
                                assert(spec_move_tiles_rel(pre, mid, d, moved));
                                assert((TwentyFortyEight { game_over: mid.game_over, ..*self })
                                    == mid2);
                                assert(spec_spawn_rel(
                                    mid,
                                    (TwentyFortyEight { game_over: mid.game_over, ..*self }),
                                ));
                            }
                        }
                        moved
                    },
                    None => false,
                }
            },
            GameState::Paused => {
                if key == Key::Char('p') || key == Key::Esc {
                    self.game_state = GameState::Playing;
                    true
                } else {
                    false
                }
            },
        }
    }

    /// One rendered frame for the current phase: the welcome text, a copy of
    /// the board, or the pause overlay's log lines for a viewport of
    /// `height` rows.
    pub fn render(&mut self, height: u16) -> (r: TfeFrame)
        requires
            old(self).wf(),
        ensures
            final(self).wf(),
            old(self).game_state == GameState::Welcome ==> r is Welcome && *final(self) == *old(
                self,
            ),
            old(self).game_state == GameState::Paused ==> r is Paused,
            old(self).game_state == GameState::Paused ==> *final(self) == (TwentyFortyEight {
                compiling: final(self).compiling,
                ..*old(self)
            }) && final(self).compiling == (Compiling {
                display_messages: final(self).compiling.display_messages,
                ..old(self).compiling
            }),
            old(self).game_state == GameState::Paused ==> match r {
                TfeFrame::Paused(lines) => {
                    &&& lines@.len() == vstd::math::min(
                        if height >= 2 {
                            (height - 2) as int
                        } else {
                            0
                        },
                        old(self).compiling.messages@.len() as int,
                    )
                    &&& forall|i: int| 0 <= i < lines@.len() ==> (#[trigger] lines@[i]) == old(
                        self,
                    ).compiling.messages@[i]
                },
                _ => false,
            },
            old(self).game_state == GameState::Playing ==> *final(self) == *old(self) && match r {
                TfeFrame::Board(copy) => {
                    &&& copy@.len() == GRID as int
                    &&& forall|i: int, j: int|
                        0 <= i < GRID as int && 0 <= j < GRID as int ==> (
                        #[trigger] copy@[i]@[j]) == old(self).board@[i]@[j]
                },
                _ => false,
            },
    {
        match self.game_state {
            GameState::Welcome => TfeFrame::Welcome,
            GameState::Playing => {
                let mut copy: Vec<Vec<u32>> = Vec::new();
                let mut i: usize = 0;
                while i < GRID
                    invariant
                        0 <= i <= GRID as int,
                        self.wf(),
                        copy@.len() == i as int,
                        forall|a: int| 0 <= a < i as int ==> (#[trigger] copy@[a])@.len()
                            == GRID as int,
                        forall|a: int, b: int|
                            0 <= a < i as int && 0 <= b < GRID as int ==> (
                            #[trigger] copy@[a]@[b]) == self.board@[a]@[b],
                    decreases GRID as int - i,
                {
                    let mut row: Vec<u32> = Vec::new();
                    let mut j: usize = 0;
                    while j < GRID
                        invariant
                            0 <= j <= GRID as int,
                            0 <= i < GRID as int,
                            self.wf(),
                            row@.len() == j as int,
                            forall|b: int| 0 <= b < j as int ==> (#[trigger] row@[b])
                                == self.board@[i as int]@[b],
                        decreases GRID as int - j,
                    {
                        row.push(self.board[i][j]);
                        j = j + 1;
                    }
                    copy.push(row);
                    i = i + 1;
                }
                TfeFrame::Board(copy)
            },
            GameState::Paused => TfeFrame::Paused(self.compiling.render(height)),
        }
    }
}

/// What the tile-merge render produces for one frame.
pub enum TfeFrame {
    Welcome,
    Board(Vec<Vec<u32>>),
    Paused(Vec<String>),
}

/// The move an arrow or WASD key requests, if any.
pub open spec fn spec_key_direction(key: Key) -> Option<Direction> {
    match key {
        Key::Left => Some(Direction::Left),
        Key::Char('a') => Some(Direction::Left),
        Key::Right => Some(Direction::Right),
        Key::Char('d') => Some(Direction::Right),
        Key::Up => Some(Direction::Up),
        Key::Char('w') => Some(Direction::Up),
        Key::Down => Some(Direction::Down),
        Key::Char('s') => Some(Direction::Down),
        _ => None,
    }
}

} // verus!
