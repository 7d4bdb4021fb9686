use vstd::prelude::*;

use crate::game_manager::CompileLanguage;
use crate::games::compiling::Compiling;
use crate::keys::Key;
use crate::rng::rand_below;
use crate::translation::{Language, Translations};
use std::collections::VecDeque;

verus! {

/// The phase the snake game is in.
#[derive(Clone, Copy, PartialEq, Eq, Structural, Debug)]
pub enum GameState {
    Welcome,
    Playing,
    Paused,
}

/// The snake's travel direction.
#[derive(Clone, Copy, PartialEq, Eq, Structural, Debug)]
pub enum Direction {
    Up,
    Down,
    Left,
    Right,
}

/// A cell of the 20-by-20 board.
#[derive(Clone, Copy, PartialEq, Eq, Structural, Debug)]
pub struct Position {
    pub x: i32,
    pub y: i32,
}

/// What kind of food is on the board: an apple fills a 2-by-2 block, a candy
/// a single cell.
#[derive(Clone, Copy, PartialEq, Eq, Structural, Debug)]
pub enum FoodType {
    Apple,
    Candy,
}

/// The food currently on the board: its base cell, its kind, and every cell
/// it occupies.
pub struct Food {
    pub position: Position,
    pub food_type: FoodType,
    pub positions: Vec<Position>,
}

/// The side length of the square board, in cells.
pub const BOARD_SIZE: i32 = 20;

/// The points an apple and a candy award.
pub const APPLE_POINTS: u32 = 50;

pub const CANDY_POINTS: u32 = 150;

/// The snake game: an ordered body (head at the front) on a 20-by-20 grid,
/// buffered direction changes, and one piece of food at a time.
pub struct Snake {
    pub snake_body: VecDeque<Position>,
    pub food: Food,
    pub direction: Direction,
    pub game_over: bool,
    pub score: u32,
    pub tick_count: u32,
    pub game_state: GameState,
    pub translations: Translations,
    pub compiling: Compiling,
    pub next_direction: Direction,
}

/// The direction exactly opposite to `d`.
pub open spec fn spec_opposite(d: Direction) -> Direction {
    match d {
        Direction::Up => Direction::Down,
        Direction::Down => Direction::Up,
        Direction::Left => Direction::Right,
        Direction::Right => Direction::Left,
    }
}

/// The cell one step from `p` in direction `d`.
pub open spec fn spec_step(p: Position, d: Direction) -> Position {
    match d {
        Direction::Up => Position { x: p.x, y: (p.y - 1) as i32 },
        Direction::Down => Position { x: p.x, y: (p.y + 1) as i32 },
        Direction::Left => Position { x: (p.x - 1) as i32, y: p.y },
        Direction::Right => Position { x: (p.x + 1) as i32, y: p.y },
    }
}

/// Whether `p` lies on the board.
pub open spec fn spec_in_board(p: Position) -> bool {
    0 <= p.x < BOARD_SIZE as int && 0 <= p.y < BOARD_SIZE as int
}

/// Whether some cell of `cells` is `p`.
pub open spec fn spec_contains_pos(cells: Seq<Position>, p: Position) -> bool {
    exists|i: int| 0 <= i < cells.len() && cells[i] == p
}

/// Whether the cells are pairwise distinct.
pub open spec fn spec_distinct(cells: Seq<Position>) -> bool {
    forall|i: int, j: int| 0 <= i < j < cells.len() ==> cells[i] != cells[j]
}

/// The points the food on the board awards when eaten.
pub open spec fn spec_food_points(t: FoodType) -> u32 {
    match t {
        FoodType::Apple => APPLE_POINTS,
        FoodType::Candy => CANDY_POINTS,
    }
}

/// `a + b` stuck at the maximum rather than overflowing.
pub open spec fn spec_add_points(a: int, b: int) -> int {
    if a + b > u32::MAX {
        u32::MAX as int
    } else {
        a + b
    }
}

/// A food that was properly placed for a body: every cell on the board and
/// off the body; an apple fills the 2-by-2 block at its base cell, a candy
/// exactly its base cell.
pub open spec fn spec_food_placed(f: Food, body: Seq<Position>) -> bool {
    &&& forall|i: int| 0 <= i < f.positions@.len() ==> spec_in_board(#[trigger] f.positions@[i])
    &&& forall|i: int| 0 <= i < f.positions@.len() ==> !spec_contains_pos(
        body,
        #[trigger] f.positions@[i],
    )
    &&& match f.food_type {
        FoodType::Apple => f.positions@ =~= seq![
            f.position,
            Position { x: (f.position.x + 1) as i32, y: f.position.y },
            Position { x: f.position.x, y: (f.position.y + 1) as i32 },
            Position { x: (f.position.x + 1) as i32, y: (f.position.y + 1) as i32 },
        ],
        FoodType::Candy => f.positions@ =~= seq![f.position],
    }
}

/// Whether the 2-by-2 block with base `(bx, by)` is entirely off the body.
pub open spec fn spec_apple_base_free(body: Seq<Position>, bx: int, by: int) -> bool {
    &&& !spec_contains_pos(body, Position { x: bx as i32, y: by as i32 })
    &&& !spec_contains_pos(body, Position { x: (bx + 1) as i32, y: by as i32 })
    &&& !spec_contains_pos(body, Position { x: bx as i32, y: (by + 1) as i32 })
    &&& !spec_contains_pos(body, Position { x: (bx + 1) as i32, y: (by + 1) as i32 })
}

/// What one motion step does: the head advances one cell; leaving the board
/// or biting any body cell (the vacating tail included) ends the game; food
/// grows the snake and awards points before fresh food is placed; otherwise
/// the tail cell is given up as the head moves on.
pub open spec fn spec_move_rel(pre: Snake, post: Snake) -> bool {
    let head = pre.snake_body@[0];
    let new_head = spec_step(head, pre.direction);
    &&& post.direction == pre.direction
    &&& post.next_direction == pre.next_direction
    &&& post.tick_count == pre.tick_count
    &&& post.game_state == pre.game_state
    &&& post.translations == pre.translations
    &&& post.compiling == pre.compiling
    &&& if !spec_in_board(new_head) || spec_contains_pos(pre.snake_body@, new_head) {
        &&& post.game_over == true
        &&& post.snake_body@ == pre.snake_body@
        &&& post.score == pre.score
        &&& post.food == pre.food
    } else if spec_contains_pos(pre.food.positions@, new_head) {
        &&& post.game_over == pre.game_over
        &&& post.snake_body@ == seq![new_head] + pre.snake_body@
        &&& post.score as int == spec_add_points(
            pre.score as int,
            spec_food_points(pre.food.food_type) as int,
        )
        &&& (spec_food_placed(post.food, post.snake_body@) || post.food == pre.food)
        &&& (exists|bx: int, by: int|
            0 <= bx < BOARD_SIZE as int - 1 && 0 <= by < BOARD_SIZE as int - 1
                && #[trigger] spec_apple_base_free(post.snake_body@, bx, by))
            ==> spec_food_placed(post.food, post.snake_body@)
    } else {
        &&& post.game_over == pre.game_over
        &&& post.snake_body@ == seq![new_head] + pre.snake_body@.drop_last()
        &&& post.score == pre.score
        &&& post.food == pre.food
    }
}

/// What one key event does, by phase, with `r` saying whether the key acted.
pub open spec fn spec_input_rel(pre: Snake, post: Snake, key: Key, r: bool) -> bool {
    if pre.game_over {
        if key == Key::Char('r') {
            &&& r == true
            &&& post.game_state == GameState::Playing
            &&& post.game_over == false
            &&& post.score == 0
            &&& post.tick_count == 0
            &&& post.snake_body@ =~= seq![Position { x: 10, y: 10 }]
            &&& post.direction == Direction::Right
            &&& post.next_direction == Direction::Right
        } else {
            r == false && post == pre
        }
    } else {
        match pre.game_state {
            GameState::Welcome => {
                if key == Key::Enter {
                    r == true && post == (Snake { game_state: GameState::Playing, ..pre })
                } else {
                    r == false && post == pre
                }
            },
            GameState::Playing => {
                if key == Key::Char('p') || key == Key::Esc {
                    r == true && post == (Snake { game_state: GameState::Paused, ..pre })
                } else {
                    match spec_key_direction(key) {
                        Some(d) => {
                            &&& r == true
                            &&& post == (Snake { next_direction: post.next_direction, ..pre })
                            &&& post.next_direction == (if pre.direction == spec_opposite(d) {
                                pre.next_direction
                            } else {
                                d
                            })
                        },
                        None => r == false && post == pre,
                    }
                }
            },
            GameState::Paused => {
                if key == Key::Char('p') || key == Key::Esc {
                    r == true && post == (Snake { game_state: GameState::Playing, ..pre })
                } else {
                    r == false && post == pre
                }
            },
        }
    }
}

impl Snake {
    /// The structural invariant: at least one body cell, all of them on the
    /// board and pairwise distinct, and the food's cells on the board.
    pub open spec fn wf(self) -> bool {
        &&& self.snake_body@.len() >= 1
        &&& forall|i: int| 0 <= i < self.snake_body@.len() ==> spec_in_board(
            #[trigger] self.snake_body@[i],
        )
        &&& spec_distinct(self.snake_body@)
        &&& forall|i: int| 0 <= i < self.food.positions@.len() ==> spec_in_board(
            #[trigger] self.food.positions@[i],
        )
    }

    /// A fresh game: a one-cell snake in the middle of the board heading
    /// right, food placed clear of it, no score, welcome screen showing.
    pub fn new() -> (s: Snake)
        ensures
            s.wf(),
            s.game_state == GameState::Welcome,
            s.snake_body@ =~= seq![Position { x: 10, y: 10 }],
            s.direction == Direction::Right,
            s.next_direction == Direction::Right,
            s.game_over == false,
            s.score == 0,
            s.tick_count == 0,
            spec_food_placed(s.food, s.snake_body@),
    {
        let mut body: VecDeque<Position> = VecDeque::new();
        body.push_back(Position { x: 10, y: 10 });
        let mut snake = Snake {
            snake_body: body,
            food: Food {
                position: Position { x: 0, y: 0 },
                food_type: FoodType::Apple,
                positions: Vec::new(),
            },
            direction: Direction::Right,
            game_over: false,
            score: 0,
            tick_count: 0,
            game_state: GameState::Welcome,
            translations: Translations::new(),
            compiling: Compiling::new(),
            next_direction: Direction::Right,
        };
        let ghost body0 = snake.snake_body@;
        let placed = snake.spawn_food();
        proof {
            assert(body0 =~= seq![Position { x: 10, y: 10 }]);
            assert(!spec_contains_pos(body0, Position { x: 0, y: 0 }));
            assert(!spec_contains_pos(body0, Position { x: 1, y: 0 }));
            assert(!spec_contains_pos(body0, Position { x: 0, y: 1 }));
            assert(!spec_contains_pos(body0, Position { x: 1, y: 1 }));
            assert(spec_apple_base_free(body0, 0, 0));
        }
        assert(placed);
        snake
    }

    /// Selects the language the game's texts use.
    pub fn set_language(&mut self, language: Language)
        ensures
            *final(self) == (Snake { translations: final(self).translations, ..*old(self) }),
            final(self).translations == (Translations {
                current_language: language,
                ..old(self).translations
            }),
    {
        self.translations.set_language(language);
    }

    /// Selects the build log the pause overlay scrolls through.
    pub fn set_compile_language(&mut self, lang: CompileLanguage)
        ensures
            *final(self) == (Snake { compiling: final(self).compiling, ..*old(self) }),
            final(self).compiling.current_language == lang,
    {
        self.compiling.set_language(lang);
    }

    /// Routes one key event. After a game over only R acts: it reinitializes
    /// the game in place and returns straight to play. While playing, a
    /// direction key buffers the next direction — unless it is the exact
    /// opposite of the current one, which is ignored — and P or Esc pauses;
    /// the same keys resume. The result says whether the key did anything.
    pub fn handle_input(&mut self, key: Key) -> (r: bool)
        requires
            old(self).wf(),
        ensures
            final(self).wf(),
            spec_input_rel(*old(self), *final(self), key, r),
    {
        if self.game_over {
            if key == Key::Char('r') {
                *self = Self::new();
                self.game_state = GameState::Playing;
                return true;
            }
            return false;
        }

        match self.game_state {
            GameState::Welcome => {
                if key == Key::Enter {
                    self.game_state = GameState::Playing;
                    true
                } else {
                    false
                }
            },
            GameState::Playing => {
                match key {
                    Key::Left | Key::Char('a') => {
                        if self.direction != Direction::Right {
                            self.next_direction = Direction::Left;
                        }
                        true
                    },
                    Key::Right | Key::Char('d') => {
                        if self.direction != Direction::Left {
                            self.next_direction = Direction::Right;
                        }
                        true
                    },
                    Key::Up | Key::Char('w') => {
                        if self.direction != Direction::Down {
                            self.next_direction = Direction::Up;
                        }
                        true
                    },
                    Key::Down | Key::Char('s') => {
                        if self.direction != Direction::Up {
                            self.next_direction = Direction::Down;
                        }
                        true
                    },
                    Key::Char('p') | Key::Esc => {
                        self.game_state = GameState::Paused;
                        true
                    },
                    _ => false,
                }
            },
            GameState::Paused => {
                if key == Key::Char('p') || key == Key::Esc {
                    self.game_state = GameState::Playing;
                    true
                } else {
                    false
                }
            },
        }
    }

    /// One tick. Outside play (or after a game over) nothing moves — paused,
    /// the overlay ticks instead. In play, every tenth tick commits the
    /// buffered direction and moves the snake one cell.
    pub fn update(&mut self)
        requires
            old(self).wf(),
        ensures
            final(self).wf(),
            old(self).game_over || old(self).game_state != GameState::Playing ==> {
                &&& *final(self) == (Snake { compiling: final(self).compiling, ..*old(self) })
                &&& if old(self).game_state == GameState::Paused {
                    crate::games::compiling::spec_ticked(old(self).compiling, final(self).compiling)
                } else {
                    final(self).compiling == old(self).compiling
                }
            },
            !old(self).game_over && old(self).game_state == GameState::Playing ==> {
                let tick = (if old(self).tick_count == u32::MAX {
                    0u32
                } else {
                    (old(self).tick_count + 1) as u32
                });
                &&& final(self).tick_count == tick
                &&& if tick % 10 == 0 {
                    spec_move_rel(
                        Snake { direction: old(self).next_direction, tick_count: tick, ..*old(self) },
                        *final(self),
                    )
                } else {
                    *final(self) == (Snake { tick_count: tick, ..*old(self) })
                }
            },
    {
        if self.game_over || self.game_state != GameState::Playing {
            if self.game_state == GameState::Paused {
                self.compiling.update();
            }
            return;
        }

        self.tick_count = if self.tick_count == u32::MAX {
            0
        } else {
            self.tick_count + 1
        };
        if self.tick_count % 10 == 0 {
            self.direction = self.next_direction;
            self.move_snake();
        }
    }

    /// Whether the head-to-be touches the food.
    pub fn check_food_collision(&self, head: &Position) -> (r: bool)
        ensures
            r == spec_contains_pos(self.food.positions@, *head),
    {
        let mut i: usize = 0;
        while i < self.food.positions.len()
            invariant
                0 <= i <= self.food.positions@.len(),
                forall|j: int| 0 <= j < i ==> self.food.positions@[j] != *head,
            decreases self.food.positions@.len() - i,
        {
            let p = self.food.positions[i];
            if p.x == head.x && p.y == head.y {
                proof {
                    assert(self.food.positions@[i as int] == *head);
                }
                return true;
            }
            i = i + 1;
        }
        false
    }

    /// Whether any body cell is `p`.
    fn body_contains(&self, p: &Position) -> (r: bool)
        ensures
            r == spec_contains_pos(self.snake_body@, *p),
    {
        let mut i: usize = 0;
        while i < self.snake_body.len()
            invariant
                0 <= i <= self.snake_body@.len(),
                forall|j: int| 0 <= j < i ==> self.snake_body@[j] != *p,
            decreases self.snake_body@.len() - i,
        {
            let q = self.snake_body[i];
            if q.x == p.x && q.y == p.y {
                proof {
                    assert(self.snake_body@[i as int] == *p);
                }
                return true;
            }
            i = i + 1;
        }
        false
    }

    /// One motion step, as `spec_move_rel` states it.
    pub fn move_snake(&mut self)
        requires
            old(self).wf(),
        ensures
            final(self).wf(),
            spec_move_rel(*old(self), *final(self)),
    {
        let head = self.snake_body[0];
        let new_head = match self.direction {
            Direction::Up => Position { x: head.x, y: head.y - 1 },
            Direction::Down => Position { x: head.x, y: head.y + 1 },
            Direction::Left => Position { x: head.x - 1, y: head.y },
            Direction::Right => Position { x: head.x + 1, y: head.y },
        };

        if new_head.x < 0 || new_head.x >= BOARD_SIZE || new_head.y < 0 || new_head.y
            >= BOARD_SIZE || self.body_contains(&new_head) {
            self.game_over = true;
            return;
        }

        if self.check_food_collision(&new_head) {
            let points = match self.food.food_type {
                FoodType::Apple => APPLE_POINTS,
                FoodType::Candy => CANDY_POINTS,
            };
            self.score = if self.score > u32::MAX - points {
                u32::MAX
            } else {
                self.score + points
            };
            self.snake_body.push_front(new_head);
            let ghost body_after = self.snake_body@;
            let placed = self.spawn_food();
            proof {
                if !placed {
                    assert(self.food == old(self).food);
                }
            }
        } else {
            self.snake_body.pop_back();
            self.snake_body.push_front(new_head);
        }
    }
}

impl Snake {
    /// Places fresh food: an apple (seven times out of ten) on a free 2-by-2
    /// block, else a candy on a free cell, each drawn uniformly from the free
    /// spots. When the drawn kind has no free spot the board is left as it is
    /// and `false` comes back; a fully free 2-by-2 block anywhere rules that
    /// out for either kind.
    pub fn spawn_food(&mut self) -> (r: bool)
        requires
            old(self).wf(),
        ensures
            final(self).wf(),
            !r ==> *final(self) == *old(self),
            r ==> *final(self) == (Snake { food: final(self).food, ..*old(self) }),
            r ==> spec_food_placed(final(self).food, old(self).snake_body@),
            (exists|bx: int, by: int|
                0 <= bx < BOARD_SIZE as int - 1 && 0 <= by < BOARD_SIZE as int - 1
                    && #[trigger] spec_apple_base_free(old(self).snake_body@, bx, by)) ==> r,
    {
        let is_apple = rand_below(10) < 7;
        if is_apple {
            let mut bases: Vec<Position> = Vec::new();
            let mut by: i32 = 0;
            while by < BOARD_SIZE - 1
                invariant
                    0 <= by <= BOARD_SIZE as int - 1,
                    bases@.len() <= by * (BOARD_SIZE as int - 1),
                    self == old(self),
                    forall|k: int| 0 <= k < bases@.len() ==> {
                        &&& 0 <= (#[trigger] bases@[k]).x < BOARD_SIZE as int - 1
                        &&& 0 <= bases@[k].y < BOARD_SIZE as int - 1
                        &&& spec_apple_base_free(
                            self.snake_body@,
                            bases@[k].x as int,
                            bases@[k].y as int,
                        )
                    },
                    bases@.len() == 0 ==> forall|qx: int, qy: int|
                        0 <= qx < BOARD_SIZE as int - 1 && 0 <= qy < by
                            ==> !#[trigger] spec_apple_base_free(self.snake_body@, qx, qy),
                decreases BOARD_SIZE as int - 1 - by,
            {
                let mut bx: i32 = 0;
                while bx < BOARD_SIZE - 1
                    invariant
                        0 <= bx <= BOARD_SIZE as int - 1,
                        0 <= by < BOARD_SIZE as int - 1,
                        bases@.len() <= by * (BOARD_SIZE as int - 1) + bx,
                        self == old(self),
                        forall|k: int| 0 <= k < bases@.len() ==> {
                            &&& 0 <= (#[trigger] bases@[k]).x < BOARD_SIZE as int - 1
                            &&& 0 <= bases@[k].y < BOARD_SIZE as int - 1
                            &&& spec_apple_base_free(
                                self.snake_body@,
                                bases@[k].x as int,
                                bases@[k].y as int,
                            )
                        },
                        bases@.len() == 0 ==> forall|qx: int, qy: int|
                            0 <= qx < BOARD_SIZE as int - 1 && 0 <= qy < by as int
                                ==> !#[trigger] spec_apple_base_free(self.snake_body@, qx, qy),
                        bases@.len() == 0 ==> forall|qx: int|
                            0 <= qx < bx as int ==> !#[trigger] spec_apple_base_free(
                                self.snake_body@,
                                qx,
                                by as int,
                            ),
                    decreases BOARD_SIZE as int - 1 - bx,
                {
                    let free = !self.body_contains(&Position { x: bx, y: by })
                        && !self.body_contains(&Position { x: bx + 1, y: by })
                        && !self.body_contains(&Position { x: bx, y: by + 1 })
                        && !self.body_contains(&Position { x: bx + 1, y: by + 1 });
                    if free {
                        bases.push(Position { x: bx, y: by });
                        proof {
                            assert(bases@[bases@.len() - 1] == Position { x: bx, y: by });
                        }
                    }
                    bx = bx + 1;
                }
                proof {
                    assert(bases@.len() <= (by as int + 1) * (BOARD_SIZE as int - 1))
                        by (nonlinear_arith)
                        requires
                            bases@.len() <= by as int * (BOARD_SIZE as int - 1) + (
                            BOARD_SIZE as int - 1),
                    ;
                }
                by = by + 1;
            }
            if bases.len() == 0 {
                return false;
            }
            let k = rand_below(bases.len() as u32) as usize;
            let base = bases[k];
            self.food.food_type = FoodType::Apple;
            self.food.position = base;
            self.food.positions = vec![
                base,
                Position { x: base.x + 1, y: base.y },
                Position { x: base.x, y: base.y + 1 },
                Position { x: base.x + 1, y: base.y + 1 },
            ];
            true
        } else {
            let mut cells: Vec<Position> = Vec::new();
            let mut cy: i32 = 0;
            while cy < BOARD_SIZE
                invariant
                    0 <= cy <= BOARD_SIZE as int,
                    cells@.len() <= cy * BOARD_SIZE as int,
                    self == old(self),
                    forall|k: int| 0 <= k < cells@.len() ==> spec_in_board(#[trigger] cells@[k])
                        && !spec_contains_pos(self.snake_body@, cells@[k]),
                    cells@.len() == 0 ==> forall|qx: int, qy: int|
                        0 <= qx < BOARD_SIZE as int && 0 <= qy < cy ==> #[trigger] spec_contains_pos(
                            self.snake_body@,
                            (Position { x: qx as i32, y: qy as i32 }),
                        ),
                decreases BOARD_SIZE as int - cy,
            {
                let mut cx: i32 = 0;
                while cx < BOARD_SIZE
                    invariant
                        0 <= cx <= BOARD_SIZE as int,
                        0 <= cy < BOARD_SIZE as int,
                        cells@.len() <= cy * BOARD_SIZE as int + cx,
                        self == old(self),
                        forall|k: int| 0 <= k < cells@.len() ==> spec_in_board(
                            #[trigger] cells@[k],
                        ) && !spec_contains_pos(self.snake_body@, cells@[k]),
                        cells@.len() == 0 ==> forall|qx: int, qy: int|
                            0 <= qx < BOARD_SIZE as int && 0 <= qy < cy as int
                                ==> #[trigger] spec_contains_pos(
                                self.snake_body@,
                                (Position { x: qx as i32, y: qy as i32 }),
                            ),
                        cells@.len() == 0 ==> forall|qx: int|
                            0 <= qx < cx as int ==> #[trigger] spec_contains_pos(
                                self.snake_body@,
                                (Position { x: qx as i32, y: cy as i32 }),
                            ),
                    decreases BOARD_SIZE as int - cx,
                {
                    if !self.body_contains(&Position { x: cx, y: cy }) {
                        cells.push(Position { x: cx, y: cy });
                        proof {
                            assert(cells@[cells@.len() - 1] == Position { x: cx, y: cy });
                        }
                    }
                    cx = cx + 1;
                }
                proof {
                    assert(cells@.len() <= (cy as int + 1) * BOARD_SIZE as int)
                        by (nonlinear_arith)
                        requires
                            cells@.len() <= cy as int * BOARD_SIZE as int + BOARD_SIZE as int,
                    ;
                }
                cy = cy + 1;
            }
            if cells.len() == 0 {
                proof {
                    assert forall|bx: int, by: int|
                        0 <= bx < BOARD_SIZE as int - 1 && 0 <= by < BOARD_SIZE as int - 1
                            implies !spec_apple_base_free(self.snake_body@, bx, by) by {
                        assert(spec_contains_pos(
                            self.snake_body@,
                            (Position { x: bx as i32, y: by as i32 }),
                        ));
                    }
                }
                return false;
            }
            let k = rand_below(cells.len() as u32) as usize;
            let cell = cells[k];
            self.food.food_type = FoodType::Candy;
            self.food.position = cell;
            self.food.positions = vec![cell];
            true
        }
    }
}

/// One cell of the rendered snake board, by content class.
#[derive(Clone, Copy, PartialEq, Eq, Structural, Debug)]
pub enum SnakeCell {
    Empty,
    Body,
    Apple,
    Candy,
}

/// What the snake render produces for one frame.
pub enum SnakeFrame {
    Welcome,
    Board(Vec<Vec<SnakeCell>>),
    Paused(Vec<String>),
}

/// The content class of board cell `(x, y)`: food is drawn over the body,
/// the body over empty ground.
pub open spec fn spec_snake_cell(s: Snake, x: int, y: int) -> SnakeCell {
    let p = Position { x: x as i32, y: y as i32 };
    if spec_contains_pos(s.food.positions@, p) {
        match s.food.food_type {
            FoodType::Apple => SnakeCell::Apple,
            FoodType::Candy => SnakeCell::Candy,
        }
    } else if spec_contains_pos(s.snake_body@, p) {
        SnakeCell::Body
    } else {
        SnakeCell::Empty
    }
}

/// Requesting the exact opposite of the current travel direction never
/// changes the buffered next direction.
pub proof fn lemma_opposite_request_ignored(pre: Snake, post: Snake, key: Key, r: bool)
    requires
        pre.wf(),
        !pre.game_over,
        pre.game_state == GameState::Playing,
        key != Key::Char('p') && key != Key::Esc,
        spec_input_rel(pre, post, key, r),
        spec_key_direction(key) == Some(spec_opposite(pre.direction)),
    ensures
        post.next_direction == pre.next_direction,
{
    assert(spec_opposite(spec_opposite(pre.direction)) == pre.direction);
}

/// In every well-formed state the head coincides with no other body segment;
/// since every step of the game keeps states well formed, the snake can only
/// overlap itself in the very tick that declares the game over — and then
/// the body is left exactly as it was.
pub proof fn lemma_no_self_overlap(s: Snake)
    requires
        s.wf(),
    ensures
        forall|i: int| 1 <= i < s.snake_body@.len() ==> (#[trigger] s.snake_body@[i]) != s.snake_body@[0],
{
}

impl Snake {
    /// The board as a 20-by-20 grid of cell classes.
    pub fn render_game(&self) -> (r: Vec<Vec<SnakeCell>>)
        ensures
            r@.len() == BOARD_SIZE as int,
            forall|yy: int| 0 <= yy < BOARD_SIZE as int ==> (#[trigger] r@[yy])@.len()
                == BOARD_SIZE as int,
            forall|yy: int, xx: int| 0 <= yy < BOARD_SIZE as int && 0 <= xx < BOARD_SIZE as int
                ==> (#[trigger] r@[yy]@[xx]) == spec_snake_cell(*self, xx, yy),
    {
        let mut grid: Vec<Vec<SnakeCell>> = Vec::new();
        let mut y: i32 = 0;
        while y < BOARD_SIZE
            invariant
                0 <= y <= BOARD_SIZE as int,
                grid@.len() == y as int,
                forall|yy: int| 0 <= yy < y as int ==> (#[trigger] grid@[yy])@.len()
                    == BOARD_SIZE as int,
                forall|yy: int, xx: int| 0 <= yy < y as int && 0 <= xx < BOARD_SIZE as int ==> (
                #[trigger] grid@[yy]@[xx]) == spec_snake_cell(*self, xx, yy),
            decreases BOARD_SIZE as int - y,
        {
            let mut row: Vec<SnakeCell> = Vec::new();
            let mut x: i32 = 0;
            while x < BOARD_SIZE
                invariant
                    0 <= x <= BOARD_SIZE as int,
                    0 <= y < BOARD_SIZE as int,
                    row@.len() == x as int,
                    forall|xx: int| 0 <= xx < x as int ==> (#[trigger] row@[xx])
                        == spec_snake_cell(*self, xx, y as int),
                decreases BOARD_SIZE as int - x,
            {
                let p = Position { x, y };
                let cell = if self.check_food_collision(&p) {
                    match self.food.food_type {
                        FoodType::Apple => SnakeCell::Apple,
                        FoodType::Candy => SnakeCell::Candy,
                    }
                } else if self.body_contains(&p) {
                    SnakeCell::Body
                } else {
                    SnakeCell::Empty
                };
                row.push(cell);
                x = x + 1;
            }
            grid.push(row);
            y = y + 1;
        }
        grid
    }

    /// One rendered frame for the current phase: the welcome text, the board
    /// grid, or the pause overlay's log lines for a viewport of `height`
    /// rows.
    pub fn render(&mut self, height: u16) -> (r: SnakeFrame)
        ensures
            old(self).game_state == GameState::Welcome ==> r is Welcome && *final(self) == *old(
                self,
            ),
            old(self).game_state == GameState::Playing ==> r is Board && *final(self) == *old(
                self,
            ),
            old(self).game_state == GameState::Paused ==> r is Paused,
            old(self).game_state == GameState::Paused ==> *final(self) == (Snake {
                compiling: final(self).compiling,
                ..*old(self)
            }) && final(self).compiling == (Compiling {
                display_messages: final(self).compiling.display_messages,
                ..old(self).compiling
            }),
            old(self).game_state == GameState::Paused ==> match r {
                SnakeFrame::Paused(lines) => {
                    &&& lines@.len() == vstd::math::min(
                        if height >= 2 {
                            (height - 2) as int
                        } else {
                            0
                        },
                        old(self).compiling.messages@.len() as int,
                    )
                    &&& forall|i: int| 0 <= i < lines@.len() ==> (#[trigger] lines@[i]) == old(
                        self,
                    ).compiling.messages@[i]
                },
                _ => false,
            },
            old(self).game_state == GameState::Playing ==> match r {
                SnakeFrame::Board(grid) => {
                    &&& grid@.len() == BOARD_SIZE as int
                    &&& forall|yy: int, xx: int|
                        0 <= yy < BOARD_SIZE as int && 0 <= xx < BOARD_SIZE as int ==> (
                        #[trigger] grid@[yy]@[xx]) == spec_snake_cell(*old(self), xx, yy)
                },
                _ => false,
            },
    {
        match self.game_state {
            GameState::Welcome => SnakeFrame::Welcome,
            GameState::Playing => SnakeFrame::Board(self.render_game()),
            GameState::Paused => SnakeFrame::Paused(self.compiling.render(height)),
        }
    }
}

/// The direction a movement key requests, if any.
pub open spec fn spec_key_direction(key: Key) -> Option<Direction> {
    match key {
        Key::Left => Some(Direction::Left),
        Key::Char('a') => Some(Direction::Left),
        Key::Right => Some(Direction::Right),
        Key::Char('d') => Some(Direction::Right),
        Key::Up => Some(Direction::Up),
        Key::Char('w') => Some(Direction::Up),
        Key::Down => Some(Direction::Down),
        Key::Char('s') => Some(Direction::Down),
        _ => None,
    }
}

} // verus!
