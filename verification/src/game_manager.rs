use vstd::prelude::*;

use crate::games::goldminer::GoldMiner;
use crate::games::minesweeper::MineSweeper;
use crate::games::snake::Snake;
use crate::games::tetris::Tetris;
use crate::games::twenty_forty_eight::TwentyFortyEight;
use crate::keys::Key;
use crate::translation::{spec_get_text, Language, Translations};

verus! {

/// Which fake build log the pause overlay scrolls through.
#[derive(Clone, Copy, PartialEq, Eq, Structural, Debug)]
pub enum CompileLanguage {
    Rust,
    Go,
    CMake,
}

/// The screens the menu shell can be on: the main menu itself or one of the
/// five games.
#[derive(Clone, Copy, PartialEq, Eq, Structural, Debug)]
pub enum GameType {
    MainMenu,
    GoldMiner,
    Tetris,
    Snake,
    TwentyFortyEight,
    MineSweeper,
}

/// How many games the menu offers.
pub const GAME_COUNT: usize = 5;

/// One line of the rendered main menu: its text and whether it names the
/// currently selected game.
pub struct MenuLine {
    pub text: String,
    pub selected: bool,
}

/// The game at menu position `i`.
pub open spec fn spec_game_at(i: int) -> GameType {
    if i == 0 {
        GameType::GoldMiner
    } else if i == 1 {
        GameType::Tetris
    } else if i == 2 {
        GameType::Snake
    } else if i == 3 {
        GameType::TwentyFortyEight
    } else {
        GameType::MineSweeper
    }
}

/// The title text key of the game at menu position `i`.
pub open spec fn spec_title_key(i: int) -> Seq<char> {
    if i == 0 {
        "goldminer_title"@
    } else if i == 1 {
        "tetris_title"@
    } else if i == 2 {
        "snake_title"@
    } else if i == 3 {
        "twenty_forty_eight_title"@
    } else {
        "minesweeper_title"@
    }
}

/// The menu label of position `i`: a space, the one-based position, a dot
/// and the game's title.
pub open spec fn spec_menu_label(i: int, title: Seq<char>) -> Seq<char> {
    " "@ + spec_digit(i + 1) + ". "@ + title
}

/// The decimal digit text for `1` to `5`.
pub open spec fn spec_digit(n: int) -> Seq<char> {
    if n == 1 {
        "1"@
    } else if n == 2 {
        "2"@
    } else if n == 3 {
        "3"@
    } else if n == 4 {
        "4"@
    } else {
        "5"@
    }
}

/// The menu shell: one instance of every game, the active screen, and the
/// menu's own selection state.
pub struct GameManager {
    pub state: GameType,
    pub goldminer: GoldMiner,
    pub tetris: Tetris,
    pub snake: Snake,
    pub twenty_forty_eight: TwentyFortyEight,
    pub minesweeper: MineSweeper,
    pub selected_game: usize,
    pub translations: Translations,
    pub selecting_language: bool,
    pub compile_language: CompileLanguage,
    pub selecting_compile_language: bool,
}

impl GameManager {
    /// The structural invariant: a valid selection and well-formed games.
    pub open spec fn wf(self) -> bool {
        &&& self.selected_game < GAME_COUNT
        &&& self.goldminer.wf()
        &&& self.tetris.wf()
        &&& self.snake.wf()
        &&& self.twenty_forty_eight.wf()
        &&& self.minesweeper.wf()
    }

    /// A fresh shell showing the main menu, with every game ready on its
    /// welcome screen. The viewport size seeds the gold-miner's coordinate
    /// space.
    pub fn new(width: u16, height: u16) -> (m: GameManager)
        requires
            20 <= width,
            10 <= height,
        ensures
            m.wf(),
            m.state == GameType::MainMenu,
            m.selected_game == 0,
            m.selecting_language == false,
            m.selecting_compile_language == false,
            m.compile_language == CompileLanguage::Rust,
    {
        GameManager {
            state: GameType::MainMenu,
            goldminer: GoldMiner::new(width, height),
            tetris: Tetris::new(),
            snake: Snake::new(),
            twenty_forty_eight: TwentyFortyEight::new(),
            minesweeper: MineSweeper::new(),
            selected_game: 0,
            translations: Translations::new(),
            selecting_language: false,
            compile_language: CompileLanguage::Rust,
            selecting_compile_language: false,
        }
    }

    /// Routes one key event. On the main menu a digit or Enter opens a game
    /// and the arrows move the selection; when a picker is open, its letter
    /// keys choose a language or build-log style for every game at once. On
    /// a game screen the key goes to that game.
    pub fn handle_input(&mut self, key: Key)
        requires
            old(self).wf(),
        ensures
            final(self).wf(),
            old(self).state == GameType::MainMenu && !old(self).selecting_language && !old(
                self,
            ).selecting_compile_language ==> {
                &&& final(self).state == (match key {
                    Key::Char(c) => {
                        if c == '1' {
                            spec_game_at(0)
                        } else if c == '2' {
                            spec_game_at(1)
                        } else if c == '3' {
                            spec_game_at(2)
                        } else if c == '4' {
                            spec_game_at(3)
                        } else if c == '5' {
                            spec_game_at(4)
                        } else {
                            GameType::MainMenu
                        }
                    },
                    Key::Enter => spec_game_at(old(self).selected_game as int),
                    _ => GameType::MainMenu,
                })
                &&& final(self).selected_game == (match key {
                    Key::Up => if old(self).selected_game > 0 {
                        (old(self).selected_game - 1) as usize
                    } else {
                        0
                    },
                    Key::Down => if old(self).selected_game < GAME_COUNT - 1 {
                        (old(self).selected_game + 1) as usize
                    } else {
                        old(self).selected_game
                    },
                    _ => old(self).selected_game,
                })
                &&& *final(self) == (GameManager {
                    state: final(self).state,
                    selected_game: final(self).selected_game,
                    ..*old(self)
                })
            },
            old(self).state != GameType::MainMenu ==> final(self).state == old(self).state
                && final(self).selected_game == old(self).selected_game,
            old(self).state == GameType::GoldMiner ==> *final(self) == (GameManager {
                goldminer: final(self).goldminer,
                ..*old(self)
            }),
            old(self).state == GameType::Tetris ==> *final(self) == (GameManager {
                tetris: final(self).tetris,
                ..*old(self)
            }),
            old(self).state == GameType::Snake ==> *final(self) == (GameManager {
                snake: final(self).snake,
                ..*old(self)
            }),
            old(self).state == GameType::TwentyFortyEight ==> *final(self) == (GameManager {
                twenty_forty_eight: final(self).twenty_forty_eight,
                ..*old(self)
            }),
            old(self).state == GameType::MineSweeper ==> *final(self) == (GameManager {
                minesweeper: final(self).minesweeper,
                ..*old(self)
            }),
    {
        match self.state {
            GameType::MainMenu => {
                if self.selecting_language {
                    match key {
                        Key::Char('e') => {
                            self.translations.set_language(Language::English);
                            self.set_language(Language::English);
                            self.selecting_language = false;
                        },
                        Key::Char('c') => {
                            self.translations.set_language(Language::Chinese);
                            self.set_language(Language::Chinese);
                            self.selecting_language = false;
                        },
                        Key::Esc => {
                            self.selecting_language = false;
                        },
                        _ => (),
                    }
                } else if self.selecting_compile_language {
                    match key {
                        Key::Char('r') => {
                            self.compile_language = CompileLanguage::Rust;
                            self.set_compile_language(CompileLanguage::Rust);
                            self.selecting_compile_language = false;
                        },
                        Key::Char('g') => {
                            self.compile_language = CompileLanguage::Go;
                            self.set_compile_language(CompileLanguage::Go);
                            self.selecting_compile_language = false;
                        },
                        Key::Char('m') => {
                            self.compile_language = CompileLanguage::CMake;
                            self.set_compile_language(CompileLanguage::CMake);
                            self.selecting_compile_language = false;
                        },
                        Key::Esc => {
                            self.selecting_compile_language = false;
                        },
                        _ => (),
                    }
                } else {
                    match key {
                        Key::Char(c) => {
                            if c == '1' {
                                self.state = GameType::GoldMiner;
                            } else if c == '2' {
                                self.state = GameType::Tetris;
                            } else if c == '3' {
                                self.state = GameType::Snake;
                            } else if c == '4' {
                                self.state = GameType::TwentyFortyEight;
                            } else if c == '5' {
                                self.state = GameType::MineSweeper;
                            }
                        },
                        Key::Up => {
                            if self.selected_game > 0 {
                                self.selected_game = self.selected_game - 1;
                            }
                        },
                        Key::Down => {
                            if self.selected_game < GAME_COUNT - 1 {
                                self.selected_game = self.selected_game + 1;
                            }
                        },
                        Key::Enter => {
                            if self.selected_game == 0 {
                                self.state = GameType::GoldMiner;
                            } else if self.selected_game == 1 {
                                self.state = GameType::Tetris;
                            } else if self.selected_game == 2 {
                                self.state = GameType::Snake;
                            } else if self.selected_game == 3 {
                                self.state = GameType::TwentyFortyEight;
                            } else {
                                self.state = GameType::MineSweeper;
                            }
                        },
                        _ => (),
                    }
                }
            },
            GameType::GoldMiner => {
                self.goldminer.handle_input(key);
            },
            GameType::Tetris => {
                let _acted = self.tetris.handle_input(key);
            },
            GameType::Snake => {
                let _acted = self.snake.handle_input(key);
            },
            GameType::TwentyFortyEight => {
                let _acted = self.twenty_forty_eight.handle_input(key);
            },
            GameType::MineSweeper => {
                self.minesweeper.handle_input(key);
            },
        }
    }

    /// One tick for the active game; the menu itself has nothing to tick.
    /// `now_ms` is the wall clock the gold-miner's physics runs on.
    pub fn update(&mut self, now_ms: u64)
        requires
            old(self).wf(),
        ensures
            final(self).wf(),
            final(self).state == old(self).state,
            final(self).selected_game == old(self).selected_game,
            old(self).state == GameType::MainMenu ==> *final(self) == *old(self),
            old(self).state == GameType::GoldMiner ==> *final(self) == (GameManager {
                goldminer: final(self).goldminer,
                ..*old(self)
            }),
            old(self).state == GameType::Tetris ==> *final(self) == (GameManager {
                tetris: final(self).tetris,
                ..*old(self)
            }),
            old(self).state == GameType::Snake ==> *final(self) == (GameManager {
                snake: final(self).snake,
                ..*old(self)
            }),
            old(self).state == GameType::TwentyFortyEight ==> *final(self) == (GameManager {
                twenty_forty_eight: final(self).twenty_forty_eight,
                ..*old(self)
            }),
            old(self).state == GameType::MineSweeper ==> *final(self) == (GameManager {
                minesweeper: final(self).minesweeper,
                ..*old(self)
            }),
    {
        match self.state {
            GameType::MainMenu => (),
            GameType::GoldMiner => self.goldminer.update(now_ms),
            GameType::Tetris => self.tetris.update(),
            GameType::Snake => self.snake.update(),
            GameType::TwentyFortyEight => self.twenty_forty_eight.update(),
            GameType::MineSweeper => self.minesweeper.update(),
        }
    }

    /// Selects the language every game's texts use.
    pub fn set_language(&mut self, language: Language)
        ensures
            final(self).translations.current_language == language,
            final(self).goldminer.translations.current_language == language,
            final(self).tetris.translations.current_language == language,
            final(self).snake.translations.current_language == language,
            final(self).twenty_forty_eight.translations.current_language == language,
            final(self).minesweeper.translations.current_language == language,
            final(self).state == old(self).state,
            final(self).selected_game == old(self).selected_game,
            old(self).wf() ==> final(self).wf(),
    {
        self.translations.set_language(language);
        self.goldminer.set_language(language);
        self.tetris.set_language(language);
        self.snake.set_language(language);
        self.twenty_forty_eight.set_language(language);
        self.minesweeper.set_language(language);
    }

    /// Selects the build log every game's pause overlay scrolls through.
    pub fn set_compile_language(&mut self, lang: CompileLanguage)
        ensures
            final(self).compile_language == lang,
            final(self).goldminer.compiling.current_language == lang,
            final(self).tetris.compiling.current_language == lang,
            final(self).snake.compiling.current_language == lang,
            final(self).twenty_forty_eight.compiling.current_language == lang,
            final(self).minesweeper.compiling.current_language == lang,
            final(self).state == old(self).state,
            final(self).selected_game == old(self).selected_game,
            old(self).wf() ==> final(self).wf(),
    {
        self.compile_language = lang;
        self.goldminer.set_compile_language(lang);
        self.tetris.set_compile_language(lang);
        self.snake.set_compile_language(lang);
        self.twenty_forty_eight.set_compile_language(lang);
        self.minesweeper.set_compile_language(lang);
    }

    /// The five game entries of the main menu, in order: each game's title
    /// under the current language, the selected one marked.
    pub fn render_main_menu(&self) -> (r: Vec<MenuLine>)
        requires
            self.wf(),
        ensures
            r@.len() == GAME_COUNT as int,
            forall|i: int| 0 <= i < GAME_COUNT as int ==> (#[trigger] r@[i]).selected == (i
                == self.selected_game as int),
            forall|i: int| 0 <= i < GAME_COUNT as int ==> (#[trigger] r@[i]).text@
                == spec_menu_label(
                i,
                spec_get_text(
                    self.translations.texts@,
                    self.translations.current_language,
                    crate::translation::spec_full_key(self.translations.namespace@, spec_title_key(i)),
                ),
            ),
    {
        let mut lines: Vec<MenuLine> = Vec::new();
        let mut i: usize = 0;
        while i < GAME_COUNT
            invariant
                0 <= i <= GAME_COUNT,
                self.wf(),
                lines@.len() == i as int,
                forall|q: int| 0 <= q < i as int ==> (#[trigger] lines@[q]).selected == (q
                    == self.selected_game as int),
                forall|q: int| 0 <= q < i as int ==> (#[trigger] lines@[q]).text@
                    == spec_menu_label(
                    q,
                    spec_get_text(
                        self.translations.texts@,
                        self.translations.current_language,
                        crate::translation::spec_full_key(
                            self.translations.namespace@,
                            spec_title_key(q),
                        ),
                    ),
                ),
            decreases GAME_COUNT - i,
        {
            let title = if i == 0 {
                self.translations.get_text("goldminer_title")
            } else if i == 1 {
                self.translations.get_text("tetris_title")
            } else if i == 2 {
                self.translations.get_text("snake_title")
            } else if i == 3 {
                self.translations.get_text("twenty_forty_eight_title")
            } else {
                self.translations.get_text("minesweeper_title")
            };
            let mut text = String::from_str(" ");
            if i == 0 {
                text.append("1");
            } else if i == 1 {
                text.append("2");
            } else if i == 2 {
                text.append("3");
            } else if i == 3 {
                text.append("4");
            } else {
                text.append("5");
            }
            text.append(". ");
            text.append(title.as_str());
            lines.push(MenuLine { text, selected: i == self.selected_game });
            i = i + 1;
        }
        lines
    }
}

} // verus!
