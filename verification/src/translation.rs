use vstd::prelude::*;

verus! {

/// A display language for the user-facing texts.
#[derive(Clone, Copy, PartialEq, Eq, Hash, Structural, Debug)]
pub enum Language {
    English,
    Chinese,
}

/// One translatable text: a lookup key and the text per language. A language
/// may be absent for a key; lookups then fall back to English.
pub struct Entry {
    pub key: String,
    pub english: Option<String>,
    pub chinese: Option<String>,
}

/// The localized-text provider: a table of entries, the selected language and
/// an optional key prefix (namespace).
pub struct Translations {
    pub texts: Vec<Entry>,
    pub current_language: Language,
    pub namespace: String,
}

/// The view of an optional owned string.
pub open spec fn opt_view(o: Option<String>) -> Option<Seq<char>> {
    match o {
        Some(s) => Some(s@),
        None => None,
    }
}

/// The key views of a table, in table order.
pub open spec fn keys_of(ts: Seq<Entry>) -> Seq<Seq<char>> {
    ts.map_values(|e: Entry| e.key@)
}

/// An entry the table accepts: its English text is present.
pub open spec fn wf_entry(e: Entry) -> bool {
    e.english is Some
}

/// The key a lookup uses: the bare key when no namespace is set, else the
/// namespace, a dot, and the key.
pub open spec fn spec_full_key(ns: Seq<char>, key: Seq<char>) -> Seq<char> {
    if ns.len() == 0 {
        key
    } else {
        ns + "."@ + key
    }
}

/// The first entry of `ts` at or after position `i` whose key reads `k`.
pub open spec fn lookup_from(ts: Seq<Entry>, k: Seq<char>, i: int) -> Option<Entry>
    decreases ts.len() - i,
{
    if i < 0 || i >= ts.len() {
        None
    } else if ts[i].key@ == k {
        Some(ts[i])
    } else {
        lookup_from(ts, k, i + 1)
    }
}

/// The first entry of `ts` whose key reads `k`.
pub open spec fn lookup(ts: Seq<Entry>, k: Seq<char>) -> Option<Entry> {
    lookup_from(ts, k, 0)
}

/// The text an entry yields for a language: that language's text when
/// present, else the English text, else nothing.
pub open spec fn spec_text_for(e: Entry, lang: Language) -> Option<Seq<char>> {
    let primary = match lang {
        Language::English => e.english,
        Language::Chinese => e.chinese,
    };
    match primary {
        Some(s) => Some(s@),
        None => opt_view(e.english),
    }
}

/// The visible placeholder returned for a key that resolves to no text.
pub open spec fn missing_text(k: Seq<char>) -> Seq<char> {
    "Missing translation: "@ + k
}

/// What a lookup of `k` under language `lang` returns: the found entry's text
/// for the language, or the placeholder when the key or all its texts are
/// absent.
pub open spec fn spec_get_text(ts: Seq<Entry>, lang: Language, k: Seq<char>) -> Seq<char> {
    match lookup(ts, k) {
        Some(e) => match spec_text_for(e, lang) {
            Some(t) => t,
            None => missing_text(k),
        },
        None => missing_text(k),
    }
}

/// The keys of the built-in table, in table order.
pub open spec fn all_keys() -> Seq<Seq<char>> {
    seq![
        "menu_title"@,
        "available_games"@,
        "controls"@,
        "controls_desc"@,
        "compiling"@,
        "goldminer.goldminer_title"@,
        "goldminer.level"@,
        "goldminer.welcome_to"@,
        "goldminer.how_to_play"@,
        "goldminer.hook_swing"@,
        "goldminer.press_space"@,
        "goldminer.catch_gold"@,
        "goldminer.big_gold_points"@,
        "goldminer.small_gold_points"@,
        "goldminer.avoid_stones"@,
        "goldminer.collect_all_gold"@,
        "goldminer.higher_levels"@,
        "goldminer.faster_hook"@,
        "goldminer.heavier_items"@,
        "goldminer.more_obstacles"@,
        "goldminer.controls_title"@,
        "goldminer.space_control"@,
        "goldminer.quit_control"@,
        "goldminer.press_enter"@,
        "tetris.tetris_title"@,
        "tetris.score"@,
        "tetris.game_over"@,
        "tetris.welcome_to"@,
        "tetris.how_to_play"@,
        "tetris.move_horizontal"@,
        "tetris.speed_up"@,
        "tetris.rotate"@,
        "tetris.hard_drop"@,
        "tetris.clear_lines"@,
        "tetris.one_line"@,
        "tetris.two_lines"@,
        "tetris.three_lines"@,
        "tetris.four_lines"@,
        "tetris.game_ends"@,
        "tetris.quit_control"@,
        "tetris.press_enter"@,
        "tetris.pause_game"@,
        "tetris.game_paused"@,
        "tetris.press_p_to_resume"@,
        "tetris.restart"@,
        "snake.snake_title"@,
        "snake.score"@,
        "snake.game_over"@,
        "snake.press_r_restart"@,
        "snake.how_to_play"@,
        "snake.move_snake"@,
        "snake.eat_food_title"@,
        "snake.apple_desc"@,
        "snake.candy_desc"@,
        "snake.avoid_walls"@,
        "snake.press_enter"@,
        "snake.pause_game"@,
        "twenty_forty_eight_title"@,
        "welcome_title"@,
        "press_enter"@,
        "score"@,
        "game_over"@,
        "how_to_play"@,
        "move_controls"@,
        "merge_tip"@,
        "pause_control"@,
        "game_paused"@,
        "resume_tip"@,
        "minesweeper.minesweeper_title"@,
        "minesweeper.game_win"@,
        "minesweeper.game_over"@,
        "minesweeper.press_r_restart"@,
        "minesweeper.how_to_play"@,
        "minesweeper.press_enter"@,
        "minesweeper.controls"@,
        "minesweeper.goal"@,
    ]
}

/// The built-in table itself: for each position, the key and the English
/// and Chinese texts stored there.
pub open spec fn spec_table() -> Seq<(Seq<char>, Seq<char>, Seq<char>)> {
    seq![
        ("menu_title"@, "Terminal Game Collection"@, "终端游戏集合"@),
        ("available_games"@, "Available Games:"@, "可用游戏："@),
        ("controls"@, "Controls:"@, "控制："@),
        ("controls_desc"@, "- Use UP/DOWN arrows to select\n- Press ENTER to start game\n- T: Change language\n- Q: Quit game"@, "- 使用上下方向键选择\n- 按回车键开始游戏\n- T：切换语言\n- Q：退出游戏"@),
        ("compiling"@, "- Press p or Esc to pause game and pretend to compile code (fish)."@, "- 游戏中按p或者Esc可暂停游戏并假装编译代码（摸鱼）"@),
        ("goldminer.goldminer_title"@, "Gold Miner"@, "黄金矿工"@),
        ("goldminer.level"@, "Level:"@, "关卡："@),
        ("goldminer.welcome_to"@, "Welcome to"@, "欢迎来到"@),
        ("goldminer.how_to_play"@, "How to Play:"@, "游戏说明："@),
        ("goldminer.hook_swing"@, "1. The hook swings automatically"@, "1. 钩子自动摆动"@),
        ("goldminer.press_space"@, "2. Press SPACE to release the hook"@, "2. 按空格键释放钩子"@),
        ("goldminer.catch_gold"@, "3. Catch gold (◆/♦) to earn points:"@, "3. 抓取金块（◆/♦）获得分数："@),
        ("goldminer.big_gold_points"@, "   - Big gold (◆) : 200 points"@, "   - 大金块（◆）：200分"@),
        ("goldminer.small_gold_points"@, "   - Small gold (♦) : 100 points"@, "   - 小金块（♦）：100分"@),
        ("goldminer.avoid_stones"@, "4. Avoid stones (■/□) (-50 points)"@, "4. 避开石头（■/□）（-50分）"@),
        ("goldminer.collect_all_gold"@, "5. Collect all gold to advance to next level"@, "5. 收集所有金块进入下一关"@),
        ("goldminer.higher_levels"@, "6. Higher Levels:"@, "6. 更高关卡："@),
        ("goldminer.faster_hook"@, "- Hook swings faster"@, "- 钩子摆动更快"@),
        ("goldminer.heavier_items"@, "- Items become heavier"@, "- 物品变得更重"@),
        ("goldminer.more_obstacles"@, "- More obstacles appear"@, "- 出现更多障碍"@),
        ("goldminer.controls_title"@, "Game Controls:"@, "游戏控制："@),
        ("goldminer.space_control"@, "SPACE: Release/retract hook"@, "空格键：释放/收回钩子"@),
        ("goldminer.quit_control"@, "Q: Return to main menu"@, "Q：返回主菜单"@),
        ("goldminer.press_enter"@, "Press ENTER to start!"@, "按回车键开始！"@),
        ("tetris.tetris_title"@, "Tetris"@, "俄罗斯方块"@),
        ("tetris.score"@, "Score:"@, "分数："@),
        ("tetris.game_over"@, "Game Over!"@, "游戏结束！"@),
        ("tetris.welcome_to"@, "Welcome to"@, "欢迎来到"@),
        ("tetris.how_to_play"@, "How to Play:"@, "游戏说明："@),
        ("tetris.move_horizontal"@, "1. Use LEFT/RIGHT Arrow or A/D to move block horizontally"@, "1. 使用左右箭头键或A/D键左右移动方块"@),
        ("tetris.speed_up"@, "2. Use DOWN Arrow or S to speed up block descent"@, "2. 使用向下箭头键或S键加速方块下降"@),
        ("tetris.rotate"@, "3. Use UP Arrow or W to rotate block"@, "3. 使用向上箭头键或W键旋转方块"@),
        ("tetris.hard_drop"@, "4. Press SPACE to hard drop block"@, "4. 按空格键瞬间放下方块"@),
        ("tetris.clear_lines"@, "5. Clear lines to score points"@, "5. 清除行以获得分数"@),
        ("tetris.one_line"@, "1 line cleared: 100 points"@, "清除1行：100分"@),
        ("tetris.two_lines"@, "2 lines cleared: 300 points"@, "清除2行：300分"@),
        ("tetris.three_lines"@, "3 lines cleared: 500 points"@, "清除3行：500分"@),
        ("tetris.four_lines"@, "4 lines cleared: 800 points"@, "清除4行：800分"@),
        ("tetris.game_ends"@, "Game ends when new blocks can't enter the playing field"@, "当新方块无法进入游戏区域时游戏结束"@),
        ("tetris.quit_control"@, "Q: Return to main menu"@, "Q：返回主菜单"@),
        ("tetris.press_enter"@, "Press ENTER to start!"@, "按回车键开始"@),
        ("tetris.pause_game"@, "Press P or ESC to pause Game"@, "按P或ESC键暂停游戏"@),
        ("tetris.game_paused"@, "Game Paused"@, "游戏暂停"@),
        ("tetris.press_p_to_resume"@, "Press P or ESC to resume"@, "按P或ESC键继续"@),
        ("tetris.restart"@, "Press R to restart after game over"@, "失败后按R键重新开始"@),
        ("snake.snake_title"@, "Snake"@, "贪吃蛇"@),
        ("snake.score"@, "Score:"@, "分数："@),
        ("snake.game_over"@, "Game Over!"@, "游戏结束！"@),
        ("snake.press_r_restart"@, "Press 'R' to restart"@, "按 'R' 键重新开始"@),
        ("snake.how_to_play"@, "How to Play:"@, "游戏说明："@),
        ("snake.move_snake"@, "Use arrow keys or WASD to move the snake"@, "使用方向键或 WASD 移动蛇"@),
        ("snake.eat_food_title"@, "Eat food to grow longer and score points:"@, "吃掉食物可以变长并得分："@),
        ("snake.apple_desc"@, "- Apple (🍎): 50 points (large)"@, "- 苹果(🍎)：50分（大食物）"@),
        ("snake.candy_desc"@, "- Candy (🍬): 150 points (small)"@, "- 糖果(🍬)：150分（小食物）"@),
        ("snake.avoid_walls"@, "Avoid walls, yourself, and be careful with large apples!"@, "避免撞到墙壁和自己，注意大苹果占据的空间！"@),
        ("snake.press_enter"@, "Press ENTER to start"@, "按回车键开始游戏"@),
        ("snake.pause_game"@, "Press P/ESC to pause"@, "按 P/ESC 键暂停游戏"@),
        ("twenty_forty_eight_title"@, "2048"@, "2048"@),
        ("welcome_title"@, "Welcome to 2048!"@, "欢迎来到2048！"@),
        ("press_enter"@, "Press Enter to start"@, "按回车键开始"@),
        ("score"@, "Score: "@, "分数："@),
        ("game_over"@, "Game Over! Press 'r' to restart"@, "游戏结束！按'r'键重新开始"@),
        ("how_to_play"@, "How to Play:"@, "游戏说明："@),
        ("move_controls"@, "Use Arrow keys or WASD to move tiles"@, "使用方向键或WASD移动方块"@),
        ("merge_tip"@, "Merge same numbers to get 2048!"@, "合并相同数字以获得2048！"@),
        ("pause_control"@, "Press P or ESC to pause game"@, "按P或ESC键暂停游戏"@),
        ("game_paused"@, "Game Paused"@, "游戏暂停"@),
        ("resume_tip"@, "Press P or ESC to resume"@, "按P或ESC键继续"@),
        ("minesweeper.minesweeper_title"@, "Minesweeper"@, "扫雷"@),
        ("minesweeper.game_win"@, "Congratulations! You Win!"@, "恭喜你！胜利了！"@),
        ("minesweeper.game_over"@, "Game Over!"@, "游戏结束！"@),
        ("minesweeper.press_r_restart"@, "Press 'r' to restart"@, "按'r'键重新开始"@),
        ("minesweeper.how_to_play"@, "How to Play:"@, "游戏说明："@),
        ("minesweeper.press_enter"@, "Press Enter to start"@, "按回车键开始"@),
        ("minesweeper.controls"@, "- Use arrow keys or WASD to move\n- Space to reveal a cell\n- F to flag/unflag a mine\n- P/ESC to pause\n- Yellow highlight shows current cell"@, "- 使用方向键或WASD移动\n- 空格键翻开格子\n- F键标记/取消标记地雷\n- P/ESC暂停游戏\n- 黄色高亮显示当前选中的格子"@),
        ("minesweeper.goal"@, "Win by either:\n- Revealing all safe cells\n- Correctly flagging all mines"@, "胜利条件：\n- 翻开所有安全格子\n- 或正确标记所有地雷"@),
    ]
}

/// Appends one entry with both texts present.
fn put(v: &mut Vec<Entry>, key: &str, en: &str, zh: &str)
    ensures
        final(v)@.len() == old(v)@.len() + 1,
        forall|i: int| 0 <= i < old(v)@.len() ==> final(v)@[i] == old(v)@[i],
        final(v)@.last().key@ == key@,
        opt_view(final(v)@.last().english) == Some(en@),
        opt_view(final(v)@.last().chinese) == Some(zh@),
        wf_entry(final(v)@.last()),
{
    v.push(Entry {
        key: String::from_str(key),
        english: Some(String::from_str(en)),
        chinese: Some(String::from_str(zh)),
    });
}

impl Translations {
    /// A fresh provider holding the built-in texts of all five games and the
    /// menu, with English selected and no namespace.
    pub fn new() -> (t: Translations)
        ensures
            t.current_language == Language::English,
            t.namespace@ == Seq::<char>::empty(),
            keys_of(t.texts@) == all_keys(),
            t.texts@.len() == spec_table().len(),
            forall|i: int| 0 <= i < t.texts@.len() ==> {
                &&& (#[trigger] t.texts@[i]).key@ == spec_table()[i].0
                &&& opt_view(t.texts@[i].english) == Some(spec_table()[i].1)
                &&& opt_view(t.texts@[i].chinese) == Some(spec_table()[i].2)
            },
            forall|i: int| 0 <= i < t.texts@.len() ==> wf_entry(#[trigger] t.texts@[i]),
    {
        let mut texts: Vec<Entry> = Vec::new();
        put(&mut texts, "menu_title", "Terminal Game Collection", "终端游戏集合");
        put(&mut texts, "available_games", "Available Games:", "可用游戏：");
        put(&mut texts, "controls", "Controls:", "控制：");
        put(&mut texts, "controls_desc", "- Use UP/DOWN arrows to select\n- Press ENTER to start game\n- T: Change language\n- Q: Quit game", "- 使用上下方向键选择\n- 按回车键开始游戏\n- T：切换语言\n- Q：退出游戏");
        put(&mut texts, "compiling", "- Press p or Esc to pause game and pretend to compile code (fish).", "- 游戏中按p或者Esc可暂停游戏并假装编译代码（摸鱼）");
        put(&mut texts, "goldminer.goldminer_title", "Gold Miner", "黄金矿工");
        put(&mut texts, "goldminer.level", "Level:", "关卡：");
        put(&mut texts, "goldminer.welcome_to", "Welcome to", "欢迎来到");
        put(&mut texts, "goldminer.how_to_play", "How to Play:", "游戏说明：");
        put(&mut texts, "goldminer.hook_swing", "1. The hook swings automatically", "1. 钩子自动摆动");
        put(&mut texts, "goldminer.press_space", "2. Press SPACE to release the hook", "2. 按空格键释放钩子");
        put(&mut texts, "goldminer.catch_gold", "3. Catch gold (◆/♦) to earn points:", "3. 抓取金块（◆/♦）获得分数：");
        put(&mut texts, "goldminer.big_gold_points", "   - Big gold (◆) : 200 points", "   - 大金块（◆）：200分");
        put(&mut texts, "goldminer.small_gold_points", "   - Small gold (♦) : 100 points", "   - 小金块（♦）：100分");
        put(&mut texts, "goldminer.avoid_stones", "4. Avoid stones (■/□) (-50 points)", "4. 避开石头（■/□）（-50分）");
        put(&mut texts, "goldminer.collect_all_gold", "5. Collect all gold to advance to next level", "5. 收集所有金块进入下一关");
        put(&mut texts, "goldminer.higher_levels", "6. Higher Levels:", "6. 更高关卡：");
        put(&mut texts, "goldminer.faster_hook", "- Hook swings faster", "- 钩子摆动更快");
        put(&mut texts, "goldminer.heavier_items", "- Items become heavier", "- 物品变得更重");
        put(&mut texts, "goldminer.more_obstacles", "- More obstacles appear", "- 出现更多障碍");
        put(&mut texts, "goldminer.controls_title", "Game Controls:", "游戏控制：");
        put(&mut texts, "goldminer.space_control", "SPACE: Release/retract hook", "空格键：释放/收回钩子");
        put(&mut texts, "goldminer.quit_control", "Q: Return to main menu", "Q：返回主菜单");
        put(&mut texts, "goldminer.press_enter", "Press ENTER to start!", "按回车键开始！");
        put(&mut texts, "tetris.tetris_title", "Tetris", "俄罗斯方块");
        put(&mut texts, "tetris.score", "Score:", "分数：");
        put(&mut texts, "tetris.game_over", "Game Over!", "游戏结束！");
        put(&mut texts, "tetris.welcome_to", "Welcome to", "欢迎来到");
        put(&mut texts, "tetris.how_to_play", "How to Play:", "游戏说明：");
        put(&mut texts, "tetris.move_horizontal", "1. Use LEFT/RIGHT Arrow or A/D to move block horizontally", "1. 使用左右箭头键或A/D键左右移动方块");
        put(&mut texts, "tetris.speed_up", "2. Use DOWN Arrow or S to speed up block descent", "2. 使用向下箭头键或S键加速方块下降");
        put(&mut texts, "tetris.rotate", "3. Use UP Arrow or W to rotate block", "3. 使用向上箭头键或W键旋转方块");
        put(&mut texts, "tetris.hard_drop", "4. Press SPACE to hard drop block", "4. 按空格键瞬间放下方块");
        put(&mut texts, "tetris.clear_lines", "5. Clear lines to score points", "5. 清除行以获得分数");
        put(&mut texts, "tetris.one_line", "1 line cleared: 100 points", "清除1行：100分");
        put(&mut texts, "tetris.two_lines", "2 lines cleared: 300 points", "清除2行：300分");
        put(&mut texts, "tetris.three_lines", "3 lines cleared: 500 points", "清除3行：500分");
        put(&mut texts, "tetris.four_lines", "4 lines cleared: 800 points", "清除4行：800分");
        put(&mut texts, "tetris.game_ends", "Game ends when new blocks can't enter the playing field", "当新方块无法进入游戏区域时游戏结束");
        put(&mut texts, "tetris.quit_control", "Q: Return to main menu", "Q：返回主菜单");
        put(&mut texts, "tetris.press_enter", "Press ENTER to start!", "按回车键开始");
        put(&mut texts, "tetris.pause_game", "Press P or ESC to pause Game", "按P或ESC键暂停游戏");
        put(&mut texts, "tetris.game_paused", "Game Paused", "游戏暂停");
        put(&mut texts, "tetris.press_p_to_resume", "Press P or ESC to resume", "按P或ESC键继续");
        put(&mut texts, "tetris.restart", "Press R to restart after game over", "失败后按R键重新开始");
        put(&mut texts, "snake.snake_title", "Snake", "贪吃蛇");
        put(&mut texts, "snake.score", "Score:", "分数：");
        put(&mut texts, "snake.game_over", "Game Over!", "游戏结束！");
        put(&mut texts, "snake.press_r_restart", "Press 'R' to restart", "按 'R' 键重新开始");
        put(&mut texts, "snake.how_to_play", "How to Play:", "游戏说明：");
        put(&mut texts, "snake.move_snake", "Use arrow keys or WASD to move the snake", "使用方向键或 WASD 移动蛇");
        put(&mut texts, "snake.eat_food_title", "Eat food to grow longer and score points:", "吃掉食物可以变长并得分：");
        put(&mut texts, "snake.apple_desc", "- Apple (🍎): 50 points (large)", "- 苹果(🍎)：50分（大食物）");
        put(&mut texts, "snake.candy_desc", "- Candy (🍬): 150 points (small)", "- 糖果(🍬)：150分（小食物）");
        put(&mut texts, "snake.avoid_walls", "Avoid walls, yourself, and be careful with large apples!", "避免撞到墙壁和自己，注意大苹果占据的空间！");
        put(&mut texts, "snake.press_enter", "Press ENTER to start", "按回车键开始游戏");
        put(&mut texts, "snake.pause_game", "Press P/ESC to pause", "按 P/ESC 键暂停游戏");
        put(&mut texts, "twenty_forty_eight_title", "2048", "2048");
        put(&mut texts, "welcome_title", "Welcome to 2048!", "欢迎来到2048！");
        put(&mut texts, "press_enter", "Press Enter to start", "按回车键开始");
        put(&mut texts, "score", "Score: ", "分数：");
        put(&mut texts, "game_over", "Game Over! Press 'r' to restart", "游戏结束！按'r'键重新开始");
        put(&mut texts, "how_to_play", "How to Play:", "游戏说明：");
        put(&mut texts, "move_controls", "Use Arrow keys or WASD to move tiles", "使用方向键或WASD移动方块");
        put(&mut texts, "merge_tip", "Merge same numbers to get 2048!", "合并相同数字以获得2048！");
        put(&mut texts, "pause_control", "Press P or ESC to pause game", "按P或ESC键暂停游戏");
        put(&mut texts, "game_paused", "Game Paused", "游戏暂停");
        put(&mut texts, "resume_tip", "Press P or ESC to resume", "按P或ESC键继续");
        put(&mut texts, "minesweeper.minesweeper_title", "Minesweeper", "扫雷");
        put(&mut texts, "minesweeper.game_win", "Congratulations! You Win!", "恭喜你！胜利了！");
        put(&mut texts, "minesweeper.game_over", "Game Over!", "游戏结束！");
        put(&mut texts, "minesweeper.press_r_restart", "Press 'r' to restart", "按'r'键重新开始");
        put(&mut texts, "minesweeper.how_to_play", "How to Play:", "游戏说明：");
        put(&mut texts, "minesweeper.press_enter", "Press Enter to start", "按回车键开始");
        put(&mut texts, "minesweeper.controls", "- Use arrow keys or WASD to move\n- Space to reveal a cell\n- F to flag/unflag a mine\n- P/ESC to pause\n- Yellow highlight shows current cell", "- 使用方向键或WASD移动\n- 空格键翻开格子\n- F键标记/取消标记地雷\n- P/ESC暂停游戏\n- 黄色高亮显示当前选中的格子");
        put(&mut texts, "minesweeper.goal", "Win by either:\n- Revealing all safe cells\n- Correctly flagging all mines", "胜利条件：\n- 翻开所有安全格子\n- 或正确标记所有地雷");
        proof {
            assert(keys_of(texts@) =~= all_keys());
            assert forall|i: int| 0 <= i < texts@.len() implies {
                &&& (#[trigger] texts@[i]).key@ == spec_table()[i].0
                &&& opt_view(texts@[i].english) == Some(spec_table()[i].1)
                &&& opt_view(texts@[i].chinese) == Some(spec_table()[i].2)
            } by {
                assert(texts@.len() == spec_table().len());
            }
        }
        Translations {
            texts,
            current_language: Language::English,
            namespace: String::new(),
        }
    }

    /// The text stored for `key` under the current namespace and language,
    /// with the English fallback, or the visible placeholder when nothing is
    /// stored.
    pub fn get_text(&self, key: &str) -> (r: String)
        ensures
            r@ == spec_get_text(
                self.texts@,
                self.current_language,
                spec_full_key(self.namespace@, key@),
            ),
    {
        let full: String = if self.namespace.as_str().is_empty() {
            String::from_str(key)
        } else {
            let mut f = self.namespace.clone();
            f.append(".");
            f.append(key);
            f
        };
        let ghost k = spec_full_key(self.namespace@, key@);
        assert(full@ == k);
        let mut i: usize = 0;
        while i < self.texts.len()
            invariant
                0 <= i <= self.texts@.len(),
                full@ == k,
                k == spec_full_key(self.namespace@, key@),
                lookup(self.texts@, k) == lookup_from(self.texts@, k, i as int),
            decreases self.texts@.len() - i,
        {
            if self.texts[i].key == full {
                proof {
                    assert(self.texts@[i as int].key@ == k);
                    assert(lookup(self.texts@, k) == Some(self.texts@[i as int]));
                }
                let e = &self.texts[i];
                let primary = match self.current_language {
                    Language::English => &e.english,
                    Language::Chinese => &e.chinese,
                };
                match primary {
                    Some(s) => {
                        return s.clone();
                    },
                    None => {
                        match &e.english {
                            Some(s) => {
                                return s.clone();
                            },
                            None => {
                                return String::from_str("Missing translation: ").concat(
                                    full.as_str(),
                                );
                            },
                        }
                    },
                }
            }
            i = i + 1;
        }
        proof {
            assert(lookup(self.texts@, k) is None);
        }
        String::from_str("Missing translation: ").concat(full.as_str())
    }

    /// The same provider with the key prefix replaced.
    pub fn with_namespace(self, namespace: &str) -> (t: Translations)
        ensures
            t.texts == self.texts,
            t.current_language == self.current_language,
            t.namespace@ == namespace@,
    {
        Translations {
            texts: self.texts,
            current_language: self.current_language,
            namespace: String::from_str(namespace),
        }
    }

    /// Selects the language subsequent lookups use.
    pub fn set_language(&mut self, language: Language)
        ensures
            final(self).current_language == language,
            final(self).texts == old(self).texts,
            final(self).namespace == old(self).namespace,
    {
        self.current_language = language;
    }

    /// The language lookups currently use.
    pub fn current_language(&self) -> (l: Language)
        ensures
            l == self.current_language,
    {
        self.current_language
    }
}

} // verus!
