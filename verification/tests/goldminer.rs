use terminal_games::games::goldminer::{GameState, GoldCell, GoldFrame, GoldMiner};
use terminal_games::hook::HookState;
use terminal_games::item::{Item, ItemType};
use terminal_games::keys::Key;

fn started(width: u16, height: u16) -> GoldMiner {
    let mut g = GoldMiner::new(width, height);
    g.handle_input(Key::Enter);
    g
}

#[test]
fn new_game_rests_at_the_ceiling() {
    let g = GoldMiner::new(80, 30);
    assert!(matches!(g.game_state, GameState::Welcome));
    assert!(matches!(g.hook_state, HookState::Idle));
    assert_eq!(g.hook_y, 2000);
    assert_eq!(g.hook_angle, 0);
    assert_eq!(g.score, 0);
    assert_eq!(g.level, 1);
    assert!(g.caught_item.is_none());
}

#[test]
fn generated_items_stay_inside_the_band() {
    let mut g = GoldMiner::new(80, 30);
    g.level = 3;
    g.generate_items();
    // level 3: three big gold, six small gold, five stones
    assert_eq!(g.items.len(), 3 + 6 + 5);
    let golds = g
        .items
        .iter()
        .filter(|it| matches!(it.item_type, ItemType::Gold))
        .count();
    assert_eq!(golds, 9);
    for it in &g.items {
        assert!(it.x >= 10_000 && it.x < 70_000);
        assert!(it.y >= 7_500 && it.y < 25_000);
    }
}

#[test]
fn idle_tick_swings_and_wraps() {
    let mut g = started(80, 30);
    g.last_update = 0;
    g.update(16);
    // level one swings at 500 milli-radians per second: 8 per 16 ms tick
    assert_eq!(g.hook_angle, 8);
    assert_eq!(g.hook_y, 2000);
    g.hook_angle = 3140;
    g.last_update = 0;
    g.update(16);
    assert_eq!(g.hook_angle, -3142);
}

#[test]
fn space_releases_only_an_idle_hook() {
    let mut g = started(80, 30);
    g.handle_input(Key::Char(' '));
    assert!(matches!(g.hook_state, HookState::Extending));
    g.handle_input(Key::Char(' '));
    assert!(matches!(g.hook_state, HookState::Extending));
}

#[test]
fn pause_toggles_on_the_same_key() {
    let mut g = started(80, 30);
    g.handle_input(Key::Char('p'));
    assert!(matches!(g.game_state, GameState::Paused));
    g.handle_input(Key::Char('p'));
    assert!(matches!(g.game_state, GameState::Playing));
    g.handle_input(Key::Esc);
    assert!(matches!(g.game_state, GameState::Paused));
}

#[test]
fn full_cycle_banks_the_gold_exactly_once() {
    let mut g = started(80, 30);
    // one small gold nugget straight below the pivot
    g.hook_angle = 0;
    g.items = vec![Item {
        x: 40_000,
        y: 20_000,
        item_type: ItemType::Gold,
        value: 100,
        size: 1000,
        weight: 1000,
    }];
    g.caught_item = None;
    g.last_update = 0;
    assert_eq!(g.hook_y, 2000);
    g.handle_input(Key::Char(' '));
    assert!(matches!(g.hook_state, HookState::Extending));

    let mut now = 0u64;
    for _ in 0..2000 {
        now += 16;
        g.update(now);
        if matches!(g.hook_state, HookState::Retracting) {
            break;
        }
    }
    assert!(matches!(g.hook_state, HookState::Retracting));
    assert!(g.caught_item.is_some());
    // caught means gone from the active set at once
    assert!(g.items.is_empty());
    assert_eq!(g.score, 0);

    for _ in 0..20000 {
        now += 16;
        g.update(now);
        if matches!(g.hook_state, HookState::Idle) {
            break;
        }
    }
    assert!(matches!(g.hook_state, HookState::Idle));
    assert_eq!(g.hook_y, 2000);
    assert!(g.caught_item.is_none());
    assert_eq!(g.score, 100);
    // the last gold was collected, so the level stepped up and regenerated
    assert_eq!(g.level, 2);
    assert!(!g.items.is_empty());
}

#[test]
fn twin_items_on_one_spot_leave_together_but_pay_once() {
    let mut g = started(80, 30);
    g.hook_angle = 0;
    let nugget = Item {
        x: 40_000,
        y: 20_000,
        item_type: ItemType::Gold,
        value: 100,
        size: 1000,
        weight: 1000,
    };
    g.items = vec![nugget, nugget];
    g.caught_item = None;
    g.last_update = 0;
    g.handle_input(Key::Char(' '));
    let mut now = 0u64;
    for _ in 0..2000 {
        now += 16;
        g.update(now);
        if matches!(g.hook_state, HookState::Retracting) {
            break;
        }
    }
    assert!(g.items.is_empty());
    for _ in 0..20000 {
        now += 16;
        g.update(now);
        if matches!(g.hook_state, HookState::Idle) {
            break;
        }
    }
    assert_eq!(g.score, 100);
}

#[test]
fn level_stays_while_gold_remains() {
    let mut g = started(80, 30);
    let stone = Item {
        x: 20_000,
        y: 20_000,
        item_type: ItemType::Stone,
        value: -50,
        size: 1500,
        weight: 2000,
    };
    let gold = Item {
        x: 60_000,
        y: 20_000,
        item_type: ItemType::Gold,
        value: 200,
        size: 2000,
        weight: 3000,
    };
    g.items = vec![gold];
    g.caught_item = Some(stone);
    g.hook_state = HookState::Retracting;
    g.hook_y = 3000;
    g.last_update = 0;
    let mut now = 0u64;
    for _ in 0..20000 {
        now += 16;
        g.update(now);
        if matches!(g.hook_state, HookState::Idle) {
            break;
        }
    }
    assert_eq!(g.score, -50);
    assert_eq!(g.level, 1);
    assert_eq!(g.items.len(), 1);
}

#[test]
fn empty_handed_hook_turns_back_at_the_floor() {
    let mut g = started(80, 30);
    g.hook_angle = 0;
    g.items = vec![];
    g.last_update = 0;
    g.handle_input(Key::Char(' '));
    let mut now = 0u64;
    for _ in 0..2000 {
        now += 16;
        g.update(now);
        if matches!(g.hook_state, HookState::Retracting) {
            break;
        }
    }
    assert!(matches!(g.hook_state, HookState::Retracting));
    assert!(g.caught_item.is_none());
    // the hook crossed the floor line and the same tick already pulled it
    // back a little
    assert!(g.hook_y > 24_000);
}

#[test]
fn render_draws_hook_and_rope_in_the_pivot_column() {
    let mut g = started(80, 30);
    g.hook_angle = 0;
    g.items = vec![];
    match g.render(80, 30) {
        GoldFrame::Board(grid) => {
            assert_eq!(grid.len(), 30);
            assert_eq!(grid[0].len(), 80);
            assert!(matches!(grid[2][40], GoldCell::Hook));
            assert!(matches!(grid[1][40], GoldCell::Rope));
            assert!(matches!(grid[0][40], GoldCell::Rope));
            assert!(matches!(grid[5][40], GoldCell::Empty));
        },
        _ => panic!("expected the board"),
    }
}

#[test]
fn render_refuses_a_degenerate_viewport() {
    let mut g = started(80, 30);
    match g.render(10, 5) {
        GoldFrame::TooSmall => (),
        _ => panic!("expected the resize notice"),
    }
    // the refused render left the cached viewport alone
    assert_eq!(g.window_width, 80);
    assert_eq!(g.window_height, 30);
}

#[test]
fn render_on_welcome_and_pause() {
    let mut g = GoldMiner::new(80, 30);
    assert!(matches!(g.render(80, 30), GoldFrame::Welcome));
    g.handle_input(Key::Enter);
    g.handle_input(Key::Char('p'));
    match g.render(80, 30) {
        GoldFrame::Paused(lines) => assert!(!lines.is_empty()),
        _ => panic!("expected the pause overlay"),
    }
}
