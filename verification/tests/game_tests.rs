use nut_catcher::animation::Animation;
use nut_catcher::char_action::Char_action;
use nut_catcher::game::{catches, Game, Input, Sprite, SPEED_STEP};
use nut_catcher::game_state::{init_game_state, GameState};
use nut_catcher::geometry::{ScreenRect, SheetRegion};

const NONE: Input = Input { left: false, right: false };
const LEFT: Input = Input { left: true, right: false };
const RIGHT: Input = Input { left: false, right: true };
const BOTH: Input = Input { left: true, right: true };

fn sheet(n: u32) -> SheetRegion {
    SheetRegion { x: 126, y: 25 + 24 * n, width: 32, height: 22 }
}

fn nut_sheet() -> SheetRegion {
    SheetRegion { x: 0, y: 0, width: 123, height: 172 }
}

fn rect(x: i32, y: i32, width: i32, height: i32) -> ScreenRect {
    ScreenRect { x, y, width, height }
}

fn player_at(region: ScreenRect, facing_right: bool) -> Char_action {
    let mut list = Vec::new();
    let mut n: u32 = 0;
    while n < 5 {
        list.push(sheet(n));
        n += 1;
    }
    let walk = Animation::new(list, 1).expect("a non-empty frame list");
    Char_action::new(region, walk, 20, facing_right, 0, 600)
        .expect("a width that agrees with the facing")
}

fn nut_at(region: ScreenRect, speed: i32) -> Char_action {
    let still = Animation::new(vec![nut_sheet()], 7).expect("a non-empty frame list");
    Char_action::new(region, still, speed, false, 1, 600)
        .expect("a width that agrees with the facing")
}

fn blank() -> Sprite {
    Sprite { screen_region: rect(0, 0, 0, 0), sheet_region: nut_sheet() }
}

fn game(player: Char_action, nut: Char_action) -> Game {
    Game::new(player, nut, vec![blank(), blank()]).expect("an entry for each actor")
}

#[test]
fn init_game_state_starts_from_nothing() {
    let gs = init_game_state();
    assert_eq!(gs, GameState { chars_typed: 0, score: 0, score_changing: false });
}

#[test]
fn record_check_scores_on_the_rising_edge_only() {
    let mut gs = init_game_state();
    gs.record_check(true);
    assert_eq!(gs, GameState { chars_typed: 0, score: 1, score_changing: true });
    gs.record_check(true);
    assert_eq!(gs, GameState { chars_typed: 0, score: 1, score_changing: true });
    gs.record_check(false);
    assert_eq!(gs, GameState { chars_typed: 0, score: 1, score_changing: false });
    gs.record_check(false);
    assert_eq!(gs, GameState { chars_typed: 0, score: 1, score_changing: false });
    gs.record_check(true);
    assert_eq!(gs, GameState { chars_typed: 0, score: 2, score_changing: true });
}

#[test]
fn record_check_stops_at_the_largest_score() {
    let mut gs = GameState { chars_typed: 4, score: usize::MAX, score_changing: false };
    gs.record_check(true);
    assert_eq!(gs, GameState { chars_typed: 4, score: usize::MAX, score_changing: true });
}

#[test]
fn new_game_starts_unscored() {
    let g = game(player_at(rect(320, 320, 1000, 1000), false), nut_at(rect(200, 2000, 550, 550), 20));
    assert_eq!(g.state(), init_game_state());
    assert_eq!(g.nut_count(), 0);
    assert_eq!(g.sprites().len(), 2);
    assert_eq!(g.player().screen_region(), rect(320, 320, 1000, 1000));
    assert_eq!(g.faller().screen_region(), rect(200, 2000, 550, 550));
}

#[test]
fn new_game_rejects_an_actor_without_entry() {
    let p = player_at(rect(320, 320, 1000, 1000), false);
    let n = nut_at(rect(200, 2000, 550, 550), 20);
    assert!(Game::new(p, n, vec![blank()]).is_none());
    let p = player_at(rect(320, 320, 1000, 1000), false);
    let n = nut_at(rect(200, 2000, 550, 550), 20);
    assert!(Game::new(p, n, Vec::new()).is_none());
}

#[test]
fn catches_on_overlapping_boxes() {
    let p = player_at(rect(1000, 1000, 1000, 1000), false);
    assert!(catches(&p, &nut_at(rect(1500, 1200, 550, 550), 20)));
    assert!(catches(&p, &nut_at(rect(451, 1200, 550, 550), 20)));
    assert!(catches(&p, &nut_at(rect(1999, 1200, 550, 550), 20)));
}

#[test]
fn catches_not_on_touching_boxes() {
    let p = player_at(rect(1000, 1000, 1000, 1000), false);
    assert!(!catches(&p, &nut_at(rect(450, 1200, 550, 550), 20)));
    assert!(!catches(&p, &nut_at(rect(2000, 1200, 550, 550), 20)));
}

#[test]
fn catches_takes_y_as_the_bottom_of_a_box_that_extends_upward() {
    // Player: y from 0 to 1000 in the test's terms (1000 - height .. 1000).
    let p = player_at(rect(1000, 1000, 1000, 1000), false);
    // The nut's box ends where the player's begins, or begins where it ends.
    assert!(!catches(&p, &nut_at(rect(1200, 1550, 550, 550), 20)));
    assert!(catches(&p, &nut_at(rect(1200, 1549, 550, 550), 20)));
    assert!(!catches(&p, &nut_at(rect(1200, 0, 550, 550), 20)));
    assert!(catches(&p, &nut_at(rect(1200, 1, 550, 550), 20)));
}

#[test]
fn catches_uses_the_upright_box_of_a_mirrored_player() {
    // Facing right, the origin is the right edge: the box spans 1000..2000.
    let p = player_at(rect(2000, 1000, -1000, 1000), true);
    assert!(catches(&p, &nut_at(rect(1500, 1200, 550, 550), 20)));
    assert!(catches(&p, &nut_at(rect(451, 1200, 550, 550), 20)));
    assert!(!catches(&p, &nut_at(rect(450, 1200, 550, 550), 20)));
    assert!(catches(&p, &nut_at(rect(1999, 1200, 550, 550), 20)));
    assert!(!catches(&p, &nut_at(rect(2000, 1200, 550, 550), 20)));
    assert!(!catches(&p, &nut_at(rect(2500, 1200, 550, 550), 20)));
}

#[test]
fn catches_at_the_ends_of_the_range() {
    let p = player_at(rect(i32::MAX, i32::MAX, i32::MIN, i32::MAX), true);
    assert!(!catches(&p, &nut_at(rect(i32::MIN, i32::MIN, 0, i32::MAX), 20)));
    let q = player_at(rect(i32::MAX - 10, 0, i32::MAX, i32::MAX), false);
    assert!(catches(&q, &nut_at(rect(i32::MAX - 5, -5, i32::MAX, i32::MAX), 20)));
}

#[test]
fn left_key_turns_walks_and_animates() {
    let mut g = game(player_at(rect(2000, 320, -1000, 1000), true), nut_at(rect(200, 7000, 550, 550), 20));
    assert_eq!(g.update_with(LEFT, 0, 0), None);
    assert!(!g.player().facing_right());
    assert_eq!(g.player().screen_region(), rect(1380, 320, 1000, 1000));
    assert_eq!(g.player().animation().frame_counter(), 1);
    g.update_with(LEFT, 0, 0);
    assert_eq!(g.player().screen_region(), rect(1360, 320, 1000, 1000));
    assert_eq!(g.player().animation().state_number(), 1);
}

#[test]
fn right_key_turns_walks_and_animates() {
    let mut g = game(player_at(rect(320, 320, 1000, 1000), false), nut_at(rect(200, 7000, 550, 550), 20));
    g.update_with(RIGHT, 0, 0);
    assert!(g.player().facing_right());
    assert_eq!(g.player().screen_region(), rect(940, 320, -1000, 1000));
    assert_eq!(g.player().animation().frame_counter(), 1);
}

#[test]
fn left_key_wins_over_right_key() {
    let mut g = game(player_at(rect(320, 320, 1000, 1000), false), nut_at(rect(200, 7000, 550, 550), 20));
    g.update_with(BOTH, 0, 0);
    assert!(!g.player().facing_right());
    assert_eq!(g.player().screen_region(), rect(300, 320, 1000, 1000));
}

#[test]
fn no_key_returns_the_player_to_the_rest_frame() {
    let mut g = game(player_at(rect(320, 320, 1000, 1000), false), nut_at(rect(200, 7000, 550, 550), 20));
    g.update_with(LEFT, 0, 0);
    g.update_with(LEFT, 0, 0);
    g.update_with(LEFT, 0, 0);
    assert_eq!(g.player().animation().state_number(), 1);
    assert_eq!(g.player().animation().frame_counter(), 1);
    g.update_with(NONE, 0, 0);
    assert_eq!(g.player().animation().state_number(), 0);
    assert_eq!(g.player().animation().frame_counter(), 0);
    assert_eq!(g.player().screen_region(), rect(260, 320, 1000, 1000));
    g.update_with(NONE, 0, 0);
    assert_eq!(g.player().animation().state_number(), 0);
    assert_eq!(g.player().screen_region(), rect(260, 320, 1000, 1000));
}

#[test]
fn the_nut_falls_on_every_tick() {
    let mut g = game(player_at(rect(320, 320, 1000, 1000), false), nut_at(rect(5000, 7000, 550, 550), 20));
    g.update_with(NONE, 0, 0);
    assert_eq!(g.faller().screen_region(), rect(5000, 6980, 550, 550));
    g.update_with(LEFT, 0, 0);
    assert_eq!(g.faller().screen_region(), rect(5000, 6960, 550, 550));
}

#[test]
fn a_landed_nut_respawns_in_the_fall_column() {
    let mut g = game(player_at(rect(320, 3200, 1000, 1000), false), nut_at(rect(5000, 10, 550, 550), 20));
    assert_eq!(g.update_with(NONE, 700, 3), None);
    assert_eq!(g.faller().screen_region(), rect(7000, 7680, 550, 550));
    assert_eq!(g.faller().speed(), 20);
    assert_eq!(g.nut_count(), 0);
    assert_eq!(g.state(), init_game_state());
}

#[test]
fn update_writes_both_actors_to_the_sprite_list() {
    let mut g = game(player_at(rect(320, 320, 1000, 1000), false), nut_at(rect(5000, 7000, 550, 550), 20));
    g.update_with(LEFT, 0, 0);
    g.update_with(LEFT, 0, 0);
    let list = g.sprites();
    assert_eq!(list.len(), 2);
    assert_eq!(list[0], Sprite { screen_region: rect(280, 320, 1000, 1000), sheet_region: sheet(1) });
    assert_eq!(list[1], Sprite { screen_region: rect(5000, 6960, 550, 550), sheet_region: nut_sheet() });
}

#[test]
fn a_catch_counts_speeds_up_and_respawns_the_nut() {
    let mut g = game(player_at(rect(1000, 1000, 1000, 1000), false), nut_at(rect(1500, 1220, 550, 550), 20));
    assert_eq!(g.update_with(NONE, 9, 400), Some(1));
    assert_eq!(g.state(), GameState { chars_typed: 0, score: 1, score_changing: true });
    assert_eq!(g.nut_count(), 1);
    assert_eq!(g.faller().speed(), 20 + SPEED_STEP);
    assert_eq!(g.faller().speed(), 21);
    assert_eq!(g.faller().screen_region(), rect(4000, 7680, 550, 550));
    // The list shows the nut where it was caught until the next tick.
    assert_eq!(g.sprites()[1].screen_region, rect(1500, 1200, 550, 550));
    assert_eq!(g.update_with(NONE, 9, 400), None);
    assert_eq!(g.sprites()[1].screen_region, rect(4000, 7659, 550, 550));
    assert_eq!(g.state(), GameState { chars_typed: 0, score: 1, score_changing: false });
}

#[test]
fn overlap_held_for_three_ticks_scores_once() {
    // The player stands where the nut respawns, so each tick catches it again.
    let mut g = game(player_at(rect(1000, 7700, 1000, 1000), false), nut_at(rect(1200, 7600, 550, 550), 20));
    assert_eq!(g.update_with(NONE, 0, 120), Some(1));
    assert_eq!(g.update_with(NONE, 0, 120), None);
    assert_eq!(g.update_with(NONE, 0, 120), None);
    assert_eq!(g.state(), GameState { chars_typed: 0, score: 1, score_changing: true });
    assert_eq!(g.nut_count(), 3);
    assert_eq!(g.faller().speed(), 23);
}

#[test]
fn a_second_catch_after_a_miss_scores_again() {
    let mut g = game(player_at(rect(1000, 7700, 1000, 1000), false), nut_at(rect(1200, 7680, 550, 550), 100));
    // Caught at the top; it respawns far from the player.
    assert_eq!(g.update_with(NONE, 120, 900), Some(1));
    assert_eq!(g.faller().screen_region(), rect(9000, 7680, 550, 550));
    // Missed: the trigger is released.
    assert_eq!(g.update_with(NONE, 120, 900), None);
    assert_eq!(g.state(), GameState { chars_typed: 0, score: 1, score_changing: false });
    assert_eq!(g.faller().screen_region(), rect(9000, 7579, 550, 550));
    // It falls at 101 units per tick: 75 more ticks take it to y = 4, the
    // next one to the bottom, where it respawns on the player.
    let mut n = 0;
    while n < 75 {
        assert_eq!(g.update_with(NONE, 120, 900), None);
        n += 1;
    }
    assert_eq!(g.faller().screen_region(), rect(9000, 4, 550, 550));
    assert_eq!(g.update_with(NONE, 120, 900), Some(2));
    assert_eq!(g.state(), GameState { chars_typed: 0, score: 2, score_changing: true });
    assert_eq!(g.nut_count(), 2);
    assert_eq!(g.faller().speed(), 102);
    assert_eq!(g.faller().screen_region(), rect(9000, 7680, 550, 550));
}

#[test]
fn a_mirrored_player_catches_with_its_upright_box() {
    // Turned right, the player's origin is its right edge: after the turn
    // and one step the box spans 620..1620.
    let mut g = game(player_at(rect(1000, 1000, 1000, 1000), false), nut_at(rect(1619, 1220, 550, 550), 20));
    assert_eq!(g.update_with(RIGHT, 0, 50), Some(1));
    assert!(g.player().facing_right());
    assert_eq!(g.player().screen_region(), rect(1620, 1000, -1000, 1000));
    assert_eq!(g.faller().screen_region(), rect(500, 7680, 550, 550));
    let mut h = game(player_at(rect(1000, 1000, 1000, 1000), false), nut_at(rect(1620, 1220, 550, 550), 20));
    assert_eq!(h.update_with(RIGHT, 0, 50), None);
    let mut k = game(player_at(rect(1000, 1000, 1000, 1000), false), nut_at(rect(70, 1220, 550, 550), 20));
    assert_eq!(k.update_with(RIGHT, 0, 50), None);
    let mut m = game(player_at(rect(1000, 1000, 1000, 1000), false), nut_at(rect(71, 1220, 550, 550), 20));
    assert_eq!(m.update_with(RIGHT, 0, 50), Some(1));
}

#[test]
fn update_never_lowers_the_score() {
    let mut g = game(player_at(rect(5000, 7700, 1000, 1000), false), nut_at(rect(5200, 300, 550, 550), 200));
    let mut last = g.state().score;
    let mut n = 0;
    while n < 3000 {
        let input = if n % 3 == 0 { LEFT } else if n % 3 == 1 { RIGHT } else { NONE };
        let before = g.state().score;
        let news = g.update(input);
        let now = g.state().score;
        assert!(now >= last);
        assert!(now <= last + 1);
        if now != before {
            assert_eq!(news, Some(now));
        } else {
            assert_eq!(news, None);
        }
        let r = g.faller().screen_region();
        assert!(0 <= r.x && r.x <= 10240);
        assert_eq!(r.x % 10, 0);
        assert!(r.y > 0 && r.y <= 7680);
        assert_eq!(g.sprites().len(), 2);
        last = now;
        n += 1;
    }
}

#[test]
fn actors_may_share_a_sprite_entry() {
    let p = player_at(rect(320, 320, 1000, 1000), false);
    let still = Animation::new(vec![nut_sheet()], 7).expect("a non-empty frame list");
    let n = Char_action::new(rect(5000, 7000, 550, 550), still, 20, false, 0, 600)
        .expect("a width that agrees with the facing");
    let mut g = Game::new(p, n, vec![blank()]).expect("an entry for each actor");
    g.update_with(NONE, 0, 0);
    assert_eq!(g.sprites()[0], Sprite { screen_region: rect(5000, 6980, 550, 550), sheet_region: sheet(0) });
    assert_eq!(g.state().score, 0);
}
