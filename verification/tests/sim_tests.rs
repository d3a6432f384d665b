use high_mountain_trucker::boulder::Boulder;
use high_mountain_trucker::geom::Vec2Fx;
use high_mountain_trucker::pickup::{Pickup, PickupType};
use high_mountain_trucker::sim::{GameState, Mode};

const VIEWPORT: i64 = 64_000;

fn playing_state() -> GameState {
    let mut s = GameState::new(VIEWPORT, VIEWPORT);
    s.handle_confirm();
    assert_eq!(s.mode, Mode::Playing);
    s
}

#[test]
fn new_session_scales_the_pace_constants() {
    let s = GameState::new(VIEWPORT, VIEWPORT);
    assert_eq!(s.mode, Mode::Title);
    assert_eq!(s.score, 0);
    assert_eq!(s.speed_x, VIEWPORT / 120);
    assert_eq!(s.gravity, VIEWPORT / 32);
    assert_eq!(s.speed_y, VIEWPORT / 480);
    assert_eq!(s.ascent_speed, 0);
    assert_eq!(s.boulders.len(), 2);
    assert_eq!(s.pickups.len(), 4);
    assert_eq!(s.player.pos.x, VIEWPORT / 4);
    assert_eq!(s.player.pos.y, VIEWPORT / 2);
    assert_eq!(s.mouse_pos.x, 0);
    assert_eq!(s.mouse_pos.y, VIEWPORT / 6);
    assert!(s.is_well_formed());
    // uniform terrain one sixth above the bottom edge
    assert_eq!(
        s.terrain.get_height_at(10),
        Some(VIEWPORT - VIEWPORT / 6)
    );
}

#[test]
fn reset_lays_out_pickups_and_boulders() {
    let s = GameState::new(VIEWPORT, VIEWPORT);
    for b in s.boulders.iter() {
        assert_eq!(b.pos.x, VIEWPORT);
        assert!(0 <= b.pos.y && b.pos.y < 48_000);
    }
    for (i, p) in s.pickups.iter().enumerate() {
        assert!(!p.collected);
        assert!(0 <= p.pos.y && p.pos.y < VIEWPORT);
        if i < 2 {
            assert_eq!(p.pos.x, VIEWPORT + i as i64 * 20_000);
            assert_eq!(p.value, 25);
        } else {
            assert_eq!(p.pos.x, VIEWPORT + (i as i64 - 2) * 30_000);
            assert_eq!(p.value, 50);
        }
    }
}

#[test]
fn confirm_walks_the_mode_machine() {
    let mut s = GameState::new(VIEWPORT, VIEWPORT);
    assert_eq!(s.mode, Mode::Title);
    s.handle_confirm();
    assert_eq!(s.mode, Mode::Playing);
    s.handle_confirm();
    assert_eq!(s.mode, Mode::Playing);
    s.mode = Mode::GameOver;
    s.handle_confirm();
    assert_eq!(s.mode, Mode::Title);
}

#[test]
fn pointer_press_starts_from_title_only() {
    let mut s = GameState::new(VIEWPORT, VIEWPORT);
    s.handle_pointer_press();
    assert_eq!(s.mode, Mode::Playing);
    s.mode = Mode::GameOver;
    s.handle_pointer_press();
    assert_eq!(s.mode, Mode::GameOver);
}

#[test]
fn speed_nudges_step_and_floor() {
    let mut s = GameState::new(VIEWPORT, VIEWPORT);
    let start = s.speed_x;
    s.nudge_speed_up();
    assert_eq!(s.speed_x, start + 20);
    s.speed_x = 10;
    s.nudge_speed_down();
    assert_eq!(s.speed_x, 0);
    s.nudge_speed_down();
    assert_eq!(s.speed_x, 0);
}

#[test]
fn tick_does_nothing_outside_play() {
    let mut s = GameState::new(VIEWPORT, VIEWPORT);
    let before_y = s.player.pos.y;
    s.tick(16, false, false, false);
    assert_eq!(s.mode, Mode::Title);
    assert_eq!(s.player.pos.y, before_y);
}

#[test]
fn tick_snaps_player_to_ground_within_buffer() {
    let mut s = playing_state();
    s.speed_x = 0; // hold the terrain still
    let ground = VIEWPORT - VIEWPORT / 6; // 53334
    // bottom at 53000, within the 500-subunit buffer of the ground
    s.player.pos.y = 50_000;
    s.tick(0, false, false, false);
    assert_eq!(s.mode, Mode::Playing);
    assert_eq!(s.player.pos.y, ground - 3_000);
    assert_eq!(s.player.velocity.y, 0);
    assert!(s.player.on_ground);
}

#[test]
fn tick_leaves_player_airborne_above_buffer() {
    let mut s = playing_state();
    s.speed_x = 0;
    s.player.pos.y = 10_000;
    s.tick(0, false, false, false);
    assert!(!s.player.on_ground);
    assert_eq!(s.player.pos.y, 10_000);
}

#[test]
fn tick_runs_slope_feedback_on_flat_ground() {
    let mut s = playing_state();
    s.speed_x = 0; // terrain still; both gates sample the flat line
    s.tick(0, false, false, false);
    // flat terrain: the 0.03 baseline alone
    assert_eq!(s.speed_x, 3);
}

#[test]
fn tick_falling_out_ends_the_round() {
    let mut s = playing_state();
    s.player.pos.y = VIEWPORT + 1_000;
    s.tick(0, false, false, false);
    assert_eq!(s.mode, Mode::GameOver);
    assert!(s.collision_counter_on);
}

#[test]
fn tick_applies_held_inputs() {
    let mut s = playing_state();
    s.player.pos.y = 10_000;
    s.tick(0, false, true, false);
    assert_eq!(s.player.velocity.x, -20_000);
    s.tick(0, false, false, true);
    assert_eq!(s.player.velocity.x, 20_000);
    s.tick(0, false, false, false);
    assert_eq!(s.player.velocity.x, 0);
}

#[test]
fn boulder_pass_scrolls_and_flags_collisions() {
    let mut s = playing_state();
    s.speed_x = 600;
    s.ascent_speed = 0;
    s.boulders = vec![
        Boulder { pos: Vec2Fx::new(30_000, 1_000), width: 4_000, height: 4_000 },
    ];
    s.advance_boulders();
    assert_eq!(s.mode, Mode::Playing);
    assert_eq!(s.boulders[0].pos.x, 29_400);

    // one boulder right on the player ends the round
    s.boulders = vec![
        Boulder {
            pos: Vec2Fx::new(s.player.pos.x, s.player.pos.y - 1_000),
            width: 4_000,
            height: 4_000,
        },
    ];
    s.speed_x = 0;
    s.advance_boulders();
    assert_eq!(s.mode, Mode::GameOver);
    assert!(s.collision_counter_on);
}

#[test]
fn boulder_pass_recycles_offscreen_rock() {
    let mut s = playing_state();
    s.speed_x = 500;
    s.boulders = vec![
        Boulder { pos: Vec2Fx::new(-4_000, 1_000), width: 3_500, height: 3_500 },
    ];
    s.advance_boulders();
    assert_eq!(s.boulders[0].pos.x, VIEWPORT);
    assert!(-1_000 <= s.boulders[0].pos.y && s.boulders[0].pos.y < 48_000);
}

#[test]
fn pickup_pass_collects_scores_and_boosts() {
    let mut s = playing_state();
    s.speed_x = 0;
    s.score = 7;
    let mut gem = Pickup::new(s.player.pos.x, s.player.pos.y - 1_000, PickupType::Gem);
    gem.pos.x = s.player.pos.x; // overlapping the player
    s.pickups = vec![gem];
    s.advance_pickups();
    assert!(s.pickups[0].collected);
    assert_eq!(s.score, 7 + 50);
    assert_eq!(s.speed_x, VIEWPORT / 96);
    // a second pass over the already-collected pickup changes nothing
    let score = s.score;
    let speed = s.speed_x;
    s.advance_pickups();
    assert_eq!(s.score, score);
    assert_eq!(s.speed_x, speed);
}

#[test]
fn pickup_pass_recycles_offscreen_pickup() {
    let mut s = playing_state();
    s.speed_x = 100;
    let mut coin = Pickup::new(-10_000, 5_000, PickupType::Coin);
    coin.collected = true;
    s.pickups = vec![coin];
    s.advance_pickups();
    assert!(!s.pickups[0].collected);
    assert!(VIEWPORT <= s.pickups[0].pos.x && s.pickups[0].pos.x < VIEWPORT + 20_000);
    assert!(0 <= s.pickups[0].pos.y && s.pickups[0].pos.y < VIEWPORT);
}

#[test]
fn mouse_position_recorded() {
    let mut s = GameState::new(VIEWPORT, VIEWPORT);
    s.set_mouse_pos(123, 456);
    assert_eq!(s.mouse_pos.x, 123);
    assert_eq!(s.mouse_pos.y, 456);
}

#[test]
fn scroll_speed_stays_in_bounds_over_many_ticks() {
    let mut s = playing_state();
    for i in 0..200 {
        s.set_mouse_pos((i * 311) % VIEWPORT, (i * 997) % VIEWPORT);
        assert!(s.is_well_formed());
        s.tick(16, i % 7 == 0, i % 3 == 0, i % 5 == 0);
        assert!(0 <= s.speed_x && s.speed_x <= 2_000);
        if s.mode != Mode::Playing {
            break;
        }
    }
}
