use high_mountain_trucker::player::Player;

#[test]
fn new_player_defaults() {
    let p = Player::new(16_000, 32_000);
    assert_eq!(p.pos.x, 16_000);
    assert_eq!(p.pos.y, 32_000);
    assert_eq!(p.width, 4_800);
    assert_eq!(p.height, 3_000);
    assert_eq!(p.velocity.x, 0);
    assert_eq!(p.velocity.y, 0);
    assert!(!p.on_ground);
    assert_eq!(p.jump_speed, -50_000);
    assert_eq!(p.move_speed, 20_000);
}

#[test]
fn descent_speeds_up_by_exactly_thirteen_hundredths() {
    // previous sample 100 units, current 110 units: the ground line
    // dropped by 10 units, so the speed gains 0.03 + 0.01 * 10 = 0.13
    let mut p = Player::new(0, 0);
    p.set_prev_bar_height(10_000);
    p.set_bar_height(11_000);
    let mut speed: i64 = 500;
    p.update(0, 0, &mut speed);
    assert_eq!(speed, 513);
}

#[test]
fn flat_terrain_gains_the_baseline_alone() {
    let mut p = Player::new(0, 0);
    p.set_prev_bar_height(10_000);
    p.set_bar_height(10_000);
    let mut speed: i64 = 500;
    p.update(0, 0, &mut speed);
    assert_eq!(speed, 503);
}

#[test]
fn rise_beyond_body_height_slows_down() {
    // the ground line rose by 31 units, one more than the player is
    // tall: the speed drops by 0.01 * 31 = 0.31
    let mut p = Player::new(0, 0);
    p.set_prev_bar_height(13_100);
    p.set_bar_height(10_000);
    let mut speed: i64 = 500;
    p.update(0, 0, &mut speed);
    assert_eq!(speed, 469);
}

#[test]
fn modest_rise_leaves_speed_alone() {
    // a rise of 5 units, well under the 30-unit body height
    let mut p = Player::new(0, 0);
    p.set_prev_bar_height(10_500);
    p.set_bar_height(10_000);
    let mut speed: i64 = 500;
    p.update(0, 0, &mut speed);
    assert_eq!(speed, 500);
}

#[test]
fn speed_clamped_to_upper_bound() {
    let mut p = Player::new(0, 0);
    p.set_prev_bar_height(0);
    p.set_bar_height(100_000_000);
    let mut speed: i64 = 500;
    p.update(0, 0, &mut speed);
    assert_eq!(speed, 2_000);
}

#[test]
fn speed_clamped_at_zero() {
    let mut p = Player::new(0, 0);
    p.set_prev_bar_height(100_000_000);
    p.set_bar_height(0);
    let mut speed: i64 = 500;
    p.update(0, 0, &mut speed);
    assert_eq!(speed, 0);
}

#[test]
fn airborne_tick_integrates_gravity() {
    let mut p = Player::new(1_000, 2_000);
    let mut speed: i64 = 0;
    p.update(1_000, 2_000, &mut speed);
    assert_eq!(p.velocity.y, 2_000);
    assert_eq!(p.pos.y, 4_000);
    assert_eq!(p.pos.x, 1_000);
}

#[test]
fn grounded_tick_skips_gravity() {
    let mut p = Player::new(1_000, 2_000);
    p.on_ground = true;
    let mut speed: i64 = 0;
    p.update(1_000, 2_000, &mut speed);
    assert_eq!(p.velocity.y, 0);
    assert_eq!(p.pos.y, 2_000);
}

#[test]
fn horizontal_velocity_moves_player() {
    let mut p = Player::new(0, 0);
    p.on_ground = true;
    p.move_right();
    let mut speed: i64 = 0;
    p.update(500, 0, &mut speed);
    // 20000 subunits per second for half a second
    assert_eq!(p.pos.x, 10_000);
}

#[test]
fn jump_honoured_only_on_the_ground() {
    let mut p = Player::new(0, 0);
    p.jump();
    assert_eq!(p.velocity.y, 0);
    assert!(!p.on_ground);

    p.on_ground = true;
    p.jump();
    assert_eq!(p.velocity.y, -50_000);
    assert!(!p.on_ground);
}

#[test]
fn move_controls_set_and_clear_horizontal_velocity() {
    let mut p = Player::new(0, 0);
    p.move_left();
    assert_eq!(p.velocity.x, -20_000);
    p.move_right();
    assert_eq!(p.velocity.x, 20_000);
    p.stop_horizontal();
    assert_eq!(p.velocity.x, 0);
}

#[test]
fn history_shifts_in_current_position() {
    let mut p = Player::new(0, 100);
    let mut speed: i64 = 0;
    p.update(0, 0, &mut speed);
    assert_eq!(p.terrain_positions, [100, 100, 100, 100]);
    p.pos.y = 220;
    p.update(0, 0, &mut speed);
    assert_eq!(p.terrain_positions, [220, 100, 100, 100]);
    assert_eq!(p.last_y, 220);
}

#[test]
fn smoothed_heights_average_three_samples() {
    let mut p = Player::new(0, 0);
    p.terrain_positions = [30, 60, 90, 121];
    let (a, b) = p.smoothed_heights();
    assert_eq!(a, 60);
    assert_eq!(b, (60 + 90 + 121) / 3);
    assert_eq!(b, 90);
}
