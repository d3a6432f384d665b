use high_mountain_trucker::background::{Background, Mountain};
use high_mountain_trucker::boulder::Boulder;
use high_mountain_trucker::geom::{rects_overlap, Vec2Fx};
use high_mountain_trucker::pickup::{Pickup, PickupType};

#[test]
fn collision_scenario_in_world_units() {
    // player rectangle (x=100, y=100, w=48, h=30): edges 100..148 by
    // 70..100; boulder (x=110, y=80, w=20, h=30): edges 110..130 by
    // 80..110 — they overlap
    assert!(rects_overlap(100, 70, 148, 100, 110, 80, 130, 110));
    // the same boulder shifted to x=200 does not
    assert!(!rects_overlap(100, 70, 148, 100, 200, 80, 220, 110));
}

#[test]
fn boulder_collision_scenario() {
    let player_pos = Vec2Fx::new(10_000, 10_000);
    let hit = Boulder {
        pos: Vec2Fx::new(11_000, 8_000),
        width: 2_000,
        height: 3_000,
    };
    assert!(hit.collides_with_player(player_pos, 4_800, 3_000));
    let miss = Boulder {
        pos: Vec2Fx::new(20_000, 8_000),
        width: 2_000,
        height: 3_000,
    };
    assert!(!miss.collides_with_player(player_pos, 4_800, 3_000));
}

#[test]
fn touching_edges_do_not_collide() {
    let player_pos = Vec2Fx::new(10_000, 10_000);
    // boulder's left edge exactly at the player's right edge
    let touching = Boulder {
        pos: Vec2Fx::new(14_800, 8_000),
        width: 2_000,
        height: 3_000,
    };
    assert!(!touching.collides_with_player(player_pos, 4_800, 3_000));
}

#[test]
fn boulder_random_dimensions_stay_in_band() {
    for _ in 0..32 {
        let b = Boulder::new(64_000, 123, 64_000);
        assert_eq!(b.pos.x, 64_000);
        assert_eq!(b.pos.y, 123);
        assert!(3_200 <= b.width && b.width < 19_200);
        assert!(3_200 <= b.height && b.height < 19_200);
    }
}

#[test]
fn boulder_scrolls_and_repositions() {
    let mut b = Boulder {
        pos: Vec2Fx::new(5_000, 1_000),
        width: 4_000,
        height: 4_000,
    };
    b.update(600, 50);
    assert_eq!(b.pos.x, 4_400);
    assert_eq!(b.pos.y, 1_050);
    for _ in 0..32 {
        b.reposition(64_000, 64_000);
        assert_eq!(b.pos.x, 64_000);
        assert!(-1_000 <= b.pos.y && b.pos.y < 48_000);
        assert!(3_200 <= b.width && b.width < 19_200);
    }
}

#[test]
fn pickup_kinds_fix_size_and_value() {
    let coin = Pickup::new(0, 0, PickupType::Coin);
    assert_eq!(coin.width, 3_000);
    assert_eq!(coin.height, 3_000);
    assert_eq!(coin.value, 25);
    assert!(!coin.collected);
    let gem = Pickup::new(0, 0, PickupType::Gem);
    assert_eq!(gem.width, 4_000);
    assert_eq!(gem.height, 4_000);
    assert_eq!(gem.value, 50);
}

#[test]
fn collected_pickup_never_collides() {
    let player_pos = Vec2Fx::new(0, 0);
    let mut p = Pickup::new(100, -100, PickupType::Coin);
    assert!(p.collides_with_player(player_pos, 4_800, 3_000));
    p.collected = true;
    assert!(!p.collides_with_player(player_pos, 4_800, 3_000));
}

#[test]
fn pickup_reposition_scatters_past_right_edge() {
    let mut p = Pickup::new(0, 0, PickupType::Gem);
    p.collected = true;
    for _ in 0..32 {
        p.reposition(64_000, 64_000);
        assert!(64_000 <= p.pos.x && p.pos.x < 84_000);
        assert!(0 <= p.pos.y && p.pos.y < 64_000);
        assert!(!p.collected);
    }
}

#[test]
fn mountain_layers_scroll_at_their_fractions() {
    let mut far = Mountain::new(10_000, 64_000, 0, 64_000);
    far.update(2_000, 100);
    assert_eq!(far.pos.x, 10_000 - 100);
    assert_eq!(far.pos.y, 64_000 + 1);

    let mut near = Mountain::new(10_000, 64_000, 3, 64_000);
    near.update(2_000, 100);
    assert_eq!(near.pos.x, 10_000 - 500);
    assert_eq!(near.pos.y, 64_000 + 5);
}

#[test]
fn mountain_geometry_from_viewport_height() {
    let m = Mountain::new(0, 64_000, 1, 64_000);
    assert_eq!(m.segment_width, 64_000 / 58);
    assert_eq!(m.increment, 3 * 64_000 / 58);
    assert_eq!(m.max_width, 42 * (64_000 / 58));
}

#[test]
fn backdrop_builds_two_layers() {
    let bg = Background::new(64_000, 64_000);
    assert_eq!(bg.mountains.len(), 7);
    for (i, m) in bg.mountains.iter().enumerate() {
        assert_eq!(m.pos.y, 64_000);
        let base = i as i64 * 20_000;
        assert!(base <= m.pos.x && m.pos.x < base + 20_000);
        if i < 4 {
            assert!(0 <= m.kind && m.kind < 3);
        } else {
            assert!(3 <= m.kind && m.kind < 6);
        }
    }
}

#[test]
fn backdrop_wraps_mountain_past_its_width() {
    let mut bg = Background::new(64_000, 64_000);
    bg.mountains[0].pos.x = -100_000;
    bg.update(0, 0);
    assert!(64_000 <= bg.mountains[0].pos.x && bg.mountains[0].pos.x < 69_000);
}
