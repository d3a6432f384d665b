use high_mountain_trucker::geom::Vec2Fx;
use high_mountain_trucker::player::Player;
use high_mountain_trucker::terrain::Terrain;

const VIEWPORT: i64 = 64_000;
const INITIAL_HEIGHT: i64 = 53_334;
const BAR_WIDTH: i64 = 3_200;

fn fresh_terrain() -> Terrain {
    Terrain::new(VIEWPORT, INITIAL_HEIGHT, 533)
}

#[test]
fn new_builds_even_ring() {
    let t = fresh_terrain();
    assert_eq!(t.bars.len(), 22);
    assert_eq!(t.bar_width, BAR_WIDTH);
    for (i, bar) in t.bars.iter().enumerate() {
        assert_eq!(bar.pos.x, i as i64 * BAR_WIDTH);
        assert_eq!(bar.pos.y, INITIAL_HEIGHT);
        assert_eq!(bar.width, BAR_WIDTH);
    }
}

#[test]
fn pointer_snaps_covered_bar_exactly() {
    let mut t = fresh_terrain();
    let mut p = Player::new(16_000, 32_000);
    // pointer over the bar at x = 6400; zero scroll so it stays there
    let mouse = Vec2Fx::new(6_400, 12_345);
    t.update(mouse, 0, 0, &mut p);
    assert_eq!(t.bars[2].pos.y, 12_345);
    // a bar whose window does not hold the pointer keeps its height
    assert_eq!(t.bars[1].pos.y, INITIAL_HEIGHT);
    assert_eq!(t.bars[6].pos.y, INITIAL_HEIGHT);
}

#[test]
fn bar_past_threshold_wraps_to_right_edge() {
    let mut t = fresh_terrain();
    let mut p = Player::new(16_000, 32_000);
    // already past -2 bar widths before the tick
    t.bars[0].pos.x = -6_500;
    let mouse = Vec2Fx::new(40_000, 20_000);
    t.update(mouse, 0, 0, &mut p);
    assert!(t.bars[0].pos.x >= VIEWPORT);
    assert_eq!(t.bars[0].pos.x, VIEWPORT);
    // the wrapped bar re-seeds its height from the live pointer
    assert_eq!(t.bars[0].pos.y, 20_000);
}

#[test]
fn scroll_pushes_bar_over_threshold_and_wraps() {
    let mut t = fresh_terrain();
    let mut p = Player::new(16_000, 32_000);
    // bar 0 sits at x = 0; a 7000-subunit scroll sends it past -6400
    let mouse = Vec2Fx::new(40_000, 27_000);
    t.update(mouse, 7_000, 0, &mut p);
    assert_eq!(t.bars[0].pos.x, VIEWPORT);
    assert_eq!(t.bars[0].pos.y, 27_000);
    // bar 2 only scrolls
    assert_eq!(t.bars[2].pos.x, 6_400 - 7_000);
}

#[test]
fn realign_twice_gives_identical_positions() {
    let mut t = fresh_terrain();
    // drift a few bars out of even spacing
    t.bars[0].pos.x = 137;
    t.bars[3].pos.x = -50_000;
    t.bars[7].pos.x += 41;
    t.bars[21].pos.x = 2;
    t.realign();
    let once: Vec<i64> = t.bars.iter().map(|b| b.pos.x).collect();
    t.realign();
    let twice: Vec<i64> = t.bars.iter().map(|b| b.pos.x).collect();
    assert_eq!(once, twice);
}

#[test]
fn realign_spaces_bars_from_anchor() {
    let mut t = fresh_terrain();
    t.bars[5].pos.x = -9_999;
    t.realign();
    // the anchor stays put, a bar ahead of it lands on its even slot,
    // the drifted bar behind it lands one ring-length back
    assert_eq!(t.bars[0].pos.x, 0);
    assert_eq!(t.bars[4].pos.x, 4 * BAR_WIDTH);
    assert_eq!(t.bars[5].pos.x, 0 - (22 - 5) * BAR_WIDTH);
}

#[test]
fn height_reported_inside_cover_absent_outside() {
    let t = fresh_terrain();
    assert_eq!(t.get_height_at(10), Some(INITIAL_HEIGHT));
    assert_eq!(t.get_height_at(16_000), Some(INITIAL_HEIGHT));
    // far left of every bar window
    assert_eq!(t.get_height_at(-10_000), None);
    // a window edge is exclusive on both neighbouring bars
    assert_eq!(t.get_height_at(1_600), None);
}

#[test]
fn overlapping_windows_earliest_bar_wins() {
    let mut t = fresh_terrain();
    t.bars[0].pos.y = 11_111;
    t.bars[1].pos.y = 99_999;
    t.bars[1].pos.x = t.bars[0].pos.x;
    assert_eq!(t.get_height_at(10), Some(11_111));
}

#[test]
fn gates_feed_player_height_samples() {
    let mut t = fresh_terrain();
    let mut p = Player::new(16_000, 32_000);
    // deform the two gate bars to distinct heights first
    t.bars[3].pos.y = 40_000; // x = 9600, inside (7466, 10666)
    t.bars[4].pos.y = 45_000; // x = 12800, inside (10666, 13866)
    let mouse = Vec2Fx::new(-30_000, 0);
    t.update(mouse, 0, 0, &mut p);
    assert_eq!(p.prev_bar_height, 40_000);
    assert_eq!(p.bar_height, 45_000);
}

#[test]
fn empty_gate_keeps_previous_sample() {
    let mut t = fresh_terrain();
    let mut p = Player::new(16_000, 32_000);
    p.set_prev_bar_height(777);
    p.set_bar_height(888);
    // push every bar far right so neither gate window holds a bar
    for bar in t.bars.iter_mut() {
        bar.pos.x += 1_000_000;
    }
    let mouse = Vec2Fx::new(-30_000, 0);
    t.update(mouse, 0, 0, &mut p);
    assert_eq!(p.prev_bar_height, 777);
    assert_eq!(p.bar_height, 888);
}
