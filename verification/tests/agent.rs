//! Agent-level behaviour: physics integration, the vertical bounds check,
//! the two-branch collision test, and sensing.

use birdsim::bird::{Bird, Controller};
use birdsim::obstacle::Obstacle;
use birdsim::units::Vec2;

fn bird_at(x: i64, y: i64) -> Bird {
    Bird {
        alive: true,
        pos: Vec2 { x, y },
        radius: 1000,
        speed: Vec2 { x: 5000, y: 0 },
        best_x: if x > 0 { x } else { 0 },
        controller: Controller::Player,
    }
}

fn gap_at(x: i64, y: i64) -> Obstacle {
    Obstacle {
        pos: Vec2 { x, y },
        size: Vec2 { x: 2000, y: 10000 },
    }
}

#[test]
fn integrate_one_second() {
    let mut b = bird_at(0, 0);
    b.integrate(Vec2 { x: 0, y: -9800 }, 1000);
    assert_eq!(b.speed.x, 5000);
    assert_eq!(b.speed.y, -9800);
    assert_eq!(b.pos.x, 5000);
    assert_eq!(b.pos.y, -9800);
    assert_eq!(b.best_x, 5000);
    assert!(b.alive);
}

#[test]
fn integrate_truncates_toward_zero() {
    let mut b = bird_at(0, 0);
    b.speed = Vec2 { x: 0, y: 0 };
    // gravity * dt / scale = -9800 * 50 / 1000 = -490;
    // pos moves by -490 * 50 / 1000 = -24.5, truncated to -24.
    b.integrate(Vec2 { x: 0, y: -9800 }, 50);
    assert_eq!(b.speed.y, -490);
    assert_eq!(b.pos.y, -24);
}

#[test]
fn dead_agent_is_frozen() {
    let mut b = bird_at(3000, 4000);
    b.alive = false;
    let before = b;
    b.integrate(Vec2 { x: 0, y: -9800 }, 1000);
    assert_eq!(b, before);
    b.check_bounds();
    assert_eq!(b, before);
    b.collide(&gap_at(3000, 4000));
    assert_eq!(b, before);
    b.apply_jump(10000);
    assert_eq!(b, before);
}

#[test]
fn bounds_kill_on_the_same_tick() {
    let mut b = bird_at(0, 19000);
    // One second of upward motion carries the agent past the band.
    b.speed = Vec2 { x: 5000, y: 2000 };
    b.integrate(Vec2 { x: 0, y: 0 }, 1000);
    assert_eq!(b.pos.y, 21000);
    assert!(b.alive);
    b.check_bounds();
    assert!(!b.alive);
    // The rest of the state is untouched by the kill.
    assert_eq!(b.pos.y, 21000);
    assert_eq!(b.speed.y, 2000);
}

#[test]
fn band_edge_is_still_alive() {
    let mut b = bird_at(0, 20000);
    b.check_bounds();
    assert!(b.alive);
    let mut c = bird_at(0, -20000);
    c.check_bounds();
    assert!(c.alive);
    let mut d = bird_at(0, 20001);
    d.check_bounds();
    assert!(!d.alive);
}

#[test]
fn collide_misses_far_from_pillars() {
    // Gap centred at x = 10000; near pillar edge at 9000; agent at 5000
    // is 4000 away, well beyond its radius of 1000.
    let mut b = bird_at(5000, 0);
    b.collide(&gap_at(10000, 0));
    assert!(b.alive);
}

#[test]
fn collide_rectangular_penetration() {
    // Agent inside the pillar footprint (distance to nearer edge <= 0),
    // vertical clearance to the opening edge below the radius: dead.
    // Gap opening spans y in [-5000, 5000]; agent at y = 4500 clears only
    // 500 < 1000.
    let mut b = bird_at(10000, 4500);
    b.collide(&gap_at(10000, 0));
    assert!(!b.alive);
}

#[test]
fn collide_inside_gap_survives() {
    // Same footprint, but centred in the opening: clearance 5000 >= 1000.
    let mut b = bird_at(10000, 0);
    b.collide(&gap_at(10000, 0));
    assert!(b.alive);
}

#[test]
fn collide_past_opening_edge_dies_outright() {
    // Horizontally within radius of the pillar edge, vertically past the
    // top of the opening (dist_up <= 0): dead at once.
    let mut b = bird_at(8500, 6000);
    b.collide(&gap_at(10000, 0));
    assert!(!b.alive);
}

#[test]
fn collide_rounded_corner() {
    // Outside the footprint: the squared corner distance decides.
    // Near edge at x = 9000: dist_x = 500; opening edge at y = 5000:
    // dist_y = 900. 500^2 + 900^2 = 1060000 > 1000^2: a miss.
    let mut b = bird_at(8500, 4100);
    b.collide(&gap_at(10000, 0));
    assert!(b.alive);
    // 500^2 + 700^2 = 740000 < 1000^2: a hit.
    let mut c = bird_at(8500, 4300);
    c.collide(&gap_at(10000, 0));
    assert!(!c.alive);
}

#[test]
fn collide_boundary_equality_is_alive() {
    // Exactly radius away from the near pillar edge: dist_x == radius is
    // not a hit, whatever the vertical state.
    let mut b = bird_at(8000, 4500);
    b.collide(&gap_at(10000, 0));
    assert!(b.alive);
    // Rectangular branch: clearance exactly the radius survives too.
    let mut c = bird_at(10000, 4000);
    c.collide(&gap_at(10000, 0));
    assert!(c.alive);
}

#[test]
fn collide_mirrored_agents_agree() {
    // An agent approaching from the left and its mirror image about the
    // gap centre approaching from the right die or survive together.
    let cases: Vec<(i64, i64)> = vec![(8500, 4300), (8500, 4100), (8000, 4500), (9500, 0), (10000, 4500)];
    for (x, y) in cases {
        let o = gap_at(10000, 0);
        let mut left = bird_at(x, y);
        let mut right = bird_at(2 * o.pos.x - x, y);
        left.collide(&o);
        right.collide(&o);
        assert_eq!(left.alive, right.alive);
    }
}

#[test]
fn read_with_no_obstacle_zero_fills() {
    let b = bird_at(0, 1000);
    let obstacles: Vec<Obstacle> = Vec::new();
    let input = b.read(&obstacles);
    assert_eq!(input, vec![1000, 525, 0, 0, 0]);
}

#[test]
fn read_senses_first_obstacle_ahead() {
    let b = bird_at(0, 1000);
    let obstacles = vec![gap_at(20000, 2000)];
    let input = b.read(&obstacles);
    // Bias one unit; 1000/40 + 500 = 525; far edge 21000 gives 21000/50
    // = 420; (1000 - 2000 - 5000)/40 + 500 = 350; (1000 - 2000 + 5000)/40
    // + 500 = 600.
    assert_eq!(input, vec![1000, 525, 420, 350, 600]);
}

#[test]
fn read_skips_passed_obstacles() {
    // First obstacle's far edge (11000) is behind the agent at 12000; the
    // second (far edge 31000) is the one sensed.
    let b = bird_at(12000, 0);
    let obstacles = vec![gap_at(10000, 0), gap_at(30000, 4000)];
    let input = b.read(&obstacles);
    assert_eq!(input[0], 1000);
    assert_eq!(input[1], 500);
    assert_eq!(input[2], (31000 - 12000) / 50);
    assert_eq!(input[3], (0 - 4000 - 5000) / 40 + 500);
    assert_eq!(input[4], (0 - 4000 + 5000) / 40 + 500);
}

#[test]
fn read_truncates_toward_zero_below_the_axis() {
    // -1000/40 truncates to -25, not -26: the normalized vertical
    // position is 475 thousandths.
    let b = bird_at(0, -1000);
    let obstacles: Vec<Obstacle> = Vec::new();
    let input = b.read(&obstacles);
    assert_eq!(input[1], 475);
    // -1030/40 is -25.75, truncated to -25 as well.
    let c = bird_at(0, -1030);
    let input = c.read(&obstacles);
    assert_eq!(input[1], 475);
}

#[test]
fn jump_replaces_vertical_speed() {
    let mut b = bird_at(0, 0);
    b.speed = Vec2 { x: 5000, y: -7000 };
    b.apply_jump(10000);
    assert_eq!(b.speed, Vec2 { x: 5000, y: 10000 });
}
