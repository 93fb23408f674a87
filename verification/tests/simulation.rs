//! Simulation-level behaviour: the tick phases, the spawner, the
//! generation lifecycle, fitness reporting, and determinism.

use birdsim::bird::Controller;
use birdsim::model::{Event, Model, Score};
use birdsim::rules::Rules;
use birdsim::units::Vec2;

fn test_rules() -> Rules {
    Rules {
        gravity: Vec2 { x: 0, y: -9800 },
        bird_radius: 1000,
        jump_speed: 10000,
        obstacle_size: Vec2 { x: 2000, y: 10000 },
        obstacle_dist: 5000,
        player_counts: true,
    }
}

/// One full tick with the given controller outputs (one per client, in
/// client order), at one-second steps.
fn tick(m: &mut Model, outputs: &[i64]) -> Option<Vec<Score>> {
    assert!(m.can_update(1000));
    let r = m.update(1000);
    if r.is_some() {
        return r;
    }
    for (k, out) in outputs.iter().enumerate() {
        let id = match m.clients[k].controller {
            Controller::Client(id) => id,
            Controller::Player => panic!("player among clients"),
        };
        m.apply_output(id, *out);
    }
    m.finish_update();
    None
}

#[test]
fn new_model_starts_clean() {
    let m = Model::new(test_rules(), vec![1, 2, 3]);
    assert_eq!(m.generation, 0);
    assert_eq!(m.max_score, 0);
    assert_eq!(m.clients.len(), 3);
    assert!(m.obstacles.is_empty());
    assert_eq!(m.next_obstacle, 20000);
    assert!(m.player.alive);
    for b in &m.clients {
        assert!(b.alive);
        assert_eq!(b.pos, Vec2 { x: 0, y: 0 });
        assert_eq!(b.speed, Vec2 { x: 5000, y: 0 });
    }
}

#[test]
fn scenario_never_jumping_agent_dies_after_two_ticks() {
    // Gravity (0, -9.8), jump speed 10, start speed (5, 0), band of 20
    // units, one-second ticks, no obstacle reached: after one tick an
    // agent that never jumps is at y = -9.8 and alive; after two it is
    // at -29.4, past the band, and dead on that same tick.
    let mut m = Model::new(test_rules(), vec![1]);
    assert!(tick(&mut m, &[0]).is_none());
    assert!(m.player.alive && m.clients[0].alive);
    assert_eq!(m.player.pos, Vec2 { x: 5000, y: -9800 });
    assert_eq!(m.clients[0].pos, Vec2 { x: 5000, y: -9800 });
    assert!(tick(&mut m, &[0]).is_none());
    assert!(!m.player.alive && !m.clients[0].alive);
    assert_eq!(m.player.pos, Vec2 { x: 10000, y: -29400 });
    assert_eq!(m.clients[0].pos, Vec2 { x: 10000, y: -29400 });
    assert!(m.obstacles.is_empty());
    // With no survivor left, the next tick concludes the generation.
    let scores = tick(&mut m, &[0]);
    assert_eq!(scores, Some(vec![Score { id: 1, fitness: 10000 }]));
    assert_eq!(m.generation, 1);
    assert!(m.player.alive && m.clients[0].alive);
}

#[test]
fn spawner_keeps_exact_spacing() {
    // Four one-second ticks carry the player to x = 20: past the spawn
    // threshold on the third and fourth, for exactly two obstacles, one
    // spacing apart, the first at the configured spawn point.
    let mut m = Model::new(test_rules(), vec![1]);
    for _ in 0..4 {
        m.player.speed.y = 0;
        m.player.pos.y = 0;
        m.clients[0].speed.y = 0;
        m.clients[0].pos.y = 0;
        tick(&mut m, &[0]);
    }
    assert_eq!(m.obstacles.len(), 2);
    for w in m.obstacles.windows(2) {
        assert!(w[0].pos.x < w[1].pos.x);
        assert_eq!(w[1].pos.x, w[0].pos.x + m.rules.obstacle_dist);
    }
    assert_eq!(m.obstacles[0].pos.x, 20000);
}

#[test]
fn spawner_spawns_at_most_one_per_tick() {
    // A very fast player overshoots the spawn threshold by many spacing
    // units in one tick; still only one obstacle may appear per tick.
    let mut gravity_free = test_rules();
    gravity_free.gravity = Vec2 { x: 0, y: 0 };
    let mut m = Model::new(gravity_free, vec![]);
    m.player.speed = Vec2 { x: 200_000, y: 0 };
    let mut last_count = 0;
    for _ in 0..5 {
        tick(&mut m, &[]);
        assert!(m.obstacles.len() <= last_count + 1);
        last_count = m.obstacles.len();
    }
    assert!(last_count >= 1);
}

#[test]
fn spawned_gap_sits_within_the_band() {
    let mut gravity_free = test_rules();
    gravity_free.gravity = Vec2 { x: 0, y: 0 };
    let mut m = Model::new(gravity_free, vec![]);
    m.player.speed = Vec2 { x: 100_000, y: 0 };
    for _ in 0..10 {
        tick(&mut m, &[]);
    }
    assert!(!m.obstacles.is_empty());
    let half_gap = m.rules.obstacle_size.y / 2;
    for o in &m.obstacles {
        assert_eq!(o.size, m.rules.obstacle_size);
        assert!(-(20000 - half_gap) <= o.pos.y && o.pos.y <= 20000 - half_gap);
    }
}

#[test]
fn fitness_is_furthest_reach_reported_once() {
    let mut m = Model::new(test_rules(), vec![4, 9]);
    // Drive a few ticks; both clients fall and die on the second tick,
    // their furthest reach being 10 units of forward travel.
    assert!(tick(&mut m, &[0, 0]).is_none());
    assert!(tick(&mut m, &[0, 0]).is_none());
    assert!(!m.clients[0].alive && !m.clients[1].alive);
    assert_eq!(m.clients[0].best_x, 10000);
    // Kill the player too, then let the next update conclude.
    m.player.alive = false;
    assert!(m.can_update(1000));
    let scores = m.update(1000).expect("generation must conclude");
    assert_eq!(
        scores,
        vec![
            Score { id: 4, fitness: 10000 },
            Score { id: 9, fitness: 10000 },
        ]
    );
    assert_eq!(m.generation, 1);
    assert_eq!(m.max_score, 10000);
    // The new generation starts from scratch: the mark is reset, so the
    // score was reported exactly once and never carries over.
    assert_eq!(m.clients[0].best_x, 0);
}

#[test]
fn identical_decisions_give_identical_trajectories() {
    let mut m = Model::new(test_rules(), vec![1, 2]);
    for step in 0..12 {
        let out = if step % 3 == 0 { 700 } else { 200 };
        let r = tick(&mut m, &[out, out]);
        if r.is_some() {
            break;
        }
        assert_eq!(m.clients[0].pos, m.clients[1].pos);
        assert_eq!(m.clients[0].speed, m.clients[1].speed);
        assert_eq!(m.clients[0].alive, m.clients[1].alive);
        assert_eq!(m.clients[0].best_x, m.clients[1].best_x);
    }
}

#[test]
fn manual_reset_revives_everything_at_once() {
    let mut m = Model::new(test_rules(), vec![1, 2, 3]);
    tick(&mut m, &[600, 600, 600]);
    // Some agents dead, some alive.
    m.clients[0].alive = false;
    m.clients[2].alive = false;
    let gen_before = m.generation;
    let scores = m.handle_event(&Event::Reset);
    assert!(scores.is_some());
    assert_eq!(m.generation, gen_before + 1);
    assert!(m.player.alive);
    for b in &m.clients {
        assert!(b.alive);
        assert_eq!(b.pos, Vec2 { x: 0, y: 0 });
        assert_eq!(b.speed, Vec2 { x: 5000, y: 0 });
        assert_eq!(b.best_x, 0);
    }
    assert!(m.obstacles.is_empty());
    assert_eq!(m.next_obstacle, m.rules.obstacle_dist);
}

#[test]
fn jump_event_reaches_only_a_living_player() {
    let mut m = Model::new(test_rules(), vec![]);
    m.handle_event(&Event::Jump);
    assert_eq!(m.player.speed.y, 10000);
    m.player.alive = false;
    m.player.speed.y = -3000;
    m.handle_event(&Event::Jump);
    assert_eq!(m.player.speed.y, -3000);
}

#[test]
fn output_threshold_is_at_half() {
    let mut m = Model::new(test_rules(), vec![8]);
    assert!(m.update(1000).is_none());
    m.apply_output(8, 499);
    assert_ne!(m.clients[0].speed.y, 10000);
    m.apply_output(8, 500);
    assert_eq!(m.clients[0].speed.y, 10000);
    m.finish_update();
}

#[test]
fn rebind_rebuilds_the_population() {
    let mut m = Model::new(test_rules(), vec![1, 2]);
    tick(&mut m, &[0, 0]);
    m.handle_event(&Event::Reset);
    m.rebind(&vec![10, 20, 30]);
    assert_eq!(m.clients.len(), 3);
    let ids: Vec<u64> = m
        .clients
        .iter()
        .map(|b| match b.controller {
            Controller::Client(id) => id,
            Controller::Player => panic!("player among clients"),
        })
        .collect();
    assert_eq!(ids, vec![10, 20, 30]);
    for b in &m.clients {
        assert!(b.alive);
        assert_eq!(b.best_x, 0);
    }
}

#[test]
fn best_score_never_decreases() {
    let mut m = Model::new(test_rules(), vec![1]);
    // First generation: two ticks of travel, fitness 10.
    tick(&mut m, &[0]);
    tick(&mut m, &[0]);
    m.handle_event(&Event::Reset);
    assert_eq!(m.max_score, 10000);
    // Second generation ends at once with a lower fitness; the best
    // score stays.
    m.handle_event(&Event::Reset);
    assert_eq!(m.max_score, 10000);
    // A third with a higher fitness raises it.
    for _ in 0..2 {
        m.clients[0].pos.y = 0;
        m.clients[0].speed.y = 0;
        m.player.pos.y = 0;
        m.player.speed.y = 0;
        tick(&mut m, &[0]);
    }
    tick(&mut m, &[0]);
    m.handle_event(&Event::Reset);
    assert_eq!(m.max_score, 15000);
}

#[test]
fn generation_counter_only_moves_at_transitions() {
    let mut m = Model::new(test_rules(), vec![1]);
    assert_eq!(m.generation, 0);
    assert!(tick(&mut m, &[600]).is_none());
    assert_eq!(m.generation, 0);
    m.handle_event(&Event::Reset);
    assert_eq!(m.generation, 1);
    m.handle_event(&Event::Reset);
    assert_eq!(m.generation, 2);
}
