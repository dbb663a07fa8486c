use orc_wars::agent::{Agent, AgentKind, MotionState};
use orc_wars::geom::{distance_cu, isqrt, Vec2i};
use orc_wars::player::{advance_player_frame, settle_idle, PlayerState};
use orc_wars::spawn::make_agent;
use orc_wars::steer::{classify_motion, steer_agent, steer_tick};

fn agent_at(x: i64, y: i64) -> Agent {
    Agent {
        id: 0,
        pos: Vec2i { x, y },
        kind: AgentKind::Common,
        state: MotionState::Alive,
        sprite_frame: 0,
    }
}

/// Bearing from an agent to the target in hundredths of a degree, the way a
/// caller with trigonometry would produce it.
fn bearing_cdeg(agent: Vec2i, target: Vec2i) -> u32 {
    let dy = (target.y - agent.y) as f64;
    let dx = (target.x - agent.x) as f64;
    let mut deg = dy.atan2(dx).to_degrees();
    if deg < 0.0 {
        deg += 360.0;
    }
    ((deg * 100.0) as u32) % 36_000
}

#[test]
fn isqrt_exact_values() {
    assert_eq!(isqrt(0), 0);
    assert_eq!(isqrt(1), 1);
    assert_eq!(isqrt(3), 1);
    assert_eq!(isqrt(4), 2);
    assert_eq!(isqrt(24), 4);
    assert_eq!(isqrt(25), 5);
    assert_eq!(isqrt(u64::MAX), 4_294_967_295);
}

#[test]
fn distance_is_euclidean() {
    // A 3-4-5 triangle in world units, carried in hundredths.
    let a = Vec2i { x: 0, y: 0 };
    let b = Vec2i { x: 30_000, y: 40_000 };
    assert_eq!(distance_cu(a, b), 50_000);
    assert_eq!(distance_cu(b, a), 50_000);
    assert_eq!(distance_cu(a, a), 0);
}

#[test]
fn idle_exactly_at_the_engagement_radius() {
    // Distance exactly 375.00: the agent idles and does not move.
    let target = Vec2i { x: 0, y: 0 };
    let mut a = agent_at(37_500, 0);
    let b = bearing_cdeg(a.pos, target);
    steer_agent(&mut a, target, b);
    assert_eq!(a.state, MotionState::IdleFront);
    assert_eq!((a.pos.x, a.pos.y), (37_500, 0));
}

#[test]
fn moves_just_inside_the_engagement_radius() {
    // Distance 374.99: one full-speed step toward the target along the
    // direction vector, here straight along (-1, 0).
    let target = Vec2i { x: 0, y: 0 };
    let mut a = agent_at(37_499, 0);
    let b = bearing_cdeg(a.pos, target);
    steer_agent(&mut a, target, b);
    assert_eq!((a.pos.x, a.pos.y), (37_499 - 635, 0));
    assert_eq!(a.state, MotionState::RunLeft);
}

#[test]
fn angle_bucket_boundaries() {
    // Bearings at the literal sector edges, in hundredths of a degree.
    let near = 10_000; // 100 world units, well inside the engagement radius
    assert_eq!(classify_motion(near, 0), MotionState::RunRight);
    assert_eq!(classify_motion(near, 2_500), MotionState::RunRight);
    assert_eq!(classify_motion(near, 2_501), MotionState::RunBack);
    assert_eq!(classify_motion(near, 2_600), MotionState::RunBack);
    assert_eq!(classify_motion(near, 15_500), MotionState::RunBack);
    assert_eq!(classify_motion(near, 15_600), MotionState::RunLeft);
    assert_eq!(classify_motion(near, 20_500), MotionState::RunLeft);
    assert_eq!(classify_motion(near, 20_600), MotionState::RunFront);
    assert_eq!(classify_motion(near, 33_400), MotionState::RunFront);
    assert_eq!(classify_motion(near, 33_500), MotionState::RunRight);
    assert_eq!(classify_motion(near, 35_999), MotionState::RunRight);
}

#[test]
fn idle_wins_over_any_bearing() {
    assert_eq!(classify_motion(37_500, 0), MotionState::IdleFront);
    assert_eq!(classify_motion(37_500, 18_000), MotionState::IdleFront);
    assert_eq!(classify_motion(1_000_000, 9_000), MotionState::IdleFront);
}

#[test]
fn spawned_far_agent_idles_then_near_agent_closes_in() {
    // Spawned at radius 2000, angle 0: the agent sits at (2000, 0) and is
    // out of range, so a steering tick leaves it idle in place. Re-spawned
    // at radius 300 it runs, advancing one speed step along (-1, 0).
    let target = Vec2i { x: 0, y: 0 };
    let mut far = make_agent(1, target, Vec2i { x: 200_000, y: 0 }, 1);
    assert_eq!((far.pos.x, far.pos.y), (200_000, 0));
    let b = bearing_cdeg(far.pos, target);
    steer_agent(&mut far, target, b);
    assert_eq!(far.state, MotionState::IdleFront);
    assert_eq!((far.pos.x, far.pos.y), (200_000, 0));

    let mut near = make_agent(2, target, Vec2i { x: 30_000, y: 0 }, 1);
    let b = bearing_cdeg(near.pos, target);
    steer_agent(&mut near, target, b);
    assert_eq!((near.pos.x, near.pos.y), (30_000 - 635, 0));
    assert_eq!(near.state, MotionState::RunLeft);
}

#[test]
fn agent_on_the_target_does_not_move() {
    let target = Vec2i { x: 500, y: 500 };
    let mut a = agent_at(500, 500);
    steer_agent(&mut a, target, 0);
    assert_eq!((a.pos.x, a.pos.y), (500, 500));
    assert_eq!(a.state, MotionState::RunRight);
}

#[test]
fn diagonal_step_splits_the_speed() {
    // Agent at 45 degrees: distance 100*sqrt(2) ~ 141.42 units; each axis
    // advances by 10000 * 635 / 14142 = 449 hundredths, toward the target.
    let target = Vec2i { x: 0, y: 0 };
    let mut a = agent_at(10_000, 10_000);
    let b = bearing_cdeg(a.pos, target);
    steer_agent(&mut a, target, b);
    assert_eq!((a.pos.x, a.pos.y), (10_000 - 449, 10_000 - 449));
    assert_eq!(a.state, MotionState::RunFront);
}

#[test]
fn steer_tick_without_target_is_a_no_op() {
    let mut agents = vec![agent_at(100, 200), agent_at(-300, 400)];
    let before = agents.clone();
    let angles = vec![0u32, 0u32];
    steer_tick(&mut agents, None, &angles);
    assert_eq!(agents, before);
}

#[test]
fn steer_tick_updates_every_agent() {
    let target = Vec2i { x: 0, y: 0 };
    let mut agents = vec![agent_at(37_500, 0), agent_at(30_000, 0), agent_at(0, -20_000)];
    let angles: Vec<u32> = agents.iter().map(|a| bearing_cdeg(a.pos, target)).collect();
    steer_tick(&mut agents, Some(target), &angles);
    assert_eq!(agents[0].state, MotionState::IdleFront);
    assert_eq!((agents[0].pos.x, agents[0].pos.y), (37_500, 0));
    assert_eq!(agents[1].state, MotionState::RunLeft);
    assert_eq!((agents[1].pos.x, agents[1].pos.y), (29_365, 0));
    // Third agent looks straight up (90 degrees): runs back, stepping +y.
    assert_eq!(agents[2].state, MotionState::RunBack);
    assert_eq!((agents[2].pos.x, agents[2].pos.y), (0, -20_000 + 635));
}

#[test]
fn player_settles_into_matching_idle() {
    assert_eq!(settle_idle(PlayerState::WalkBack), PlayerState::IdleBack);
    assert_eq!(settle_idle(PlayerState::RunFront), PlayerState::IdleFront);
    assert_eq!(settle_idle(PlayerState::WalkRight), PlayerState::IdleRight);
    assert_eq!(settle_idle(PlayerState::RunLeft), PlayerState::IdleLeft);
    assert_eq!(settle_idle(PlayerState::Alive), PlayerState::Alive);
    assert_eq!(settle_idle(PlayerState::IdleBack), PlayerState::IdleBack);
}

#[test]
fn player_state_predicates() {
    assert!(PlayerState::Alive.is_alive());
    assert!(!PlayerState::IdleFront.is_alive());
    assert!(PlayerState::WalkLeft.is_walking());
    assert!(!PlayerState::RunLeft.is_walking());
    assert!(PlayerState::Run.is_running());
    assert!(!PlayerState::Walk.is_running());
    assert!(PlayerState::DeadBack.is_dead());
    assert!(!PlayerState::Alive.is_dead());
}

#[test]
fn player_frames_advance_within_their_row() {
    assert_eq!(advance_player_frame(PlayerState::IdleFront, 8), 9);
    assert_eq!(advance_player_frame(PlayerState::IdleFront, 15), 8);
    assert_eq!(advance_player_frame(PlayerState::WalkRight, 56), 57);
    assert_eq!(advance_player_frame(PlayerState::RunRight, 63), 56);
    assert_eq!(advance_player_frame(PlayerState::DeadFront, 3), 3);
}
