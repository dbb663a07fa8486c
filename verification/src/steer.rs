//! Steering: each tick every agent measures its distance and bearing to the
//! target, re-derives its motion state from scratch, and — inside the
//! engagement radius — takes one fixed-length step toward the target.
//!
//! The bearing is the angle of the agent-to-target vector in hundredths of a
//! degree, normalized to `[0, 36000)`; callers produce it from whatever
//! trigonometry they own. Distances are measured here.

use vstd::prelude::*;

use crate::agent::{Agent, MotionState};
use crate::geom::{dist_sq, sqrt_floor, Vec2i};

verus! {

/// Distance below which an agent engages, in hundredths of a world unit
/// (`375` world units).
pub const ENGAGE_RADIUS_CU: u64 = 37_500;

/// Length of one steering step, in hundredths of a world unit (`6.35` world
/// units per tick; per tick by design, not scaled by elapsed time, exactly as
/// the agents have always moved).
pub const ENEMY_SPEED_CU: u64 = 635;

/// A full turn in hundredths of a degree.
pub const FULL_TURN_CDEG: u32 = 36_000;

/// Bound on target coordinates that keeps every steered agent inside the
/// playing field even when a step overshoots the target.
pub const TARGET_LIMIT: i64 = 999_999_365;

/// A target position agents can be steered toward.
pub open spec fn target_in_reach(t: Vec2i) -> bool {
    -TARGET_LIMIT <= t.x <= TARGET_LIMIT && -TARGET_LIMIT <= t.y <= TARGET_LIMIT
}

/// The run direction a bearing selects. The boundaries are the literal
/// values of the four sectors: right up to `25.00` degrees (and from `335.00`
/// up), back up to `155.00`, left up to `205.00`, front up to `335.00`
/// exclusive. A bearing just past a boundary, such as `25.01` degrees,
/// belongs to the next sector.
pub open spec fn angle_bucket_spec(angle: int) -> MotionState {
    if angle <= 2_500 || angle >= 33_500 {
        MotionState::RunRight
    } else if angle <= 15_500 {
        MotionState::RunBack
    } else if angle <= 20_500 {
        MotionState::RunLeft
    } else {
        MotionState::RunFront
    }
}

/// Motion state owed to a distance (in hundredths of a unit) and a bearing:
/// idle facing front at or beyond the engagement radius, otherwise the run
/// direction of the bearing.
pub open spec fn motion_spec(dist: int, angle: int) -> MotionState {
    if dist >= ENGAGE_RADIUS_CU {
        MotionState::IdleFront
    } else {
        angle_bucket_spec(angle)
    }
}

/// The stateless distance/angle classifier: every tick's motion state is
/// this function of the fresh measurements, with no memory of earlier ticks.
pub fn classify_motion(distance_cu: u64, angle_cdeg: u32) -> (s: MotionState)
    requires
        angle_cdeg < FULL_TURN_CDEG,
    ensures
        s == motion_spec(distance_cu as int, angle_cdeg as int),
{
    if distance_cu >= ENGAGE_RADIUS_CU {
        MotionState::IdleFront
    } else if angle_cdeg <= 2_500 || angle_cdeg >= 33_500 {
        MotionState::RunRight
    } else if angle_cdeg <= 15_500 {
        MotionState::RunBack
    } else if angle_cdeg <= 20_500 {
        MotionState::RunLeft
    } else {
        MotionState::RunFront
    }
}

/// One axis of a steering step: the axis share of the fixed speed, i.e.
/// `delta * speed / dist` rounded toward zero, carrying the sign of `delta`.
pub open spec fn axis_step_spec(delta: int, dist: int) -> int {
    if delta >= 0 {
        (delta * ENEMY_SPEED_CU) / dist
    } else {
        -(((-delta) * ENEMY_SPEED_CU) / dist)
    }
}

/// Where an engaged agent at `p` ends up after one step toward `t`: each
/// axis advances by its share of the fixed speed along the unit direction
/// vector. An agent exactly on the target has no direction and stays put.
pub open spec fn steered_pos_spec(p: Vec2i, t: Vec2i) -> Vec2i {
    let d = sqrt_floor(dist_sq(p, t) as nat) as int;
    if d == 0 {
        p
    } else {
        Vec2i {
            x: (p.x + axis_step_spec(t.x - p.x, d)) as i64,
            y: (p.y + axis_step_spec(t.y - p.y, d)) as i64,
        }
    }
}

/// The whole effect of one steering tick on one agent: state recomputed from
/// distance and bearing; position advanced only when engaged; id, kind and
/// sprite frame untouched.
pub open spec fn steer_spec(a: Agent, t: Vec2i, angle: int) -> Agent {
    let d = sqrt_floor(dist_sq(a.pos, t) as nat) as int;
    if d >= ENGAGE_RADIUS_CU {
        Agent { state: MotionState::IdleFront, ..a }
    } else {
        Agent { state: angle_bucket_spec(angle), pos: steered_pos_spec(a.pos, t), ..a }
    }
}

/// Steers one agent for one tick. The agent idles at or beyond the
/// engagement radius and otherwise runs one fixed step toward the target,
/// never leaving the playing field.
pub fn steer_agent(agent: &mut Agent, target: Vec2i, angle_cdeg: u32)
    requires
        old(agent).pos.in_world(),
        target_in_reach(target),
        angle_cdeg < FULL_TURN_CDEG,
    ensures
        *final(agent) == steer_spec(*old(agent), target, angle_cdeg as int),
        final(agent).pos.in_world(),
{
    let p = agent.pos;
    let d = crate::geom::distance_cu(p, target);
    let state = classify_motion(d, angle_cdeg);
    agent.state = state;
    if d < ENGAGE_RADIUS_CU && d > 0 {
        let dx_mag: u64 = if target.x >= p.x {
            (target.x - p.x) as u64
        } else {
            (p.x - target.x) as u64
        };
        let dy_mag: u64 = if target.y >= p.y {
            (target.y - p.y) as u64
        } else {
            (p.y - target.y) as u64
        };
        proof {
            let dsq = dist_sq(p, target);
            assert(0 <= dsq && (dx_mag as int) * (dx_mag as int) <= dsq && (dy_mag as int) * (
            dy_mag as int) <= dsq) by (nonlinear_arith)
                requires
                    dsq == (p.x - target.x) * (p.x - target.x) + (p.y - target.y) * (p.y
                        - target.y),
                    dx_mag as int == target.x - p.x || dx_mag as int == p.x - target.x,
                    dy_mag as int == target.y - p.y || dy_mag as int == p.y - target.y;
            crate::geom::lemma_sqrt_floor_at_least(dsq as nat, dx_mag as nat);
            crate::geom::lemma_sqrt_floor_at_least(dsq as nat, dy_mag as nat);
            assert(dx_mag <= d && dy_mag <= d);
            vstd::arithmetic::div_mod::lemma_div_is_ordered(
                (dx_mag * ENEMY_SPEED_CU) as int,
                (d * ENEMY_SPEED_CU) as int,
                d as int,
            );
            vstd::arithmetic::div_mod::lemma_div_is_ordered(
                (dy_mag * ENEMY_SPEED_CU) as int,
                (d * ENEMY_SPEED_CU) as int,
                d as int,
            );
            vstd::arithmetic::div_mod::lemma_div_multiples_vanish(
                ENEMY_SPEED_CU as int,
                d as int,
            );
            assert((d * ENEMY_SPEED_CU) as int == (ENEMY_SPEED_CU as int) * (d as int));
            assert(((dx_mag * ENEMY_SPEED_CU) as int) / (d as int) <= ENEMY_SPEED_CU);
            assert(((dy_mag * ENEMY_SPEED_CU) as int) / (d as int) <= ENEMY_SPEED_CU);
        }
        let step_x: u64 = dx_mag * ENEMY_SPEED_CU / d;
        let step_y: u64 = dy_mag * ENEMY_SPEED_CU / d;
        let new_x: i64 = if target.x >= p.x {
            p.x + (step_x as i64)
        } else {
            p.x - (step_x as i64)
        };
        let new_y: i64 = if target.y >= p.y {
            p.y + (step_y as i64)
        } else {
            p.y - (step_y as i64)
        };
        agent.pos = Vec2i { x: new_x, y: new_y };
    }
}

/// Steers every agent for one tick against one snapshot of the target. With
/// no target the tick is a no-op. All agents stay inside the playing field,
/// so ticks chain.
pub fn steer_tick(agents: &mut Vec<Agent>, target: Option<Vec2i>, angles: &Vec<u32>)
    requires
        angles@.len() == old(agents)@.len(),
        forall|i: int| 0 <= i < old(agents)@.len() ==> (#[trigger] old(agents)@[i]).pos.in_world(),
        forall|i: int| 0 <= i < angles@.len() ==> #[trigger] angles@[i] < FULL_TURN_CDEG,
        target.is_some() ==> target_in_reach(target.unwrap()),
    ensures
        final(agents)@.len() == old(agents)@.len(),
        !target.is_some() ==> final(agents)@ == old(agents)@,
        forall|i: int|
            0 <= i < old(agents)@.len() && target.is_some() ==> final(agents)@[i] == steer_spec(
                old(agents)@[i],
                target.unwrap(),
                angles@[i] as int,
            ),
        forall|i: int| 0 <= i < final(agents)@.len() ==> (#[trigger] final(agents)@[i]).pos.in_world(),
{
    let t = match target {
        Some(t) => t,
        None => {
            return ;
        },
    };
    let n = agents.len();
    let mut i: usize = 0;
    while i < n
        invariant
            n == agents@.len(),
            angles@.len() == n,
            i <= n,
            forall|j: int| 0 <= j < n ==> (#[trigger] agents@[j]).pos.in_world(),
            forall|j: int| 0 <= j < n ==> #[trigger] angles@[j] < FULL_TURN_CDEG,
            target_in_reach(t),
            forall|j: int| i <= j < n ==> #[trigger] agents@[j] == old(agents)@[j],
            forall|j: int|
                0 <= j < i ==> #[trigger] agents@[j] == steer_spec(
                    old(agents)@[j],
                    t,
                    angles@[j] as int,
                ),
        decreases n - i,
    {
        let mut a = agents[i];
        steer_agent(&mut a, t, angles[i]);
        agents[i] = a;
        i = i + 1;
    }
}

} // verus!
