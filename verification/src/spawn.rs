//! Spawning: on a fixed interval the population is topped up toward the cap,
//! at most one batch per tick, each new agent placed at a random point of an
//! annulus around the target. The random angle and radius are drawn here (in
//! hundredths of a degree and of a world unit); turning them into a
//! cartesian offset is the caller's trigonometry.

use vstd::prelude::*;

use crate::agent::{initial_frame, initial_frame_spec, Agent, AgentKind, MotionState};
use crate::entropy::rand_in;
use crate::geom::Vec2i;
use crate::steer::FULL_TURN_CDEG;

verus! {

/// The population cap.
pub const MAX_AGENTS: usize = 300;

/// Most agents one spawn tick may add.
pub const SPAWN_BATCH: usize = 10;

/// Inner radius of the spawn annulus, in hundredths of a world unit
/// (`1000` world units).
pub const SPAWN_RADIUS_LO_CU: u32 = 100_000;

/// Outer radius of the spawn annulus, exclusive, in hundredths of a world
/// unit (`5000` world units).
pub const SPAWN_RADIUS_HI_CU: u32 = 500_000;

/// Size of the kind draw: one value in four marks an elite.
pub const KIND_DRAW_SPAN: u32 = 4;

/// Largest coordinate a spawn offset can have: the outer annulus radius.
pub const OFFSET_LIMIT: i64 = 500_000;

/// Bound on target coordinates that keeps every spawn position, target plus
/// offset, inside the playing field.
pub const SPAWN_TARGET_LIMIT: i64 = 999_500_000;

/// A cartesian spawn offset drawn from the annulus.
pub open spec fn offset_ok(off: Vec2i) -> bool {
    -OFFSET_LIMIT <= off.x <= OFFSET_LIMIT && -OFFSET_LIMIT <= off.y <= OFFSET_LIMIT
}

/// A target position agents can be spawned around.
pub open spec fn spawn_target_ok(t: Vec2i) -> bool {
    -SPAWN_TARGET_LIMIT <= t.x <= SPAWN_TARGET_LIMIT && -SPAWN_TARGET_LIMIT <= t.y
        <= SPAWN_TARGET_LIMIT
}

/// The kind a draw in `[0, 4)` selects: `0` is elite, the rest are common.
pub open spec fn kind_draw_spec(d: u32) -> AgentKind {
    if d == 0 {
        AgentKind::Elite
    } else {
        AgentKind::Common
    }
}

/// Runtime view of `kind_draw_spec`.
pub fn kind_of_draw(d: u32) -> (k: AgentKind)
    ensures
        k == kind_draw_spec(d),
{
    if d == 0 {
        AgentKind::Elite
    } else {
        AgentKind::Common
    }
}

/// Draws the kind of one new agent. Nothing can be promised of which kind
/// comes out, only that the draw is in range; `kind_draw_spec` says what each
/// draw means.
pub fn random_kind_draw() -> (d: u32)
    ensures
        d < KIND_DRAW_SPAN,
{
    rand_in(0, KIND_DRAW_SPAN)
}

/// Draws a spawn point of the annulus in polar form: a bearing in
/// `[0, 36000)` hundredths of a degree and a radius in `[1000, 5000)` world
/// units, carried in hundredths.
pub fn draw_spawn_polar() -> (p: (u32, u32))
    ensures
        p.0 < FULL_TURN_CDEG,
        SPAWN_RADIUS_LO_CU <= p.1 < SPAWN_RADIUS_HI_CU,
{
    let angle = rand_in(0, FULL_TURN_CDEG);
    let radius = rand_in(SPAWN_RADIUS_LO_CU, SPAWN_RADIUS_HI_CU);
    (angle, radius)
}

/// How many agents one tick spawns: the smaller of the deficit below the cap
/// and the batch size, and none at or above the cap.
pub open spec fn spawn_count_spec(current: int, cap: int, batch: int) -> int {
    if current >= cap {
        0
    } else if cap - current < batch {
        cap - current
    } else {
        batch
    }
}

/// How many agents one tick spawns when also limited by the offsets on hand
/// and by the target existing at all.
pub open spec fn spawn_len_spec(
    current: int,
    cap: int,
    batch: int,
    available: int,
    has_target: bool,
) -> int {
    if !has_target {
        0
    } else if spawn_count_spec(current, cap, batch) < available {
        spawn_count_spec(current, cap, batch)
    } else {
        available
    }
}

/// Runtime view of `spawn_count_spec`.
pub fn spawn_count(current: usize, cap: usize, batch: usize) -> (n: usize)
    ensures
        n == spawn_count_spec(current as int, cap as int, batch as int),
{
    if current >= cap {
        0
    } else if cap - current < batch {
        cap - current
    } else {
        batch
    }
}

/// The agent one spawn slot produces: placed at target plus offset, kind by
/// its draw, alive, on the first frame of its kind's atlas region.
pub open spec fn agent_spec(id: u64, target: Vec2i, offset: Vec2i, kind_draw: u32) -> Agent {
    let kind = kind_draw_spec(kind_draw);
    Agent {
        id,
        pos: Vec2i { x: (target.x + offset.x) as i64, y: (target.y + offset.y) as i64 },
        kind,
        state: MotionState::Alive,
        sprite_frame: initial_frame_spec(kind),
    }
}

/// Builds one newly spawned agent.
pub fn make_agent(id: u64, target: Vec2i, offset: Vec2i, kind_draw: u32) -> (a: Agent)
    requires
        spawn_target_ok(target),
        offset_ok(offset),
    ensures
        a == agent_spec(id, target, offset, kind_draw),
        a.pos.in_world(),
{
    let kind = kind_of_draw(kind_draw);
    let frame = initial_frame(kind);
    Agent {
        id,
        pos: Vec2i { x: target.x + offset.x, y: target.y + offset.y },
        kind,
        state: MotionState::Alive,
        sprite_frame: frame,
    }
}

/// One spawn tick: with no target, or at the cap, nothing happens; otherwise
/// one agent per prepared offset is created, never more than the batch and
/// never past the cap. Ids count up from `next_id`.
pub fn spawn_tick(
    current_count: usize,
    target: Option<Vec2i>,
    cap: usize,
    batch: usize,
    offsets: &Vec<Vec2i>,
    kind_draws: &Vec<u32>,
    next_id: u64,
) -> (spawned: Vec<Agent>)
    requires
        offsets@.len() == kind_draws@.len(),
        forall|i: int| 0 <= i < offsets@.len() ==> offset_ok(#[trigger] offsets@[i]),
        target.is_some() ==> spawn_target_ok(target.unwrap()),
        next_id + offsets@.len() <= u64::MAX,
    ensures
        spawned@.len() == spawn_len_spec(
            current_count as int,
            cap as int,
            batch as int,
            offsets@.len() as int,
            target.is_some(),
        ),
        forall|i: int|
            0 <= i < spawned@.len() ==> #[trigger] spawned@[i] == agent_spec(
                (next_id + i) as u64,
                target.unwrap(),
                offsets@[i],
                kind_draws@[i],
            ),
        forall|i: int| 0 <= i < spawned@.len() ==> (#[trigger] spawned@[i]).pos.in_world(),
        spawned@.len() <= batch,
        current_count <= cap ==> current_count + spawned@.len() <= cap,
{
    let mut spawned: Vec<Agent> = Vec::new();
    let t = match target {
        Some(t) => t,
        None => {
            return spawned;
        },
    };
    let wanted = spawn_count(current_count, cap, batch);
    let n = if wanted < offsets.len() {
        wanted
    } else {
        offsets.len()
    };
    let mut i: usize = 0;
    while i < n
        invariant
            n <= offsets@.len(),
            offsets@.len() == kind_draws@.len(),
            forall|j: int| 0 <= j < offsets@.len() ==> offset_ok(#[trigger] offsets@[j]),
            spawn_target_ok(t),
            next_id + offsets@.len() <= u64::MAX,
            i <= n,
            spawned@.len() == i,
            forall|j: int|
                0 <= j < i ==> #[trigger] spawned@[j] == agent_spec(
                    (next_id + j) as u64,
                    t,
                    offsets@[j],
                    kind_draws@[j],
                ),
            forall|j: int| 0 <= j < i ==> (#[trigger] spawned@[j]).pos.in_world(),
        decreases n - i,
    {
        let a = make_agent(next_id + (i as u64), t, offsets[i], kind_draws[i]);
        spawned.push(a);
        i = i + 1;
    }
    spawned
}

/// The population never outgrows the cap: one tick adds at most a batch, and
/// a tick that starts within the cap ends within it — so any number of
/// chained spawn ticks stays within the cap.
pub proof fn lemma_population_cap(
    current: int,
    cap: int,
    batch: int,
    available: int,
    has_target: bool,
)
    requires
        0 <= batch,
        0 <= available,
    ensures
        spawn_len_spec(current, cap, batch, available, has_target) <= batch,
        spawn_len_spec(current, cap, batch, available, has_target) >= 0,
        current <= cap ==> current + spawn_len_spec(current, cap, batch, available, has_target)
            <= cap,
{
}

} // verus!
