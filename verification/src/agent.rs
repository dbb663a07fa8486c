//! Agents (the enemies): their kind, their per-tick motion state, and the
//! sprite-atlas bookkeeping that hangs off both. Common and elite agents use
//! disjoint atlas regions with the same internal layout, so one offset table
//! keyed by kind and state replaces a wall of near-identical branches.

use vstd::prelude::*;

use crate::geom::Vec2i;

verus! {

/// Frames per animation row of the agent atlas.
pub const AGENT_FRAMES: u32 = 8;

/// First frame of the elite atlas region.
pub const ELITE_BASE_FRAME: u32 = 127;

/// Offset separating the elite rows from the common rows.
pub const ELITE_ROW_OFFSET: u32 = 128;

/// What an agent is: one in four spawns is elite, the rest are common.
#[derive(Clone, Copy, PartialEq, Eq, Structural, Debug)]
pub enum AgentKind {
    Common,
    Elite,
}

/// Discrete motion state of an agent, recomputed from distance and bearing
/// every tick. `Alive` is the state an agent spawns in; `Dead` is applied by
/// an outside collaborator and never by steering.
#[derive(Clone, Copy, PartialEq, Eq, Structural, Debug)]
pub enum MotionState {
    Alive,
    IdleFront,
    IdleBack,
    IdleLeft,
    IdleRight,
    RunFront,
    RunBack,
    RunLeft,
    RunRight,
    Dead,
}

/// One autonomous agent.
#[derive(Clone, Copy, PartialEq, Eq, Structural, Debug)]
pub struct Agent {
    pub id: u64,
    pub pos: Vec2i,
    pub kind: AgentKind,
    pub state: MotionState,
    pub sprite_frame: u32,
}

impl AgentKind {
    /// Whether this is the common kind.
    pub fn is_common(self) -> (r: bool)
        ensures
            r == (self == AgentKind::Common),
    {
        match self {
            AgentKind::Common => true,
            AgentKind::Elite => false,
        }
    }
}

/// The atlas frame an agent of this kind starts at.
pub open spec fn initial_frame_spec(kind: AgentKind) -> u32 {
    match kind {
        AgentKind::Common => 0,
        AgentKind::Elite => ELITE_BASE_FRAME,
    }
}

/// Runtime view of `initial_frame_spec`.
pub fn initial_frame(kind: AgentKind) -> (f: u32)
    ensures
        f == initial_frame_spec(kind),
{
    match kind {
        AgentKind::Common => 0,
        AgentKind::Elite => ELITE_BASE_FRAME,
    }
}

/// First frame of the atlas row that animates this kind in this state, or
/// nothing for `Dead`, which this table does not animate.
pub open spec fn agent_atlas_offset_spec(kind: AgentKind, state: MotionState) -> Option<u32> {
    let row: Option<u32> = match state {
        MotionState::Alive => Some(0u32),
        MotionState::IdleFront => Some(0u32),
        MotionState::IdleBack => Some(8u32),
        MotionState::IdleLeft => Some(16u32),
        MotionState::IdleRight => Some(24u32),
        MotionState::RunFront => Some(32u32),
        MotionState::RunBack => Some(40u32),
        MotionState::RunLeft => Some(48u32),
        MotionState::RunRight => Some(56u32),
        MotionState::Dead => None,
    };
    match row {
        Some(r) => if kind == AgentKind::Elite {
            Some((r + ELITE_ROW_OFFSET) as u32)
        } else {
            Some(r)
        },
        None => None,
    }
}

/// Runtime view of `agent_atlas_offset_spec`.
pub fn agent_atlas_offset(kind: AgentKind, state: MotionState) -> (off: Option<u32>)
    ensures
        off == agent_atlas_offset_spec(kind, state),
{
    let row: Option<u32> = match state {
        MotionState::Alive => Some(0),
        MotionState::IdleFront => Some(0),
        MotionState::IdleBack => Some(8),
        MotionState::IdleLeft => Some(16),
        MotionState::IdleRight => Some(24),
        MotionState::RunFront => Some(32),
        MotionState::RunBack => Some(40),
        MotionState::RunLeft => Some(48),
        MotionState::RunRight => Some(56),
        MotionState::Dead => None,
    };
    match row {
        Some(r) => {
            let base = match kind {
                AgentKind::Elite => r + ELITE_ROW_OFFSET,
                AgentKind::Common => r,
            };
            Some(base)
        },
        None => None,
    }
}

/// Next sprite frame of an agent: step to the next of the eight frames in the
/// row that kind and state select; a state the table does not animate leaves
/// the frame alone.
pub open spec fn agent_frame_spec(kind: AgentKind, state: MotionState, index: int) -> int {
    match agent_atlas_offset_spec(kind, state) {
        Some(off) => (index + 1) % (AGENT_FRAMES as int) + off,
        None => index,
    }
}

/// Advances an agent's sprite frame by one animation step.
pub fn advance_agent_frame(kind: AgentKind, state: MotionState, index: u32) -> (next: u32)
    ensures
        next == agent_frame_spec(kind, state, index as int),
{
    match agent_atlas_offset(kind, state) {
        Some(off) => (index % AGENT_FRAMES + 1) % AGENT_FRAMES + off,
        None => index,
    }
}

} // verus!
