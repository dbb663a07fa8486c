//! The player's discrete state: directional idle, walk and run states, the
//! predicates over them, the fall-back to the matching idle state when input
//! stops, and the player's sprite-atlas rows.

use vstd::prelude::*;

verus! {

/// Frames per animation row of the player atlas.
pub const PLAYER_FRAMES: u32 = 8;

/// Discrete player state, driven by input and death, read by animation.
#[derive(Clone, Copy, PartialEq, Eq, Structural, Debug)]
pub enum PlayerState {
    Alive,
    IdleFront,
    IdleBack,
    IdleLeft,
    IdleRight,
    Walk,
    WalkFront,
    WalkBack,
    WalkLeft,
    WalkRight,
    Run,
    RunFront,
    RunBack,
    RunLeft,
    RunRight,
    DeadFront,
    DeadBack,
    DeadLeft,
    DeadRight,
}

/// The walking states, direction-specific or not.
pub open spec fn is_walking_spec(s: PlayerState) -> bool {
    s == PlayerState::Walk || s == PlayerState::WalkBack || s == PlayerState::WalkFront || s
        == PlayerState::WalkLeft || s == PlayerState::WalkRight
}

/// The running states, direction-specific or not.
pub open spec fn is_running_spec(s: PlayerState) -> bool {
    s == PlayerState::Run || s == PlayerState::RunBack || s == PlayerState::RunFront || s
        == PlayerState::RunLeft || s == PlayerState::RunRight
}

/// The dead states, one per facing.
pub open spec fn is_dead_spec(s: PlayerState) -> bool {
    s == PlayerState::DeadFront || s == PlayerState::DeadBack || s == PlayerState::DeadLeft || s
        == PlayerState::DeadRight
}

impl PlayerState {
    /// Whether this is the initial state.
    pub fn is_alive(self) -> (r: bool)
        ensures
            r == (self == PlayerState::Alive),
    {
        match self {
            PlayerState::Alive => true,
            _ => false,
        }
    }

    /// Whether the player is walking.
    pub fn is_walking(self) -> (r: bool)
        ensures
            r == is_walking_spec(self),
    {
        match self {
            PlayerState::Walk => true,
            PlayerState::WalkBack => true,
            PlayerState::WalkFront => true,
            PlayerState::WalkLeft => true,
            PlayerState::WalkRight => true,
            _ => false,
        }
    }

    /// Whether the player is running.
    pub fn is_running(self) -> (r: bool)
        ensures
            r == is_running_spec(self),
    {
        match self {
            PlayerState::Run => true,
            PlayerState::RunBack => true,
            PlayerState::RunFront => true,
            PlayerState::RunLeft => true,
            PlayerState::RunRight => true,
            _ => false,
        }
    }

    /// Whether the player is dead.
    pub fn is_dead(self) -> (r: bool)
        ensures
            r == is_dead_spec(self),
    {
        match self {
            PlayerState::DeadFront => true,
            PlayerState::DeadBack => true,
            PlayerState::DeadLeft => true,
            PlayerState::DeadRight => true,
            _ => false,
        }
    }
}

/// The state a player falls back to when movement input stops: the idle
/// state of the direction last moved in; any other state is kept.
pub open spec fn settle_idle_spec(s: PlayerState) -> PlayerState {
    match s {
        PlayerState::WalkBack => PlayerState::IdleBack,
        PlayerState::RunBack => PlayerState::IdleBack,
        PlayerState::WalkFront => PlayerState::IdleFront,
        PlayerState::RunFront => PlayerState::IdleFront,
        PlayerState::WalkRight => PlayerState::IdleRight,
        PlayerState::RunRight => PlayerState::IdleRight,
        PlayerState::WalkLeft => PlayerState::IdleLeft,
        PlayerState::RunLeft => PlayerState::IdleLeft,
        _ => s,
    }
}

/// Applies the idle fall-back for a tick without movement input.
pub fn settle_idle(s: PlayerState) -> (r: PlayerState)
    ensures
        r == settle_idle_spec(s),
{
    match s {
        PlayerState::WalkBack => PlayerState::IdleBack,
        PlayerState::RunBack => PlayerState::IdleBack,
        PlayerState::WalkFront => PlayerState::IdleFront,
        PlayerState::RunFront => PlayerState::IdleFront,
        PlayerState::WalkRight => PlayerState::IdleRight,
        PlayerState::RunRight => PlayerState::IdleRight,
        PlayerState::WalkLeft => PlayerState::IdleLeft,
        PlayerState::RunLeft => PlayerState::IdleLeft,
        _ => s,
    }
}

/// First frame of the atlas row that animates the player in this state, or
/// nothing for a state the sheet does not animate (death and the
/// directionless walk and run states).
pub open spec fn player_atlas_offset_spec(s: PlayerState) -> Option<u32> {
    match s {
        PlayerState::Alive => Some(0u32),
        PlayerState::IdleBack => Some(0u32),
        PlayerState::IdleFront => Some(8u32),
        PlayerState::IdleLeft => Some(16u32),
        PlayerState::IdleRight => Some(24u32),
        PlayerState::WalkBack => Some(32u32),
        PlayerState::RunBack => Some(32u32),
        PlayerState::WalkFront => Some(40u32),
        PlayerState::RunFront => Some(40u32),
        PlayerState::WalkLeft => Some(48u32),
        PlayerState::RunLeft => Some(48u32),
        PlayerState::WalkRight => Some(56u32),
        PlayerState::RunRight => Some(56u32),
        _ => None,
    }
}

/// Runtime view of `player_atlas_offset_spec`.
pub fn player_atlas_offset(s: PlayerState) -> (off: Option<u32>)
    ensures
        off == player_atlas_offset_spec(s),
{
    match s {
        PlayerState::Alive => Some(0),
        PlayerState::IdleBack => Some(0),
        PlayerState::IdleFront => Some(8),
        PlayerState::IdleLeft => Some(16),
        PlayerState::IdleRight => Some(24),
        PlayerState::WalkBack => Some(32),
        PlayerState::RunBack => Some(32),
        PlayerState::WalkFront => Some(40),
        PlayerState::RunFront => Some(40),
        PlayerState::WalkLeft => Some(48),
        PlayerState::RunLeft => Some(48),
        PlayerState::WalkRight => Some(56),
        PlayerState::RunRight => Some(56),
        _ => None,
    }
}

/// Next sprite frame of the player: step to the next of the eight frames in
/// the state's row; a state without a row leaves the frame alone.
pub open spec fn player_frame_spec(s: PlayerState, index: int) -> int {
    match player_atlas_offset_spec(s) {
        Some(off) => (index + 1) % (PLAYER_FRAMES as int) + off,
        None => index,
    }
}

/// Advances the player's sprite frame by one animation step.
pub fn advance_player_frame(s: PlayerState, index: u32) -> (next: u32)
    ensures
        next == player_frame_spec(s, index as int),
{
    match player_atlas_offset(s) {
        Some(off) => (index % PLAYER_FRAMES + 1) % PLAYER_FRAMES + off,
        None => index,
    }
}

} // verus!
