use vstd::prelude::*;

verus! {

/// Ducks that appear in one level.
pub const DUCKS_PER_ROUND: u32 = 10;
/// Shots loaded at the start of each wave.
pub const SHOTS_PER_WAVE: u32 = 3;
/// Ducks that must be hit in a level to go on to the next.
pub const DUCKS_TO_CLEAR: u32 = 6;
/// Escaped ducks, over the whole game, that end it.
pub const MAX_MISSES: u32 = 5;
/// Speed of the ducks in the first level, in pixels per second.
pub const DUCK_SPEED_BASE: u64 = 250;
/// Speed added to the ducks by each further level.
pub const DUCK_SPEED_PER_ROUND: u64 = 40;
/// Points for a duck in the first level.
pub const POINTS_BASE: u32 = 100;
/// Points added per duck by each further level.
pub const POINTS_PER_ROUND: u32 = 50;
/// Most ducks on screen at once, in any level.
pub const MAX_SIMULTANEOUS: u32 = 3;

/// How long the dog shows itself after a duck is shot or escapes.
pub const DOG_DISPLAY_NS: u64 = 2_000_000_000;
/// How long the pause between two levels lasts.
pub const ROUND_PAUSE_NS: u64 = 1_500_000_000;
/// Time between two ducks taking off.
pub const SPAWN_INTERVAL_NS: u64 = 1_000_000_000;

/// The screens and phases of the game.
#[derive(Clone, Copy, Debug, PartialEq, Eq, Structural)]
pub enum GameState {
    Title,
    Playing,
    DogReaction,
    RoundOver,
    GameOver,
}

/// The counters of one game. `round` counts from 0: the level shown to the
/// player is `round + 1`.
#[derive(Clone, Copy, Debug, PartialEq, Eq, Structural)]
pub struct GameData {
    pub score: u32,
    pub round: u32,
    pub ducks_this_round: u32,
    pub ducks_hit: u32,
    pub shots_left: u32,
    pub total_misses: u32,
    pub last_duck_was_hit: bool,
}

/// The counters of a game that has not started: all zero.
pub open spec fn fresh_data() -> GameData {
    GameData {
        score: 0,
        round: 0,
        ducks_this_round: 0,
        ducks_hit: 0,
        shots_left: 0,
        total_misses: 0,
        last_duck_was_hit: false,
    }
}

impl GameData {
    pub fn new() -> (d: GameData)
        ensures
            d == fresh_data(),
    {
        GameData {
            score: 0,
            round: 0,
            ducks_this_round: 0,
            ducks_hit: 0,
            shots_left: 0,
            total_misses: 0,
            last_duck_was_hit: false,
        }
    }
}

/// Points a duck is worth in level `round + 1`: 100, 150, 200, and 50 more
/// for each level after.
pub open spec fn points_for(round: u32) -> int {
    POINTS_BASE + POINTS_PER_ROUND * round
}

/// Most ducks on screen at once in level `round + 1`: one in the first
/// level, two in the second, three from the third on.
pub open spec fn max_ducks_for(round: u32) -> int {
    if round + 1 < MAX_SIMULTANEOUS { round + 1 } else { MAX_SIMULTANEOUS as int }
}

/// Duck speed in level `round + 1`: 250, 290, 330, and 40 more for each
/// level after.
pub open spec fn speed_for(round: u32) -> int {
    DUCK_SPEED_BASE + DUCK_SPEED_PER_ROUND * round
}

/// Points for a hit in level `round + 1`.
pub fn points_for_round(round: u32) -> (p: u32)
    requires
        points_for(round) <= u32::MAX,
    ensures
        p == points_for(round),
{
    POINTS_BASE + round * POINTS_PER_ROUND
}

/// Most ducks on screen at once in level `round + 1`.
pub fn max_simultaneous(round: u32) -> (m: u32)
    requires
        round < u32::MAX,
    ensures
        m == max_ducks_for(round),
{
    let next = 1 + round;
    if next < MAX_SIMULTANEOUS { next } else { MAX_SIMULTANEOUS }
}

/// Duck speed in level `round + 1`, in pixels per second.
pub fn duck_speed(round: u32) -> (s: u64)
    ensures
        s == speed_for(round),
{
    DUCK_SPEED_BASE + (round as u64) * DUCK_SPEED_PER_ROUND
}

/// Whether bullet icon `index` (counted from 0) of the HUD shows as loaded.
pub fn bullet_loaded(index: u32, shots_left: u32) -> (loaded: bool)
    ensures
        loaded == (index < shots_left),
{
    index < shots_left
}

} // verus!
