//! What holds of the game over every step, and over the steps that the
//! rules single out.

use crate::game::{DogPose, Game, ShotOutcome, Transition};
use crate::rules::{
    fresh_data, max_ducks_for, points_for, GameData, GameState, DOG_DISPLAY_NS, DUCKS_PER_ROUND,
    DUCKS_TO_CLEAR, MAX_MISSES, ROUND_PAUSE_NS, SHOTS_PER_WAVE, SPAWN_INTERVAL_NS,
};
use crate::timer::{Countdown, Repeat};
use vstd::prelude::*;

verus! {

/// One thing that can happen to the game: an input, a frame's work, or the
/// change of state at the start of a frame.
#[derive(Clone, Copy, Debug)]
pub enum GameEvent {
    TitleClick { clicked: bool },
    GameOverClick { clicked: bool },
    Transition,
    SpawnCheck { duck_count: u32, delta_ns: u64 },
    Escape,
    Shot { clicked: bool, in_sight: bool },
    RoundEndCheck { duck_count: u32 },
    DogTick { delta_ns: u64 },
    PauseTick { delta_ns: u64 },
}

/// The game after an event, as the methods of `Game` make it.
pub open spec fn step(g: Game, e: GameEvent) -> Game {
    match e {
        GameEvent::TitleClick { clicked } => g.after_title_click(clicked),
        GameEvent::GameOverClick { clicked } => g.after_game_over_click(clicked),
        GameEvent::Transition => g.after_transition().0,
        GameEvent::SpawnCheck { duck_count, delta_ns } => g.after_spawn_check(duck_count, delta_ns).0,
        GameEvent::Escape => g.after_escape().0,
        GameEvent::Shot { clicked, in_sight } => g.after_shot(clicked, in_sight).0,
        GameEvent::RoundEndCheck { duck_count } => g.after_round_end_check(duck_count),
        GameEvent::DogTick { delta_ns } => g.after_dog_tick(delta_ns),
        GameEvent::PauseTick { delta_ns } => g.after_pause_tick(delta_ns),
    }
}

/// The event's counters stay within 32 bits: what the methods require
/// beyond a game in good order.
pub open spec fn step_allowed(g: Game, e: GameEvent) -> bool {
    match e {
        GameEvent::SpawnCheck { .. } => g.state == GameState::Playing && g.data.ducks_this_round
            < DUCKS_PER_ROUND ==> g.data.round < u32::MAX,
        GameEvent::Escape => g.state == GameState::Playing ==> g.data.total_misses < u32::MAX,
        GameEvent::Shot { clicked, in_sight } => g.fires(clicked) && in_sight ==> g.data.ducks_hit
            < u32::MAX && g.data.score + points_for(g.data.round) <= u32::MAX,
        GameEvent::PauseTick { delta_ns } => g.levels_up(delta_ns) ==> g.data.round < u32::MAX,
        _ => true,
    }
}

/// Whether the event starts a new game (a click on the title or
/// game-over screen).
pub open spec fn restarts(g: Game, e: GameEvent) -> bool {
    match e {
        GameEvent::TitleClick { clicked } => clicked && g.state == GameState::Title,
        GameEvent::GameOverClick { clicked } => clicked && g.state == GameState::GameOver,
        _ => false,
    }
}

/// Every step keeps the game in good order: timers as made, never more
/// than three shots in the gun, never more than ten ducks sent in a level.
pub proof fn lemma_step_keeps_order(g: Game, e: GameEvent)
    requires
        g.wf(),
    ensures
        step(g, e).wf(),
{
    match e {
        GameEvent::SpawnCheck { duck_count, delta_ns } => {
            let t = g.spawn_timer.ticked(delta_ns).0;
            assert(t.wf()) by {
                let total: int = g.spawn_timer.elapsed_ns + delta_ns;
                let d: int = g.spawn_timer.duration_ns as int;
                assert(0 <= total % d < d) by (nonlinear_arith)
                    requires d > 0, total >= 0;
            }
        },
        _ => {},
    }
}

/// The score never goes down; only a new game sets it back to zero.
pub proof fn lemma_score_never_drops(g: Game, e: GameEvent)
    requires
        g.wf(),
        step_allowed(g, e),
    ensures
        restarts(g, e) ==> step(g, e).data == fresh_data(),
        !restarts(g, e) ==> step(g, e).data.score >= g.data.score,
{
}

/// Escaped ducks are counted over the whole game: the count never goes
/// down, a new level keeps it, and only a new game sets it back to zero.
pub proof fn lemma_misses_kept_across_levels(g: Game, e: GameEvent)
    requires
        g.wf(),
        step_allowed(g, e),
    ensures
        !restarts(g, e) ==> step(g, e).data.total_misses >= g.data.total_misses,
        e is Escape && g.state == GameState::Playing ==> step(g, e).data.total_misses
            == g.data.total_misses + 1,
        !(e is Escape) && !restarts(g, e) ==> step(g, e).data.total_misses
            == g.data.total_misses,
{
}

/// The level changes only when the pause after a level with six hits runs
/// out (one up), or with a new game (back to the first).
pub proof fn lemma_level_changes_only_on_clear(g: Game, e: GameEvent)
    requires
        g.wf(),
        step_allowed(g, e),
    ensures
        step(g, e).data.round == g.data.round
            || (restarts(g, e) && step(g, e).data.round == 0)
            || (e matches GameEvent::PauseTick { delta_ns } && g.levels_up(delta_ns)
                && step(g, e).data.round == g.data.round + 1),
{
}

/// A hit is worth 100 points plus 50 per level after the first; it counts
/// toward the level's hits and brings up the proud dog. A shot spends one
/// round whether it hits or not.
pub proof fn lemma_hit_scores(g: Game, in_sight: bool)
    requires
        g.wf(),
        g.fires(true),
        in_sight ==> g.data.ducks_hit < u32::MAX && g.data.score + points_for(g.data.round)
            <= u32::MAX,
    ensures
        ({
            let (h, outcome) = g.after_shot(true, in_sight);
            &&& h.data.shots_left == g.data.shots_left - 1
            &&& in_sight ==> {
                &&& outcome == ShotOutcome::Hit
                &&& h.data.score == g.data.score + points_for(g.data.round)
                &&& h.data.ducks_hit == g.data.ducks_hit + 1
                &&& h.pose() == DogPose::Proud
                &&& h.next_state == Some(GameState::DogReaction)
            }
            &&& !in_sight ==> {
                &&& outcome == ShotOutcome::Miss
                &&& h.data.score == g.data.score
                &&& h.next_state == g.next_state
            }
        }),
{
}

/// With no shot left, or out of play, a click does nothing at all.
pub proof fn lemma_no_shot_without_ammo(g: Game, clicked: bool, in_sight: bool)
    requires
        g.data.shots_left == 0 || g.state != GameState::Playing,
    ensures
        g.after_shot(clicked, in_sight) == (g, ShotOutcome::NoShot),
{
}

/// An escaped duck counts one miss and brings up the laughing dog.
pub proof fn lemma_escape_laughed_at(g: Game)
    requires
        g.state == GameState::Playing,
        g.data.total_misses < u32::MAX,
    ensures
        ({
            let (h, despawn) = g.after_escape();
            &&& despawn
            &&& h.data.total_misses == g.data.total_misses + 1
            &&& h.pose() == DogPose::Laughing
            &&& h.next_state == Some(GameState::DogReaction)
        }),
{
}

/// When the dog's time is up after the fifth escape, the game is over.
pub proof fn lemma_fifth_miss_ends_game(g: Game, delta_ns: u64)
    requires
        g.state == GameState::DogReaction,
        g.data.total_misses >= MAX_MISSES,
        g.dog_timer.ticked(delta_ns).1,
    ensures
        g.after_dog_tick(delta_ns).next_state == Some(GameState::GameOver),
{
}

/// When the pause after a level is up, fewer than six hits end the game,
/// and six or more lead into the next level, score and misses kept.
pub proof fn lemma_clear_needs_six_hits(g: Game, delta_ns: u64)
    requires
        g.state == GameState::RoundOver,
        g.pause_timer.ticked(delta_ns).1,
        g.data.ducks_hit >= DUCKS_TO_CLEAR ==> g.data.round < u32::MAX,
    ensures
        g.data.ducks_hit < DUCKS_TO_CLEAR ==> g.after_pause_tick(delta_ns).next_state == Some(
            GameState::GameOver,
        ),
        g.data.ducks_hit >= DUCKS_TO_CLEAR ==> {
            let h = g.after_pause_tick(delta_ns);
            &&& h.next_state == Some(GameState::Playing)
            &&& h.data.round == g.data.round + 1
            &&& h.data.score == g.data.score
            &&& h.data.total_misses == g.data.total_misses
        },
{
}

/// A duck takes off only while the level has fewer than ten sent and the
/// screen holds fewer than the level allows (one, two, then three).
pub proof fn lemma_spawn_limits(g: Game, duck_count: u32, delta_ns: u64)
    requires
        g.wf(),
    ensures
        g.after_spawn_check(duck_count, delta_ns).1 ==> {
            &&& g.state == GameState::Playing
            &&& g.data.ducks_this_round < DUCKS_PER_ROUND
            &&& duck_count < max_ducks_for(g.data.round)
            &&& max_ducks_for(g.data.round) <= 3
            &&& g.after_spawn_check(duck_count, delta_ns).0.data.ducks_this_round
                == g.data.ducks_this_round + 1
        },
        !g.after_spawn_check(duck_count, delta_ns).1 ==> g.after_spawn_check(
            duck_count,
            delta_ns,
        ).0.data == g.data,
        g.after_spawn_check(duck_count, delta_ns).0.data.ducks_this_round <= DUCKS_PER_ROUND,
{
}

/// Play that resumes after the dog stays in the same level: the ducks sent
/// and hit so far count on toward the level's ten and its six hits.
pub proof fn lemma_resume_keeps_level(g: Game)
    requires
        g.wf(),
        g.state == GameState::DogReaction,
        g.next_state == Some(GameState::Playing),
    ensures
        ({
            let h = g.after_transition().0;
            &&& h.state == GameState::Playing
            &&& h.data.ducks_this_round == g.data.ducks_this_round
            &&& h.data.ducks_hit == g.data.ducks_hit
            &&& h.data.round == g.data.round
            &&& h.data.shots_left == SHOTS_PER_WAVE
        }),
{
}

/// The total of a run of frame times.
pub open spec fn total_ns(deltas: Seq<u64>) -> int
    decreases deltas.len(),
{
    if deltas.len() == 0 {
        0
    } else {
        total_ns(deltas.drop_last()) + deltas.last()
    }
}

/// The game after the dog's timer ran for each frame time of `deltas`, in
/// order.
pub open spec fn dog_ticks(g: Game, deltas: Seq<u64>) -> Game
    decreases deltas.len(),
{
    if deltas.len() == 0 {
        g
    } else {
        dog_ticks(g, deltas.drop_last()).after_dog_tick(deltas.last())
    }
}

/// The dog shows for two seconds: over any run of frames from the moment it
/// comes up, the next state is asked for as soon as the frames add up to two
/// seconds, and not before; the state shown stays the dog's until then.
/// (Applied to each prefix of a run, this singles out the first frame that
/// reaches two seconds as the one that asks.)
pub proof fn lemma_dog_shows_two_seconds(g: Game, deltas: Seq<u64>)
    requires
        g.wf(),
        g.state == GameState::DogReaction,
        g.next_state is None,
        g.dog_timer.elapsed_ns == 0,
    ensures
        dog_ticks(g, deltas).state == GameState::DogReaction,
        dog_ticks(g, deltas).data == g.data,
        (dog_ticks(g, deltas).next_state is None) <==> total_ns(deltas) < DOG_DISPLAY_NS,
        dog_ticks(g, deltas).dog_timer.elapsed_ns == if total_ns(deltas) < DOG_DISPLAY_NS {
            total_ns(deltas)
        } else {
            DOG_DISPLAY_NS as int
        },
        dog_ticks(g, deltas).wf(),
    decreases deltas.len(),
{
    if deltas.len() > 0 {
        let rest = deltas.drop_last();
        lemma_dog_shows_two_seconds(g, rest);
        assert(total_ns(rest) >= 0) by {
            lemma_total_nonnegative(rest);
        }
    }
}

proof fn lemma_total_nonnegative(deltas: Seq<u64>)
    ensures
        total_ns(deltas) >= 0,
    decreases deltas.len(),
{
    if deltas.len() > 0 {
        lemma_total_nonnegative(deltas.drop_last());
    }
}

/// The gun is reloaded when a duck takes off onto an empty screen, and
/// only then during a level.
pub proof fn lemma_reload_on_clear_screen(g: Game, duck_count: u32, delta_ns: u64)
    requires
        g.wf(),
        g.after_spawn_check(duck_count, delta_ns).1,
    ensures
        duck_count == 0 ==> g.after_spawn_check(duck_count, delta_ns).0.data.shots_left
            == SHOTS_PER_WAVE,
        duck_count > 0 ==> g.after_spawn_check(duck_count, delta_ns).0.data.shots_left
            == g.data.shots_left,
{
}

/// Play that goes on after the dog keeps the level's progress and reloads;
/// a new level (after the pause, or a new game) starts its counts over.
pub proof fn lemma_entering_play(g: Game)
    requires
        g.wf(),
        g.next_state == Some(GameState::Playing),
        g.state != GameState::Playing,
    ensures
        ({
            let (h, t) = g.after_transition();
            &&& t == Some(Transition { from: g.state, to: GameState::Playing })
            &&& h.state == GameState::Playing
            &&& h.next_state is None
            &&& h.data.shots_left == SHOTS_PER_WAVE
            &&& h.data.score == g.data.score
            &&& h.data.total_misses == g.data.total_misses
            &&& h.data.round == g.data.round
            &&& g.state == GameState::DogReaction ==> {
                &&& h.data.ducks_this_round == g.data.ducks_this_round
                &&& h.data.ducks_hit == g.data.ducks_hit
            }
            &&& g.state != GameState::DogReaction ==> {
                &&& h.data.ducks_this_round == 0
                &&& h.data.ducks_hit == 0
            }
        }),
{
}

/// A one-shot timer fires once: after the tick that finishes it, no later
/// tick fires it again.
pub proof fn lemma_one_shot_fires_once(c: Countdown, first_ns: u64, later_ns: u64)
    requires
        c.wf(),
        c.repeat == Repeat::Once,
        c.ticked(first_ns).1,
    ensures
        !c.ticked(first_ns).0.ticked(later_ns).1,
        c.ticked(first_ns).0.ticked(later_ns).0 == c.ticked(first_ns).0,
{
}

/// Without a click no shot is fired: whatever is under the crosshair, the
/// game is left as it was.
pub proof fn lemma_no_click_no_shot(g: Game, in_sight: bool)
    ensures
        g.after_shot(false, in_sight) == (g, ShotOutcome::NoShot),
{
}

/// In play, a click with a round in the gun always fires and spends
/// exactly that round; a shot at nothing changes nothing else.
pub proof fn lemma_click_fires(g: Game, in_sight: bool)
    requires
        g.state == GameState::Playing,
        g.data.shots_left > 0,
    ensures
        g.after_shot(true, in_sight).1 != ShotOutcome::NoShot,
        g.after_shot(true, in_sight).0.data.shots_left == g.data.shots_left - 1,
        g.after_shot(true, in_sight).0.state == g.state,
        !in_sight ==> g.after_shot(true, in_sight) == (
            Game { data: GameData { shots_left: (g.data.shots_left - 1) as u32, ..g.data }, ..g },
            ShotOutcome::Miss,
        ),
{
}

/// A repeating timer fires on the tick that brings it to its duration
/// (as long as the tick does not cover 2^32 whole durations, beyond which
/// bevy's count wraps), and not on a tick that falls short.
pub proof fn lemma_repeating_fires_when_due(c: Countdown, delta_ns: u64)
    requires
        c.wf(),
        c.repeat == Repeat::Repeating,
    ensures
        c.elapsed_ns + delta_ns < c.duration_ns ==> !c.ticked(delta_ns).1,
        c.elapsed_ns + delta_ns >= c.duration_ns && delta_ns < 0xffff_ffff * c.duration_ns
            ==> c.ticked(delta_ns).1,
{
    let total: int = c.elapsed_ns + delta_ns;
    let d: int = c.duration_ns as int;
    if total >= d && delta_ns < 0xffff_ffff * d {
        assert(1 <= total / d < 0x1_0000_0000) by (nonlinear_arith)
            requires
                d > 0,
                total >= d,
                total < d + 0xffff_ffff * d,
        {
            assert(total < 0x1_0000_0000 * d);
        }
    } else if total < d {
        assert(total / d == 0) by (nonlinear_arith)
            requires d > 0, 0 <= total < d;
    }
}

/// A duck takes off whenever one may: in play, with fewer than ten sent in
/// the level, fewer on screen than the level allows (as many as its number,
/// at most three), and the spawn timer coming round on this tick. Then the
/// level has sent one more.
pub proof fn lemma_duck_takes_off_when_due(g: Game, duck_count: u32, delta_ns: u64)
    requires
        g.wf(),
        g.state == GameState::Playing,
        g.data.ducks_this_round < 10,
        duck_count < g.data.round + 1,
        duck_count < 3,
        g.spawn_timer.elapsed_ns + delta_ns >= SPAWN_INTERVAL_NS,
        delta_ns < 0xffff_ffff * SPAWN_INTERVAL_NS,
    ensures
        g.after_spawn_check(duck_count, delta_ns).1,
        g.after_spawn_check(duck_count, delta_ns).0.data.ducks_this_round
            == g.data.ducks_this_round + 1,
{
    lemma_repeating_fires_when_due(g.spawn_timer, delta_ns);
}

/// A fresh pause timer: the full pause of one and a half seconds ahead.
pub open spec fn full_pause() -> Countdown {
    Countdown { duration_ns: ROUND_PAUSE_NS, elapsed_ns: 0, repeat: Repeat::Once }
}

/// A fresh dog timer: the full two seconds ahead.
pub open spec fn full_dog() -> Countdown {
    Countdown { duration_ns: DOG_DISPLAY_NS, elapsed_ns: 0, repeat: Repeat::Once }
}

/// Whenever a step newly asks for the pause between levels, the pause
/// timer starts over; whenever it newly asks for the dog, the dog's timer
/// starts over. So every pause and every dog runs its full length.
pub proof fn lemma_called_timers_start_over(g: Game, e: GameEvent)
    requires
        g.wf(),
    ensures
        step(g, e).next_state == Some(GameState::RoundOver) && g.next_state != Some(
            GameState::RoundOver,
        ) ==> step(g, e).pause_timer == full_pause(),
        step(g, e).next_state == Some(GameState::DogReaction) && g.next_state != Some(
            GameState::DogReaction,
        ) ==> step(g, e).dog_timer == full_dog(),
{
}

/// A change of state touches no counter but those a new level or wave
/// resets: score, misses, level and the last duck's fate are kept, and
/// into any state but play the counters and the dog and pause timers are
/// kept whole.
pub proof fn lemma_transition_keeps_counters(g: Game)
    ensures
        ({
            let h = g.after_transition().0;
            &&& h.data.score == g.data.score
            &&& h.data.total_misses == g.data.total_misses
            &&& h.data.round == g.data.round
            &&& h.data.last_duck_was_hit == g.data.last_duck_was_hit
            &&& h.dog_timer == g.dog_timer
            &&& h.pause_timer == g.pause_timer
            &&& h.state != GameState::Playing ==> h.data == g.data
        }),
{
}

/// The dog that comes up after an escape laughs: the escape and the change
/// of screen that follows leave the last duck marked as not hit.
pub proof fn lemma_escape_brings_laughing_dog(g: Game)
    requires
        g.state == GameState::Playing,
        g.data.total_misses < u32::MAX,
    ensures
        ({
            let h = g.after_escape().0.after_transition().0;
            &&& h.state == GameState::DogReaction
            &&& !h.data.last_duck_was_hit
            &&& h.pose() == DogPose::Laughing
        }),
{
}

/// While the pause has time left after this tick, the tick asks for
/// nothing and changes no counter; and fewer than six hits never lead back
/// to play.
pub proof fn lemma_pause_waits(g: Game, delta_ns: u64)
    requires
        g.wf(),
    ensures
        g.pause_timer.elapsed_ns + delta_ns < ROUND_PAUSE_NS ==> {
            &&& g.after_pause_tick(delta_ns).next_state == g.next_state
            &&& g.after_pause_tick(delta_ns).data == g.data
        },
        g.data.ducks_hit < 6 ==> g.after_pause_tick(delta_ns).next_state == g.next_state
            || g.after_pause_tick(delta_ns).next_state == Some(GameState::GameOver),
        g.data.round < u32::MAX ==> (g.after_pause_tick(delta_ns).data.round == g.data.round
            || g.after_pause_tick(delta_ns).data.round == g.data.round + 1),
{
}

/// The game after the pause timer ran for each frame time of `deltas`, in
/// order.
pub open spec fn pause_ticks(g: Game, deltas: Seq<u64>) -> Game
    decreases deltas.len(),
{
    if deltas.len() == 0 {
        g
    } else {
        pause_ticks(g, deltas.drop_last()).after_pause_tick(deltas.last())
    }
}

/// The pause between levels lasts one and a half seconds: from a fresh
/// pause, the next state is asked for as soon as the frames add up to that,
/// and not before; it is the game's end with fewer than six hits and the
/// next level otherwise.
pub proof fn lemma_pause_lasts_its_time(g: Game, deltas: Seq<u64>)
    requires
        g.wf(),
        g.state == GameState::RoundOver,
        g.next_state is None,
        g.pause_timer.elapsed_ns == 0,
        g.data.ducks_hit >= 6 ==> g.data.round < u32::MAX,
    ensures
        pause_ticks(g, deltas).state == GameState::RoundOver,
        (pause_ticks(g, deltas).next_state is None) <==> total_ns(deltas) < ROUND_PAUSE_NS,
        total_ns(deltas) >= ROUND_PAUSE_NS && g.data.ducks_hit < 6 ==> pause_ticks(
            g,
            deltas,
        ).next_state == Some(GameState::GameOver) && pause_ticks(g, deltas).data == g.data,
        total_ns(deltas) >= ROUND_PAUSE_NS && g.data.ducks_hit >= 6 ==> pause_ticks(
            g,
            deltas,
        ).next_state == Some(GameState::Playing) && pause_ticks(g, deltas).data.round
            == g.data.round + 1,
        total_ns(deltas) < ROUND_PAUSE_NS ==> pause_ticks(g, deltas).data == g.data,
        pause_ticks(g, deltas).pause_timer.elapsed_ns == if total_ns(deltas) < ROUND_PAUSE_NS {
            total_ns(deltas)
        } else {
            ROUND_PAUSE_NS as int
        },
        pause_ticks(g, deltas).wf(),
    decreases deltas.len(),
{
    if deltas.len() > 0 {
        let rest = deltas.drop_last();
        lemma_pause_lasts_its_time(g, rest);
        lemma_total_nonnegative(rest);
    }
}

} // verus!
