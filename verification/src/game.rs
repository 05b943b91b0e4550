use crate::chance::{random_duck, DuckSpawn};
use crate::rules::{
    fresh_data, max_ducks_for, max_simultaneous, points_for, points_for_round, GameData,
    GameState, DOG_DISPLAY_NS, DUCKS_PER_ROUND, DUCKS_TO_CLEAR, MAX_MISSES, ROUND_PAUSE_NS,
    SHOTS_PER_WAVE, SPAWN_INTERVAL_NS,
};
use crate::timer::{Countdown, Repeat};
use vstd::prelude::*;

verus! {

/// What a click of the trigger did.
#[derive(Clone, Copy, Debug, PartialEq, Eq, Structural)]
pub enum ShotOutcome {
    /// No shot left the gun: not playing, no click, or no shot left.
    NoShot,
    /// A shot was fired and hit nothing.
    Miss,
    /// A shot was fired and brought the duck under the crosshair down.
    Hit,
}

/// How the dog shows itself after a duck.
#[derive(Clone, Copy, Debug, PartialEq, Eq, Structural)]
pub enum DogPose {
    /// Holds the duck up: the last duck was hit.
    Proud,
    /// Laughs: the last duck escaped.
    Laughing,
}

/// A state change that took effect: from which state to which.
#[derive(Clone, Copy, Debug, PartialEq, Eq, Structural)]
pub struct Transition {
    pub from: GameState,
    pub to: GameState,
}

/// The whole game: the state shown, the state asked for (which takes
/// effect at the start of the next frame), the counters and the timers.
#[derive(Clone, Copy, Debug)]
pub struct Game {
    pub state: GameState,
    pub next_state: Option<GameState>,
    pub data: GameData,
    pub spawn_timer: Countdown,
    pub dog_timer: Countdown,
    pub pause_timer: Countdown,
}

impl Game {
    /// A game in good order: each timer as the rules made it, a gun that
    /// never holds more than a wave's shots, and a level that never sends
    /// more than its ducks.
    pub open spec fn wf(self) -> bool {
        &&& self.spawn_timer.wf()
        &&& self.spawn_timer.duration_ns == SPAWN_INTERVAL_NS
        &&& self.spawn_timer.repeat == Repeat::Repeating
        &&& self.dog_timer.wf()
        &&& self.dog_timer.duration_ns == DOG_DISPLAY_NS
        &&& self.dog_timer.repeat == Repeat::Once
        &&& self.pause_timer.wf()
        &&& self.pause_timer.duration_ns == ROUND_PAUSE_NS
        &&& self.pause_timer.repeat == Repeat::Once
        &&& self.data.shots_left <= SHOTS_PER_WAVE
        &&& self.data.ducks_this_round <= DUCKS_PER_ROUND
    }

    /// The game when the program starts: the title screen, nothing asked
    /// for, all counters zero.
    pub open spec fn initial() -> Game {
        Game {
            state: GameState::Title,
            next_state: None,
            data: fresh_data(),
            spawn_timer: Countdown::fresh(SPAWN_INTERVAL_NS, Repeat::Repeating),
            dog_timer: Countdown::fresh(DOG_DISPLAY_NS, Repeat::Once),
            pause_timer: Countdown::fresh(ROUND_PAUSE_NS, Repeat::Once),
        }
    }

    /// The game with `s` asked for as the next state.
    pub open spec fn asking(self, s: GameState) -> Game {
        Game { next_state: Some(s), ..self }
    }

    /// A click on the title screen starts a new game.
    pub open spec fn after_title_click(self, clicked: bool) -> Game {
        if self.state == GameState::Title && clicked {
            Game { data: fresh_data(), ..self }.asking(GameState::Playing)
        } else {
            self
        }
    }

    /// A click on the game-over screen starts a new game.
    pub open spec fn after_game_over_click(self, clicked: bool) -> Game {
        if self.state == GameState::GameOver && clicked {
            Game { data: fresh_data(), ..self }.asking(GameState::Playing)
        } else {
            self
        }
    }

    /// The game when a new level begins: no duck sent or hit yet, a full
    /// gun, the spawn timer starting over.
    pub open spec fn level_started(self) -> Game {
        Game {
            data: GameData { ducks_this_round: 0, ducks_hit: 0, shots_left: SHOTS_PER_WAVE, ..self.data },
            spawn_timer: Countdown::fresh(SPAWN_INTERVAL_NS, Repeat::Repeating),
            ..self
        }
    }

    /// The game when play goes on in the same level after the dog: the
    /// level's counts kept, a full gun, the spawn timer starting over.
    pub open spec fn wave_resumed(self) -> Game {
        Game {
            data: GameData { shots_left: SHOTS_PER_WAVE, ..self.data },
            spawn_timer: Countdown::fresh(SPAWN_INTERVAL_NS, Repeat::Repeating),
            ..self
        }
    }

    /// The state asked for takes effect. Asking for the current state
    /// changes nothing but the request. Entering play from the dog goes on
    /// with the level; entering it from anywhere else starts a level.
    pub open spec fn after_transition(self) -> (Game, Option<Transition>) {
        match self.next_state {
            None => (self, None),
            Some(to) => {
                let cleared = Game { next_state: None, ..self };
                if to == self.state {
                    (cleared, None)
                } else {
                    let moved = Game { state: to, ..cleared };
                    let entered = if to != GameState::Playing {
                        moved
                    } else if self.state == GameState::DogReaction {
                        moved.wave_resumed()
                    } else {
                        moved.level_started()
                    };
                    (entered, Some(Transition { from: self.state, to }))
                }
            },
        }
    }

    /// Whether a duck takes off this frame, with `duck_count` ducks on
    /// screen and `delta_ns` since the last frame: only in play, only while
    /// the level has ducks left to send and there is room on screen, and
    /// only when the spawn timer comes round. A duck that takes off onto an
    /// empty screen starts a new wave, with a full gun.
    pub open spec fn after_spawn_check(self, duck_count: u32, delta_ns: u64) -> (Game, bool) {
        if self.state != GameState::Playing
            || self.data.ducks_this_round >= DUCKS_PER_ROUND
            || duck_count >= max_ducks_for(self.data.round)
        {
            (self, false)
        } else {
            let (t, fired) = self.spawn_timer.ticked(delta_ns);
            if !fired {
                (Game { spawn_timer: t, ..self }, false)
            } else {
                let shots = if duck_count == 0 { SHOTS_PER_WAVE } else { self.data.shots_left };
                (
                    Game {
                        spawn_timer: t,
                        data: GameData {
                            ducks_this_round: (self.data.ducks_this_round + 1) as u32,
                            shots_left: shots,
                            ..self.data
                        },
                        ..self
                    },
                    true,
                )
            }
        }
    }

    /// The game when the dog is called up: its timer starting over and the
    /// dog's state asked for.
    pub open spec fn dog_called(self) -> Game {
        Game { dog_timer: Countdown::fresh(DOG_DISPLAY_NS, Repeat::Once), ..self }.asking(
            GameState::DogReaction,
        )
    }

    /// The game when the pause between levels is called: its timer
    /// starting over and the pause asked for.
    pub open spec fn pause_called(self) -> Game {
        Game { pause_timer: Countdown::fresh(ROUND_PAUSE_NS, Repeat::Once), ..self }.asking(
            GameState::RoundOver,
        )
    }

    /// A duck flew off screen: in play it counts as a miss, and the dog
    /// comes up to laugh. The result says whether the duck is to be removed.
    pub open spec fn after_escape(self) -> (Game, bool) {
        if self.state == GameState::Playing {
            (
                Game {
                    data: GameData {
                        total_misses: (self.data.total_misses + 1) as u32,
                        last_duck_was_hit: false,
                        ..self.data
                    },
                    ..self
                }.dog_called(),
                true,
            )
        } else {
            (self, false)
        }
    }

    /// Whether a click fires: only in play, and only with a shot left.
    pub open spec fn fires(self, clicked: bool) -> bool {
        self.state == GameState::Playing && clicked && self.data.shots_left > 0
    }

    /// A click of the trigger, `in_sight` telling whether a duck was under
    /// the crosshair. A shot uses one round; a hit counts the duck, scores
    /// the level's points and calls the proud dog.
    pub open spec fn after_shot(self, clicked: bool, in_sight: bool) -> (Game, ShotOutcome) {
        if !self.fires(clicked) {
            (self, ShotOutcome::NoShot)
        } else {
            let spent = GameData { shots_left: (self.data.shots_left - 1) as u32, ..self.data };
            if !in_sight {
                (Game { data: spent, ..self }, ShotOutcome::Miss)
            } else {
                (
                    Game {
                        data: GameData {
                            ducks_hit: (self.data.ducks_hit + 1) as u32,
                            score: (self.data.score + points_for(self.data.round)) as u32,
                            last_duck_was_hit: true,
                            ..spent
                        },
                        ..self
                    }.dog_called(),
                    ShotOutcome::Hit,
                )
            }
        }
    }

    /// In play, once all of the level's ducks were sent and none is left
    /// on screen, the pause between levels is called.
    pub open spec fn after_round_end_check(self, duck_count: u32) -> Game {
        if self.state == GameState::Playing && self.data.ducks_this_round >= DUCKS_PER_ROUND
            && duck_count == 0
        {
            self.pause_called()
        } else {
            self
        }
    }

    /// The dog's time runs; when it is up, the game ends on the fifth miss,
    /// the level ends once all its ducks were sent, and play goes on
    /// otherwise.
    pub open spec fn after_dog_tick(self, delta_ns: u64) -> Game {
        if self.state != GameState::DogReaction {
            self
        } else {
            let (t, fired) = self.dog_timer.ticked(delta_ns);
            let g = Game { dog_timer: t, ..self };
            if !fired {
                g
            } else if self.data.total_misses >= MAX_MISSES {
                g.asking(GameState::GameOver)
            } else if self.data.ducks_this_round >= DUCKS_PER_ROUND {
                g.pause_called()
            } else {
                g.asking(GameState::Playing)
            }
        }
    }

    /// The pause between levels runs; when it is up, fewer than six hits
    /// end the game, and otherwise the next level begins.
    pub open spec fn after_pause_tick(self, delta_ns: u64) -> Game {
        if self.state != GameState::RoundOver {
            self
        } else {
            let (t, fired) = self.pause_timer.ticked(delta_ns);
            let g = Game { pause_timer: t, ..self };
            if !fired {
                g
            } else if self.data.ducks_hit < DUCKS_TO_CLEAR {
                g.asking(GameState::GameOver)
            } else {
                Game {
                    data: GameData { round: (self.data.round + 1) as u32, ..self.data },
                    ..g
                }.asking(GameState::Playing)
            }
        }
    }

    /// Whether the pause tick of `delta_ns` would start the next level.
    pub open spec fn levels_up(self, delta_ns: u64) -> bool {
        self.state == GameState::RoundOver && self.pause_timer.ticked(delta_ns).1
            && self.data.ducks_hit >= DUCKS_TO_CLEAR
    }

    /// The dog's pose after the last duck.
    pub open spec fn pose(self) -> DogPose {
        if self.data.last_duck_was_hit { DogPose::Proud } else { DogPose::Laughing }
    }

    pub fn new() -> (g: Game)
        ensures
            g == Game::initial(),
            g.wf(),
    {
        Game {
            state: GameState::Title,
            next_state: None,
            data: GameData::new(),
            spawn_timer: Countdown::new(SPAWN_INTERVAL_NS, Repeat::Repeating),
            dog_timer: Countdown::new(DOG_DISPLAY_NS, Repeat::Once),
            pause_timer: Countdown::new(ROUND_PAUSE_NS, Repeat::Once),
        }
    }

    fn ask(&mut self, s: GameState)
        ensures
            *final(self) == old(self).asking(s),
    {
        self.next_state = Some(s);
    }

    /// On the title screen, a click starts a new game.
    pub fn title_input(&mut self, clicked: bool)
        requires
            old(self).wf(),
        ensures
            *final(self) == old(self).after_title_click(clicked),
            final(self).wf(),
    {
        if self.state == GameState::Title && clicked {
            self.data = GameData::new();
            self.ask(GameState::Playing);
        }
    }

    /// On the game-over screen, a click starts a new game.
    pub fn game_over_input(&mut self, clicked: bool)
        requires
            old(self).wf(),
        ensures
            *final(self) == old(self).after_game_over_click(clicked),
            final(self).wf(),
    {
        if self.state == GameState::GameOver && clicked {
            self.data = GameData::new();
            self.ask(GameState::Playing);
        }
    }

    /// Starts a level: nothing sent or hit yet, a full gun, the spawn timer
    /// starting over.
    pub fn init_round(&mut self)
        requires
            old(self).wf(),
        ensures
            *final(self) == old(self).level_started(),
            final(self).wf(),
    {
        self.data.ducks_this_round = 0;
        self.data.ducks_hit = 0;
        self.data.shots_left = SHOTS_PER_WAVE;
        self.spawn_timer = Countdown::new(SPAWN_INTERVAL_NS, Repeat::Repeating);
    }

    /// Goes on with the level after the dog: a full gun, the spawn timer
    /// starting over.
    pub fn resume_wave(&mut self)
        requires
            old(self).wf(),
        ensures
            *final(self) == old(self).wave_resumed(),
            final(self).wf(),
    {
        self.data.shots_left = SHOTS_PER_WAVE;
        self.spawn_timer = Countdown::new(SPAWN_INTERVAL_NS, Repeat::Repeating);
    }

    /// Makes the state asked for take effect, as at the start of a frame,
    /// and returns the change when there is one, so that the caller can
    /// leave the old screen and set up the new one.
    pub fn apply_transition(&mut self) -> (t: Option<Transition>)
        requires
            old(self).wf(),
        ensures
            (*final(self), t) == old(self).after_transition(),
            final(self).wf(),
    {
        match self.next_state {
            None => None,
            Some(to) => {
                self.next_state = None;
                if to == self.state {
                    None
                } else {
                    let from = self.state;
                    self.state = to;
                    if to == GameState::Playing {
                        if from == GameState::DogReaction {
                            self.resume_wave();
                        } else {
                            self.init_round();
                        }
                    }
                    Some(Transition { from, to })
                }
            },
        }
    }

    /// Decides whether a duck takes off this frame; see `after_spawn_check`.
    pub fn ready_to_spawn(&mut self, duck_count: u32, delta_ns: u64) -> (ready: bool)
        requires
            old(self).wf(),
            old(self).state == GameState::Playing && old(self).data.ducks_this_round
                < DUCKS_PER_ROUND ==> old(self).data.round < u32::MAX,
        ensures
            (*final(self), ready) == old(self).after_spawn_check(duck_count, delta_ns),
            final(self).wf(),
    {
        if self.state != GameState::Playing {
            return false;
        }
        if self.data.ducks_this_round >= DUCKS_PER_ROUND {
            return false;
        }
        let max = max_simultaneous(self.data.round);
        if duck_count >= max {
            return false;
        }
        if !self.spawn_timer.tick(delta_ns) {
            return false;
        }
        self.data.ducks_this_round = self.data.ducks_this_round + 1;
        if duck_count == 0 {
            self.data.shots_left = SHOTS_PER_WAVE;
        }
        true
    }

    /// Sends a duck when one is due this frame: where it comes from and
    /// what it looks like are drawn at random, its speed is the level's.
    pub fn spawn_duck(&mut self, duck_count: u32, delta_ns: u64) -> (d: Option<DuckSpawn>)
        requires
            old(self).wf(),
            old(self).state == GameState::Playing && old(self).data.ducks_this_round
                < DUCKS_PER_ROUND ==> old(self).data.round < u32::MAX,
        ensures
            *final(self) == old(self).after_spawn_check(duck_count, delta_ns).0,
            d.is_some() == old(self).after_spawn_check(duck_count, delta_ns).1,
            d.is_some() ==> d.unwrap().speed == crate::rules::speed_for(old(self).data.round),
            final(self).wf(),
    {
        if self.ready_to_spawn(duck_count, delta_ns) {
            Some(random_duck(self.data.round))
        } else {
            None
        }
    }

    fn call_dog(&mut self)
        ensures
            *final(self) == old(self).dog_called(),
    {
        self.dog_timer = Countdown::new(DOG_DISPLAY_NS, Repeat::Once);
        self.ask(GameState::DogReaction);
    }

    fn call_pause(&mut self)
        ensures
            *final(self) == old(self).pause_called(),
    {
        self.pause_timer = Countdown::new(ROUND_PAUSE_NS, Repeat::Once);
        self.ask(GameState::RoundOver);
    }

    /// A duck left the screen; see `after_escape`.
    pub fn duck_escaped(&mut self) -> (despawn: bool)
        requires
            old(self).wf(),
            old(self).state == GameState::Playing ==> old(self).data.total_misses < u32::MAX,
        ensures
            (*final(self), despawn) == old(self).after_escape(),
            final(self).wf(),
    {
        if self.state == GameState::Playing {
            self.data.total_misses = self.data.total_misses + 1;
            self.data.last_duck_was_hit = false;
            self.call_dog();
            true
        } else {
            false
        }
    }

    /// A click of the trigger; see `after_shot`.
    pub fn shoot(&mut self, clicked: bool, in_sight: bool) -> (outcome: ShotOutcome)
        requires
            old(self).wf(),
            old(self).fires(clicked) && in_sight ==> old(self).data.ducks_hit < u32::MAX
                && old(self).data.score + points_for(old(self).data.round) <= u32::MAX,
        ensures
            (*final(self), outcome) == old(self).after_shot(clicked, in_sight),
            final(self).wf(),
    {
        if self.state != GameState::Playing || !clicked || self.data.shots_left == 0 {
            return ShotOutcome::NoShot;
        }
        self.data.shots_left = self.data.shots_left - 1;
        if !in_sight {
            return ShotOutcome::Miss;
        }
        self.data.ducks_hit = self.data.ducks_hit + 1;
        let points = points_for_round(self.data.round);
        self.data.score = self.data.score + points;
        self.data.last_duck_was_hit = true;
        self.call_dog();
        ShotOutcome::Hit
    }

    /// Ends the level once all its ducks were sent and the sky is clear;
    /// see `after_round_end_check`.
    pub fn check_round_end(&mut self, duck_count: u32)
        requires
            old(self).wf(),
        ensures
            *final(self) == old(self).after_round_end_check(duck_count),
            final(self).wf(),
    {
        if self.state == GameState::Playing && self.data.ducks_this_round >= DUCKS_PER_ROUND
            && duck_count == 0
        {
            self.call_pause();
        }
    }

    /// Runs the dog's timer; see `after_dog_tick`.
    pub fn dog_timer_tick(&mut self, delta_ns: u64)
        requires
            old(self).wf(),
        ensures
            *final(self) == old(self).after_dog_tick(delta_ns),
            final(self).wf(),
    {
        if self.state != GameState::DogReaction {
            return;
        }
        if self.dog_timer.tick(delta_ns) {
            if self.data.total_misses >= MAX_MISSES {
                self.ask(GameState::GameOver);
            } else if self.data.ducks_this_round >= DUCKS_PER_ROUND {
                self.call_pause();
            } else {
                self.ask(GameState::Playing);
            }
        }
    }

    /// Runs the pause between levels; see `after_pause_tick`.
    pub fn round_pause_tick(&mut self, delta_ns: u64)
        requires
            old(self).wf(),
            old(self).levels_up(delta_ns) ==> old(self).data.round < u32::MAX,
        ensures
            *final(self) == old(self).after_pause_tick(delta_ns),
            final(self).wf(),
    {
        if self.state != GameState::RoundOver {
            return;
        }
        if self.pause_timer.tick(delta_ns) {
            if self.data.ducks_hit < DUCKS_TO_CLEAR {
                self.ask(GameState::GameOver);
            } else {
                self.data.round = self.data.round + 1;
                self.ask(GameState::Playing);
            }
        }
    }

    /// How the dog shows itself after the last duck.
    pub fn dog_pose(&self) -> (p: DogPose)
        ensures
            p == self.pose(),
    {
        if self.data.last_duck_was_hit {
            DogPose::Proud
        } else {
            DogPose::Laughing
        }
    }
}

} // verus!
