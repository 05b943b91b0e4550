use duck_hunt::chance::{duck_from_rolls, random_duck, Side, Species};
use duck_hunt::game::{DogPose, Game, ShotOutcome, Transition};
use duck_hunt::rules::{duck_speed, max_simultaneous, points_for_round, GameState};

const SECOND: u64 = 1_000_000_000;

fn started() -> Game {
    let mut g = Game::new();
    g.title_input(true);
    assert_eq!(
        g.apply_transition(),
        Some(Transition { from: GameState::Title, to: GameState::Playing })
    );
    g
}

/// Lets the dog's time run out and the next state take effect.
fn after_dog(g: &mut Game) -> Option<Transition> {
    assert_eq!(g.apply_transition(), Some(Transition { from: GameState::Playing, to: GameState::DogReaction }));
    g.dog_timer_tick(2 * SECOND);
    g.apply_transition()
}

#[test]
fn a_new_game_waits_on_the_title_screen() {
    let g = Game::new();
    assert_eq!(g.state, GameState::Title);
    assert_eq!(g.next_state, None);
    assert_eq!(g.data.score, 0);
    assert_eq!(g.data.round, 0);
    assert_eq!(g.data.shots_left, 0);
}

#[test]
fn a_click_on_the_title_starts_play_with_three_shots() {
    let mut g = Game::new();
    g.title_input(false);
    assert_eq!(g.next_state, None);
    g.title_input(true);
    assert_eq!(g.next_state, Some(GameState::Playing));
    assert_eq!(g.state, GameState::Title);
    g.apply_transition();
    assert_eq!(g.state, GameState::Playing);
    assert_eq!(g.data.shots_left, 3);
    assert_eq!(g.data.ducks_this_round, 0);
}

#[test]
fn asking_for_the_current_state_changes_nothing() {
    let mut g = started();
    g.next_state = Some(GameState::Playing);
    assert_eq!(g.apply_transition(), None);
    assert_eq!(g.next_state, None);
    assert_eq!(g.state, GameState::Playing);
}

#[test]
fn ducks_take_off_once_a_second() {
    let mut g = started();
    assert!(g.spawn_duck(0, SECOND / 2).is_none());
    let d = g.spawn_duck(0, SECOND / 2).unwrap();
    assert_eq!(d.speed, 250);
    assert_eq!(g.data.ducks_this_round, 1);
}

#[test]
fn the_first_level_has_one_duck_at_a_time() {
    let mut g = started();
    assert!(g.spawn_duck(1, 5 * SECOND).is_none());
    assert_eq!(g.spawn_timer.elapsed_ns, 0);
    assert_eq!(g.data.ducks_this_round, 0);
}

#[test]
fn the_second_level_has_two_ducks_at_a_time() {
    let mut g = started();
    g.data.round = 1;
    assert!(g.spawn_duck(1, SECOND).is_some());
    assert!(g.spawn_duck(2, SECOND).is_none());
}

#[test]
fn no_duck_after_the_tenth() {
    let mut g = started();
    g.data.ducks_this_round = 10;
    assert!(g.spawn_duck(0, SECOND).is_none());
}

#[test]
fn the_gun_reloads_when_the_screen_is_clear() {
    let mut g = started();
    g.data.round = 2;
    g.data.shots_left = 1;
    assert!(g.spawn_duck(1, SECOND).is_some());
    assert_eq!(g.data.shots_left, 1);
    assert!(g.spawn_duck(0, SECOND).is_some());
    assert_eq!(g.data.shots_left, 3);
}

#[test]
fn three_shots_per_wave() {
    let mut g = started();
    assert_eq!(g.shoot(true, false), ShotOutcome::Miss);
    assert_eq!(g.shoot(false, true), ShotOutcome::NoShot);
    assert_eq!(g.shoot(true, false), ShotOutcome::Miss);
    assert_eq!(g.shoot(true, false), ShotOutcome::Miss);
    assert_eq!(g.data.shots_left, 0);
    assert_eq!(g.shoot(true, true), ShotOutcome::NoShot);
    assert_eq!(g.data.score, 0);
    assert_eq!(g.next_state, None);
}

#[test]
fn a_hit_scores_the_level_points_and_the_dog_is_proud() {
    let mut g = started();
    assert_eq!(g.shoot(true, true), ShotOutcome::Hit);
    assert_eq!(g.data.score, 100);
    assert_eq!(g.data.ducks_hit, 1);
    assert_eq!(g.data.shots_left, 2);
    assert_eq!(g.next_state, Some(GameState::DogReaction));
    assert_eq!(g.dog_pose(), DogPose::Proud);
}

#[test]
fn points_grow_by_fifty_per_level() {
    assert_eq!(points_for_round(0), 100);
    assert_eq!(points_for_round(1), 150);
    assert_eq!(points_for_round(2), 200);
    assert_eq!(points_for_round(5), 350);
    let mut g = started();
    g.data.round = 2;
    g.shoot(true, true);
    assert_eq!(g.data.score, 200);
}

#[test]
fn difficulty_grows_with_the_level() {
    assert_eq!(max_simultaneous(0), 1);
    assert_eq!(max_simultaneous(1), 2);
    assert_eq!(max_simultaneous(2), 3);
    assert_eq!(max_simultaneous(7), 3);
    assert_eq!(duck_speed(0), 250);
    assert_eq!(duck_speed(1), 290);
    assert_eq!(duck_speed(2), 330);
    assert_eq!(duck_speed(10), 650);
}

#[test]
fn rolls_pick_side_and_species() {
    let d = duck_from_rolls(0, 0, 0);
    assert_eq!((d.side, d.species, d.speed), (Side::Left, Species::Mallard, 250));
    let d = duck_from_rolls(1, 1, 1);
    assert_eq!((d.side, d.species, d.speed), (Side::Right, Species::Teal, 290));
    let d = duck_from_rolls(2, 2, 2);
    assert_eq!((d.side, d.species, d.speed), (Side::Bottom, Species::Brown, 330));
}

#[test]
fn a_random_duck_flies_at_the_level_speed() {
    for _ in 0..50 {
        assert_eq!(random_duck(3).speed, 370);
    }
}

#[test]
fn an_escape_is_a_miss_and_the_dog_laughs() {
    let mut g = started();
    g.shoot(true, true);
    after_dog(&mut g);
    assert!(g.duck_escaped());
    assert_eq!(g.data.total_misses, 1);
    assert_eq!(g.dog_pose(), DogPose::Laughing);
    assert_eq!(g.next_state, Some(GameState::DogReaction));
}

#[test]
fn escapes_out_of_play_are_ignored() {
    let mut g = Game::new();
    assert!(!g.duck_escaped());
    assert_eq!(g.data.total_misses, 0);
}

#[test]
fn the_dog_shows_for_two_seconds_then_play_goes_on() {
    let mut g = started();
    g.spawn_duck(0, SECOND).unwrap();
    g.shoot(true, true);
    g.apply_transition();
    assert_eq!(g.state, GameState::DogReaction);
    g.dog_timer_tick(SECOND);
    assert_eq!(g.next_state, None);
    g.dog_timer_tick(SECOND);
    assert_eq!(g.next_state, Some(GameState::Playing));
    assert_eq!(
        g.apply_transition(),
        Some(Transition { from: GameState::DogReaction, to: GameState::Playing })
    );
    assert_eq!(g.data.ducks_this_round, 1);
    assert_eq!(g.data.ducks_hit, 1);
    assert_eq!(g.data.shots_left, 3);
}

#[test]
fn the_fifth_escape_ends_the_game() {
    let mut g = started();
    for n in 1..=4u32 {
        g.spawn_duck(0, SECOND).unwrap();
        g.duck_escaped();
        assert_eq!(
            after_dog(&mut g),
            Some(Transition { from: GameState::DogReaction, to: GameState::Playing })
        );
        assert_eq!(g.data.total_misses, n);
    }
    g.spawn_duck(0, SECOND).unwrap();
    g.duck_escaped();
    assert_eq!(
        after_dog(&mut g),
        Some(Transition { from: GameState::DogReaction, to: GameState::GameOver })
    );
}

#[test]
fn six_hits_of_ten_clear_the_level() {
    let mut g = started();
    g.data.score = 0;
    for n in 0..10u32 {
        g.spawn_duck(0, SECOND).unwrap();
        if n < 6 {
            assert_eq!(g.shoot(true, true), ShotOutcome::Hit);
        } else {
            assert!(g.duck_escaped());
        }
        let t = after_dog(&mut g);
        if n < 9 {
            assert_eq!(t, Some(Transition { from: GameState::DogReaction, to: GameState::Playing }));
        } else {
            assert_eq!(t, Some(Transition { from: GameState::DogReaction, to: GameState::RoundOver }));
        }
    }
    assert_eq!(g.data.ducks_this_round, 10);
    assert_eq!(g.data.ducks_hit, 6);
    assert_eq!(g.data.total_misses, 4);
    g.round_pause_tick(SECOND);
    assert_eq!(g.next_state, None);
    g.round_pause_tick(SECOND / 2);
    assert_eq!(g.next_state, Some(GameState::Playing));
    assert_eq!(g.data.round, 1);
    g.apply_transition();
    assert_eq!(g.data.ducks_this_round, 0);
    assert_eq!(g.data.ducks_hit, 0);
    assert_eq!(g.data.total_misses, 4);
    assert_eq!(g.data.score, 600);
    g.spawn_duck(0, SECOND).unwrap();
    g.shoot(true, true);
    assert_eq!(g.data.score, 750);
}

#[test]
fn fewer_than_six_hits_end_the_game() {
    let mut g = started();
    g.data.ducks_this_round = 10;
    g.data.ducks_hit = 5;
    g.check_round_end(1);
    assert_eq!(g.next_state, None);
    g.check_round_end(0);
    assert_eq!(g.next_state, Some(GameState::RoundOver));
    g.apply_transition();
    g.round_pause_tick(2 * SECOND);
    assert_eq!(g.next_state, Some(GameState::GameOver));
    assert_eq!(g.data.round, 0);
}

#[test]
fn a_click_after_game_over_starts_afresh() {
    let mut g = started();
    g.data.score = 900;
    g.data.round = 3;
    g.data.total_misses = 5;
    g.state = GameState::GameOver;
    g.game_over_input(false);
    assert_eq!(g.data.score, 900);
    g.game_over_input(true);
    assert_eq!(g.data.score, 0);
    assert_eq!(g.data.round, 0);
    assert_eq!(g.data.total_misses, 0);
    assert_eq!(
        g.apply_transition(),
        Some(Transition { from: GameState::GameOver, to: GameState::Playing })
    );
    assert_eq!(g.data.shots_left, 3);
}

#[test]
fn nothing_happens_out_of_its_state() {
    let mut g = Game::new();
    assert_eq!(g.shoot(true, true), ShotOutcome::NoShot);
    assert!(g.spawn_duck(0, SECOND).is_none());
    g.dog_timer_tick(5 * SECOND);
    g.round_pause_tick(5 * SECOND);
    g.check_round_end(0);
    g.game_over_input(true);
    assert_eq!(g.next_state, None);
    assert_eq!(g.dog_timer.elapsed_ns, 0);
}

#[test]
fn the_dog_asks_on_the_first_frame_reaching_two_seconds() {
    let mut g = started();
    g.spawn_duck(0, SECOND).unwrap();
    g.duck_escaped();
    g.apply_transition();
    for d in [SECOND * 7 / 10, SECOND * 7 / 10, SECOND / 2] {
        g.dog_timer_tick(d);
        assert_eq!(g.next_state, None);
    }
    g.dog_timer_tick(SECOND / 10);
    assert_eq!(g.next_state, Some(GameState::Playing));
    assert_eq!(g.dog_timer.elapsed_ns, 2 * SECOND);
    assert_eq!(g.state, GameState::DogReaction);
}
