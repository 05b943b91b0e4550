use duck_hunt::hud::{
    escaped_text, final_score_text, hits_text, level_text, misses_text, score_text,
};
use duck_hunt::rules::{bullet_loaded, GameData};

fn data(score: u32, round: u32, hits: u32, misses: u32) -> GameData {
    let mut d = GameData::new();
    d.score = score;
    d.round = round;
    d.ducks_hit = hits;
    d.total_misses = misses;
    d
}

#[test]
fn score_text_shows_the_score() {
    assert_eq!(score_text(&data(0, 0, 0, 0)), "SCORE: 0");
    assert_eq!(score_text(&data(1250, 3, 0, 0)), "SCORE: 1250");
    assert_eq!(score_text(&data(u32::MAX, 0, 0, 0)), "SCORE: 4294967295");
}

#[test]
fn hits_text_counts_toward_six() {
    assert_eq!(hits_text(&data(0, 0, 3, 0)), "HITS: 3 / 6");
    assert_eq!(hits_text(&data(0, 0, 0, 0)), "HITS: 0 / 6");
}

#[test]
fn level_text_counts_from_one() {
    assert_eq!(level_text(&data(0, 0, 0, 0)), "LEVEL 1");
    assert_eq!(level_text(&data(0, 11, 0, 0)), "LEVEL 12");
}

#[test]
fn misses_text_counts_toward_five() {
    assert_eq!(misses_text(&data(0, 0, 0, 2)), "MISSES: 2/5");
    assert_eq!(misses_text(&data(0, 0, 0, 5)), "MISSES: 5/5");
}

#[test]
fn game_over_texts() {
    assert_eq!(final_score_text(&data(450, 1, 0, 5)), "Score: 450   Round: 2");
    assert_eq!(escaped_text(&data(450, 1, 0, 5)), "Ducks escaped: 5/5");
}

#[test]
fn bullets_show_shots_left() {
    assert!(bullet_loaded(0, 1));
    assert!(!bullet_loaded(1, 1));
    assert!(bullet_loaded(2, 3));
    assert!(!bullet_loaded(0, 0));
}
