use crate::rules::{GameData, DUCKS_TO_CLEAR, MAX_MISSES};
use vstd::prelude::*;
use vstd::string::*;

verus! {

/// The character of the decimal digit `d` (for `d < 10`).
pub open spec fn digit_char(d: nat) -> char {
    (48 + d) as char
}

/// The decimal writing of `n`, most significant digit first, with no
/// leading zero.
pub open spec fn decimal(n: nat) -> Seq<char>
    decreases n,
{
    if n < 10 {
        seq![digit_char(n)]
    } else {
        decimal(n / 10).push(digit_char(n % 10))
    }
}

/// `n` written in decimal, by `ToString::to_string` (through `Display`).
/// Trusted: std documents integers' `Display` as their decimal writing,
/// which is `decimal`.
#[verifier::external_body]
fn decimal_text(n: u64) -> (s: String)
    ensures
        s@ == decimal(n as nat),
{
    n.to_string()
}

/// `prefix` followed by `n` in decimal.
fn labelled(prefix: &str, n: u64) -> (s: String)
    ensures
        s@ == prefix@ + decimal(n as nat),
{
    let mut s = String::from_str(prefix);
    let digits = decimal_text(n);
    s.append(digits.as_str());
    s
}

/// The score, top left of the HUD: `SCORE: X`.
pub fn score_text(data: &GameData) -> (s: String)
    ensures
        s@ == "SCORE: "@ + decimal(data.score as nat),
{
    labelled("SCORE: ", data.score as u64)
}

/// The hits of the level against the six needed, top centre of the HUD:
/// `HITS: X / 6`.
pub fn hits_text(data: &GameData) -> (s: String)
    ensures
        s@ == "HITS: "@ + decimal(data.ducks_hit as nat) + " / "@ + decimal(DUCKS_TO_CLEAR as nat),
{
    let mut s = labelled("HITS: ", data.ducks_hit as u64);
    let tail = labelled(" / ", DUCKS_TO_CLEAR as u64);
    s.append(tail.as_str());
    s
}

/// The level, counted from 1, top right of the HUD: `LEVEL X`.
pub fn level_text(data: &GameData) -> (s: String)
    ensures
        s@ == "LEVEL "@ + decimal((data.round + 1) as nat),
{
    labelled("LEVEL ", data.round as u64 + 1)
}

/// The escaped ducks against the five that end the game, bottom right of
/// the HUD: `MISSES: X/5`.
pub fn misses_text(data: &GameData) -> (s: String)
    ensures
        s@ == "MISSES: "@ + decimal(data.total_misses as nat) + "/"@ + decimal(MAX_MISSES as nat),
{
    let mut s = labelled("MISSES: ", data.total_misses as u64);
    let tail = labelled("/", MAX_MISSES as u64);
    s.append(tail.as_str());
    s
}

/// The summary line of the game-over screen: `Score: X   Round: Y`, the
/// round counted from 1.
pub fn final_score_text(data: &GameData) -> (s: String)
    ensures
        s@ == "Score: "@ + decimal(data.score as nat) + "   Round: "@ + decimal((data.round + 1) as nat),
{
    let mut s = labelled("Score: ", data.score as u64);
    let tail = labelled("   Round: ", data.round as u64 + 1);
    s.append(tail.as_str());
    s
}

/// The escape count of the game-over screen: `Ducks escaped: X/5`.
pub fn escaped_text(data: &GameData) -> (s: String)
    ensures
        s@ == "Ducks escaped: "@ + decimal(data.total_misses as nat) + "/"@ + decimal(MAX_MISSES as nat),
{
    let mut s = labelled("Ducks escaped: ", data.total_misses as u64);
    let tail = labelled("/", MAX_MISSES as u64);
    s.append(tail.as_str());
    s
}

} // verus!
