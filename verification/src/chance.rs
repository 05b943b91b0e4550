use rand::Rng;
use vstd::prelude::*;

verus! {

/// A number drawn at random from `0..n`, with `rand::thread_rng().gen_range`.
/// Trusted: the draw lies in `0..n`; nothing else is said of it. `gen_range`
/// panics on an empty range, hence `n > 0`.
#[verifier::external_body]
pub(crate) fn roll_below(n: u32) -> (r: u32)
    requires
        n > 0,
    ensures
        r < n,
{
    rand::thread_rng().gen_range(0..n)
}

/// The edge of the screen a duck comes in from.
#[derive(Clone, Copy, Debug, PartialEq, Eq, Structural)]
pub enum Side {
    Left,
    Right,
    Bottom,
}

/// The plumage of a duck.
#[derive(Clone, Copy, Debug, PartialEq, Eq, Structural)]
pub enum Species {
    Mallard,
    Teal,
    Brown,
}

/// What the game decided about a duck that takes off: where it comes from,
/// what it looks like and how fast it flies (pixels per second). Its exact
/// position and heading are drawn by the renderer.
#[derive(Clone, Copy, Debug, PartialEq, Eq, Structural)]
pub struct DuckSpawn {
    pub side: Side,
    pub species: Species,
    pub speed: u64,
}

/// The side a roll of `0..3` stands for.
pub open spec fn side_of(roll: u32) -> Side {
    if roll == 0 { Side::Left } else if roll == 1 { Side::Right } else { Side::Bottom }
}

/// The species a roll of `0..3` stands for.
pub open spec fn species_of(roll: u32) -> Species {
    if roll == 0 { Species::Mallard } else if roll == 1 { Species::Teal } else { Species::Brown }
}

/// The duck that two rolls give in level `round + 1`.
pub fn duck_from_rolls(round: u32, side_roll: u32, species_roll: u32) -> (d: DuckSpawn)
    ensures
        d.side == side_of(side_roll),
        d.species == species_of(species_roll),
        d.speed == crate::rules::speed_for(round),
{
    let side = if side_roll == 0 {
        Side::Left
    } else if side_roll == 1 {
        Side::Right
    } else {
        Side::Bottom
    };
    let species = if species_roll == 0 {
        Species::Mallard
    } else if species_roll == 1 {
        Species::Teal
    } else {
        Species::Brown
    };
    DuckSpawn { side, species, speed: crate::rules::duck_speed(round) }
}

/// A duck for level `round + 1`, its side and species drawn at random.
pub fn random_duck(round: u32) -> (d: DuckSpawn)
    ensures
        d.speed == crate::rules::speed_for(round),
{
    let side_roll = roll_below(3);
    let species_roll = roll_below(3);
    duck_from_rolls(round, side_roll, species_roll)
}

} // verus!
