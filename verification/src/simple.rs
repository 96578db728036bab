//! The fixed-rate pull: one character-banner rate table, the pity count
//! handed in by the caller.
use vstd::prelude::*;
use rand::rngs::ThreadRng;
use crate::enums::Rarity;
use crate::roll::{draw_roll, roll_hits, roll_hits_rate, lemma_roll_hits_monotonic};

verus! {

/// Base five-star rate: 0.7%, in billionths.
pub const FIVE_STAR_BASE_RATE: u64 = 7_000_000;

/// The pity count at which a five-star is certain.
pub const FIVE_STAR_HARD_PITY: u8 = 90;

/// What each pull from soft pity on adds to the five-star rate: 6%.
pub const FIVE_STAR_SOFT_PITY_INCREASE: u64 = 60_000_000;

/// The first pity count at which the five-star rate rises.
pub const FIVE_STAR_SOFT_PITY_START: u8 = 74;

/// Base four-star rate: 5%, in billionths.
pub const FOUR_STAR_BASE_RATE: u64 = 50_000_000;

/// The five-star rate at a given pity count, in billionths.
pub open spec fn five_star_rate_at(pull_count: u8) -> int {
    if pull_count >= FIVE_STAR_SOFT_PITY_START {
        FIVE_STAR_BASE_RATE + FIVE_STAR_SOFT_PITY_INCREASE * (pull_count - (
        FIVE_STAR_SOFT_PITY_START - 1))
    } else {
        FIVE_STAR_BASE_RATE as int
    }
}

/// The rarity that a pull at `pull_count` with the draw `roll` gives.
/// The four-star threshold is twice the four-star base rate, whatever the pity.
pub open spec fn simulated_rarity(pull_count: u8, roll: u64) -> Rarity {
    if pull_count == FIVE_STAR_HARD_PITY {
        Rarity::FiveStar
    } else if roll_hits(roll, five_star_rate_at(pull_count)) {
        Rarity::FiveStar
    } else if roll_hits(roll, FOUR_STAR_BASE_RATE + FOUR_STAR_BASE_RATE) {
        Rarity::FourStar
    } else {
        Rarity::ThreeStar
    }
}

/// The order of the tiers: three-star, four-star, five-star.
pub open spec fn rarity_rank(r: Rarity) -> int {
    match r {
        Rarity::ThreeStar => 0,
        Rarity::FourStar => 1,
        Rarity::FiveStar => 2,
    }
}

/// The rarity of a pull at `pull_count` whose generator drew `roll`.
pub fn simulate_pull_with_roll(roll: u64, pull_count: u8) -> (rarity: Rarity)
    ensures
        rarity == simulated_rarity(pull_count, roll),
{
    if pull_count == FIVE_STAR_HARD_PITY {
        return Rarity::FiveStar;
    }
    let five_star_rate: u128 = if pull_count >= FIVE_STAR_SOFT_PITY_START {
        let increase: u128 = (FIVE_STAR_SOFT_PITY_INCREASE as u128) * ((pull_count - (
        FIVE_STAR_SOFT_PITY_START - 1)) as u128);
        (FIVE_STAR_BASE_RATE as u128) + increase
    } else {
        FIVE_STAR_BASE_RATE as u128
    };
    if roll_hits_rate(roll, five_star_rate) {
        Rarity::FiveStar
    } else if roll_hits_rate(roll, (FOUR_STAR_BASE_RATE + FOUR_STAR_BASE_RATE) as u128) {
        Rarity::FourStar
    } else {
        Rarity::ThreeStar
    }
}

/// One pull at pity count `pull_count`: at hard pity a five-star without a
/// draw, otherwise one draw decides the rarity.
pub fn simulate_pull(rng: &mut ThreadRng, pull_count: u8) -> (rarity: Rarity)
    ensures
        exists|roll: u64| rarity == simulated_rarity(pull_count, roll),
        pull_count == FIVE_STAR_HARD_PITY ==> rarity == Rarity::FiveStar,
{
    if pull_count == FIVE_STAR_HARD_PITY {
        assert(Rarity::FiveStar == simulated_rarity(pull_count, 0));
        return Rarity::FiveStar;
    }
    let roll = draw_roll(rng);
    simulate_pull_with_roll(roll, pull_count)
}

/// The five-star rate never falls as the pity count grows.
pub proof fn lemma_five_star_rate_monotonic(lo: u8, hi: u8)
    requires
        lo <= hi,
    ensures
        five_star_rate_at(lo) <= five_star_rate_at(hi),
{
}

/// For the same draw, a higher pity count never gives a lower rarity.
pub proof fn law_rarity_monotonic_in_pity(lo: u8, hi: u8, roll: u64)
    requires
        lo <= hi,
    ensures
        rarity_rank(simulated_rarity(lo, roll)) <= rarity_rank(simulated_rarity(hi, roll)),
{
    lemma_five_star_rate_monotonic(lo, hi);
    if roll_hits(roll, five_star_rate_at(lo)) {
        lemma_roll_hits_monotonic(roll, five_star_rate_at(lo), five_star_rate_at(hi));
    }
}

/// At hard pity every draw gives a five-star.
pub proof fn law_hard_pity_is_five_star(roll: u64)
    ensures
        simulated_rarity(FIVE_STAR_HARD_PITY, roll) == Rarity::FiveStar,
{
}

} // verus!
