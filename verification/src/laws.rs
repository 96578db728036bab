//! What every pull keeps, and what holds over a run of pulls.
use vstd::prelude::*;
use crate::enums::{FiveStarType, PullOutcome};
use crate::gacha::{
    Draw, GachaView, PityState, PullDraws, hard_pity_reached, pull_draws, pull_link, pull_spec, tier_rate,
};
use crate::settings::{RaritySettings, SoftPitySettings};
use crate::roll::{roll_hits, lemma_roll_hits_monotonic};

verus! {

/// At the five-star hard pity, a pull gives a five-star, whatever it draws.
pub proof fn law_five_star_hard_pity(v: GachaView, d: PullDraws)
    requires
        hard_pity_reached(v.five_star.incremented(), v.settings.five_star_settings),
    ensures
        pull_spec(v, d).0 is FiveStar,
{
}

/// At the four-star hard pity, a pull gives at least a four-star.
pub proof fn law_four_star_hard_pity(v: GachaView, d: PullDraws)
    requires
        hard_pity_reached(v.four_star.incremented(), v.settings.four_star_settings),
    ensures
        !(pull_spec(v, d).0 is ThreeStar),
{
}

/// A pull counts one more pull in each tier except the tier it hit, whose
/// count starts again; the rules never change.
pub proof fn law_pity_counts(v: GachaView, d: PullDraws)
    ensures
        ({
            let (outcome, w) = pull_spec(v, d);
            &&& w.settings == v.settings
            &&& match outcome {
                PullOutcome::FiveStar(_) => w.five_star.current == 0 && w.four_star == v.four_star.incremented(),
                PullOutcome::FourStar(_) => w.four_star.current == 0 && w.five_star == v.five_star.incremented(),
                PullOutcome::ThreeStar => w.five_star == v.five_star.incremented() && w.four_star
                    == v.four_star.incremented(),
            }
        }),
{
}

/// A guaranteed five-star is the limited one.
pub proof fn law_guaranteed_five_star_is_limited(v: GachaView, d: PullDraws)
    requires
        v.five_star.guaranteed == Some(true),
        pull_spec(v, d).0 is FiveStar,
    ensures
        pull_spec(v, d).0 == PullOutcome::FiveStar(FiveStarType::Limited),
{
}

/// After a five-star, a tier with a guarantee is guaranteed exactly when that
/// five-star was a standard one; whether the tier has a guarantee never changes.
pub proof fn law_five_star_guarantee_follows_loss(v: GachaView, d: PullDraws)
    ensures
        ({
            let (outcome, w) = pull_spec(v, d);
            &&& w.five_star.guaranteed is Some <==> v.five_star.guaranteed is Some
            &&& v.five_star.guaranteed is Some ==> (outcome matches PullOutcome::FiveStar(kind)
                ==> w.five_star.guaranteed == Some(kind == FiveStarType::Standard))
            &&& !(outcome is FiveStar) ==> w.five_star.guaranteed == v.five_star.guaranteed
        }),
{
}

/// A guaranteed four-star is a featured one.
pub proof fn law_guaranteed_four_star_is_banner(v: GachaView, d: PullDraws)
    requires
        v.four_star.guaranteed == Some(true),
        pull_spec(v, d).0 is FourStar,
    ensures
        pull_spec(v, d).0 matches PullOutcome::FourStar(kind) && kind is Banner,
{
}

/// After a four-star, a tier with a guarantee is guaranteed exactly when that
/// four-star was off-banner; whether the tier has a guarantee never changes.
pub proof fn law_four_star_guarantee_follows_loss(v: GachaView, d: PullDraws)
    ensures
        ({
            let (outcome, w) = pull_spec(v, d);
            &&& w.four_star.guaranteed is Some <==> v.four_star.guaranteed is Some
            &&& v.four_star.guaranteed is Some ==> (outcome matches PullOutcome::FourStar(kind)
                ==> w.four_star.guaranteed == Some(kind is Loss))
            &&& !(outcome is FourStar) ==> w.four_star.guaranteed == v.four_star.guaranteed
        }),
{
}

/// The five-star count stays below its hard pity once it is below it.
pub proof fn law_five_star_pity_stays_below_hard_pity(v: GachaView, d: PullDraws, h: u64)
    requires
        v.settings.five_star_settings.hard_pity == Some(h),
        v.five_star.current < h,
    ensures
        pull_spec(v, d).1.five_star.current < h,
{
}

/// A tier's rate (what `GachaState::get_rate` returns) is at least its base
/// rate and never falls as its pity grows.
pub proof fn law_tier_rate_monotonic(p: PityState, q: PityState, rs: RaritySettings)
    requires
        rs.well_formed(),
        p.current <= q.current,
    ensures
        rs.base_rate <= tier_rate(p, rs),
        tier_rate(p, rs) <= tier_rate(q, rs),
{
    if let Some(sp) = rs.soft_pity_settings {
        if p.current >= sp.pity_start {
            let a: int = p.current - (sp.pity_start - 1);
            let b: int = q.current - (sp.pity_start - 1);
            assert(sp.rate_increase * a <= sp.rate_increase * b) by (nonlinear_arith)
                requires
                    0 <= a <= b,
                    sp.rate_increase >= 0,
            ;
        } else if q.current >= sp.pity_start {
            let b: int = q.current - (sp.pity_start - 1);
            assert(sp.rate_increase * b >= 0) by (nonlinear_arith)
                requires
                    0 <= b,
                    sp.rate_increase >= 0,
            ;
        }
    }
}

/// A run of pulls: `states[i]` is the state before the `i`-th pull and
/// `outcomes[i]` its outcome; each pull is one that `GachaState::pull` (or
/// `pull_with_draws`) can make, as its `ensures` states.
pub open spec fn pull_chain(states: Seq<GachaView>, outcomes: Seq<PullOutcome>) -> bool {
    &&& states.len() == outcomes.len() + 1
    &&& forall|i: int| 0 <= i < outcomes.len() ==> pull_link(states[i], #[trigger] outcomes[i], states[i + 1])
}

/// The draws that explain the `i`-th pull of a run.
spec fn link_draws(states: Seq<GachaView>, outcomes: Seq<PullOutcome>, i: int) -> PullDraws {
    choose|d: PullDraws| d.in_range() && pull_spec(states[i], d) == (outcomes[i], states[i + 1])
}

/// The `i`-th pull of a run is the model pull of its draws.
proof fn lemma_chain_step(states: Seq<GachaView>, outcomes: Seq<PullOutcome>, i: int)
    requires
        pull_chain(states, outcomes),
        0 <= i < outcomes.len(),
    ensures
        pull_spec(states[i], link_draws(states, outcomes, i)) == (outcomes[i], states[i + 1]),
{
    assert(pull_link(states[i], outcomes[i], states[i + 1]));
}

/// The rules never change along a run, and whether a tier has a guarantee
/// never changes.
pub proof fn law_chain_keeps_settings(states: Seq<GachaView>, outcomes: Seq<PullOutcome>, k: int)
    requires
        pull_chain(states, outcomes),
        0 <= k <= outcomes.len(),
    ensures
        states[k].settings == states[0].settings,
        states[k].five_star.guaranteed is Some <==> states[0].five_star.guaranteed is Some,
        states[k].four_star.guaranteed is Some <==> states[0].four_star.guaranteed is Some,
    decreases k,
{
    if k > 0 {
        law_chain_keeps_settings(states, outcomes, k - 1);
        lemma_chain_step(states, outcomes, k - 1);
        law_pity_counts(states[k - 1], link_draws(states, outcomes, k - 1));
        law_five_star_guarantee_follows_loss(states[k - 1], link_draws(states, outcomes, k - 1));
        law_four_star_guarantee_follows_loss(states[k - 1], link_draws(states, outcomes, k - 1));
    }
}

/// Pulls without a five-star leave the five-star guarantee as it was and
/// count one pull each.
proof fn lemma_chain_without_five_star(states: Seq<GachaView>, outcomes: Seq<PullOutcome>, a: int, b: int)
    requires
        pull_chain(states, outcomes),
        0 <= a <= b <= outcomes.len(),
        forall|k: int| a <= k < b ==> !(#[trigger] outcomes[k] is FiveStar),
    ensures
        states[b].five_star.guaranteed == states[a].five_star.guaranteed,
        states[a].five_star.current + (b - a) <= u64::MAX ==> states[b].five_star.current
            == states[a].five_star.current + (b - a),
    decreases b - a,
{
    if b > a {
        lemma_chain_without_five_star(states, outcomes, a, b - 1);
        assert(!(outcomes[b - 1] is FiveStar));
        lemma_chain_step(states, outcomes, b - 1);
        law_pity_counts(states[b - 1], link_draws(states, outcomes, b - 1));
        law_five_star_guarantee_follows_loss(states[b - 1], link_draws(states, outcomes, b - 1));
    }
}

/// Pulls without a four-star leave the four-star guarantee as it was.
proof fn lemma_chain_without_four_star(states: Seq<GachaView>, outcomes: Seq<PullOutcome>, a: int, b: int)
    requires
        pull_chain(states, outcomes),
        0 <= a <= b <= outcomes.len(),
        forall|k: int| a <= k < b ==> !(#[trigger] outcomes[k] is FourStar),
    ensures
        states[b].four_star.guaranteed == states[a].four_star.guaranteed,
    decreases b - a,
{
    if b > a {
        lemma_chain_without_four_star(states, outcomes, a, b - 1);
        assert(!(outcomes[b - 1] is FourStar));
        lemma_chain_step(states, outcomes, b - 1);
        law_four_star_guarantee_follows_loss(states[b - 1], link_draws(states, outcomes, b - 1));
    }
}

/// With a five-star hard pity of `h`, a run from a count below `h` has a
/// five-star among its first `h - count` pulls.
pub proof fn law_five_star_within_hard_pity(states: Seq<GachaView>, outcomes: Seq<PullOutcome>, h: u64)
    requires
        pull_chain(states, outcomes),
        states[0].settings.five_star_settings.hard_pity == Some(h),
        states[0].five_star.current < h,
        outcomes.len() >= h - states[0].five_star.current,
    ensures
        exists|i: int| 0 <= i < h - states[0].five_star.current && #[trigger] outcomes[i] is FiveStar,
{
    let m: int = h - states[0].five_star.current;
    if forall|i: int| 0 <= i < m ==> !(#[trigger] outcomes[i] is FiveStar) {
        lemma_chain_without_five_star(states, outcomes, 0, m - 1);
        law_chain_keeps_settings(states, outcomes, m - 1);
        lemma_chain_step(states, outcomes, m - 1);
        law_five_star_hard_pity(states[m - 1], link_draws(states, outcomes, m - 1));
        assert(outcomes[m - 1] is FiveStar);
    }
}

/// With a five-star guarantee, a run never has two standard five-stars
/// without a limited one between them: after a standard five-star, the next
/// five-star is the limited one, whatever comes between.
pub proof fn law_no_two_standard_five_stars_in_a_row(
    states: Seq<GachaView>,
    outcomes: Seq<PullOutcome>,
    i: int,
    j: int,
)
    requires
        pull_chain(states, outcomes),
        states[0].five_star.guaranteed is Some,
        0 <= i < j < outcomes.len(),
        outcomes[i] == PullOutcome::FiveStar(FiveStarType::Standard),
        outcomes[j] is FiveStar,
        forall|k: int| i < k < j ==> !(#[trigger] outcomes[k] is FiveStar),
    ensures
        outcomes[j] == PullOutcome::FiveStar(FiveStarType::Limited),
{
    law_chain_keeps_settings(states, outcomes, i);
    lemma_chain_step(states, outcomes, i);
    law_five_star_guarantee_follows_loss(states[i], link_draws(states, outcomes, i));
    assert(states[i + 1].five_star.guaranteed == Some(true));
    lemma_chain_without_five_star(states, outcomes, i + 1, j);
    lemma_chain_step(states, outcomes, j);
    law_guaranteed_five_star_is_limited(states[j], link_draws(states, outcomes, j));
}

/// With a four-star guarantee, a run never has two off-banner four-stars
/// without a featured one between them: after an off-banner four-star, the
/// next four-star is a featured one, whatever comes between.
pub proof fn law_no_two_off_banner_four_stars_in_a_row(
    states: Seq<GachaView>,
    outcomes: Seq<PullOutcome>,
    i: int,
    j: int,
)
    requires
        pull_chain(states, outcomes),
        states[0].four_star.guaranteed is Some,
        0 <= i < j < outcomes.len(),
        outcomes[i] matches PullOutcome::FourStar(kind) && kind is Loss,
        outcomes[j] is FourStar,
        forall|k: int| i < k < j ==> !(#[trigger] outcomes[k] is FourStar),
    ensures
        outcomes[j] matches PullOutcome::FourStar(kind) && kind is Banner,
{
    law_chain_keeps_settings(states, outcomes, i);
    lemma_chain_step(states, outcomes, i);
    law_four_star_guarantee_follows_loss(states[i], link_draws(states, outcomes, i));
    assert(states[i + 1].four_star.guaranteed == Some(true));
    lemma_chain_without_four_star(states, outcomes, i + 1, j);
    lemma_chain_step(states, outcomes, j);
    law_guaranteed_four_star_is_banner(states[j], link_draws(states, outcomes, j));
}

/// Without a banner rate and with a guarantee, the five-stars of a run
/// alternate: the one after a standard five-star is limited, and the one
/// after a limited five-star is standard.
pub proof fn law_five_stars_alternate_without_banner_rate(
    states: Seq<GachaView>,
    outcomes: Seq<PullOutcome>,
    i: int,
    j: int,
)
    requires
        pull_chain(states, outcomes),
        states[0].five_star.guaranteed is Some,
        states[0].settings.five_star_settings.banner_rate is None,
        0 <= i < j < outcomes.len(),
        outcomes[i] is FiveStar,
        outcomes[j] is FiveStar,
        forall|k: int| i < k < j ==> !(#[trigger] outcomes[k] is FiveStar),
    ensures
        outcomes[i] == PullOutcome::FiveStar(FiveStarType::Standard) <==> outcomes[j] == PullOutcome::FiveStar(
            FiveStarType::Limited,
        ),
{
    law_chain_keeps_settings(states, outcomes, i);
    law_chain_keeps_settings(states, outcomes, j);
    lemma_chain_step(states, outcomes, i);
    law_five_star_guarantee_follows_loss(states[i], link_draws(states, outcomes, i));
    lemma_chain_without_five_star(states, outcomes, i + 1, j);
    lemma_chain_step(states, outcomes, j);
}

/// The order of the tiers of an outcome: three-star, four-star, five-star.
pub open spec fn outcome_rank(outcome: PullOutcome) -> int {
    match outcome {
        PullOutcome::ThreeStar => 0,
        PullOutcome::FourStar(_) => 1,
        PullOutcome::FiveStar(_) => 2,
    }
}

/// For the same draws, more five-star pity never gives a lower tier.
pub proof fn law_more_five_star_pity_never_lowers_rarity(v: GachaView, w: GachaView, d: PullDraws)
    requires
        v.settings.well_formed(),
        w.settings == v.settings,
        w.four_star == v.four_star,
        w.five_star.current >= v.five_star.current,
    ensures
        outcome_rank(pull_spec(v, d).0) <= outcome_rank(pull_spec(w, d).0),
{
    let fs = v.settings.five_star_settings;
    let qs = v.settings.four_star_settings;
    let pv = v.five_star.incremented();
    let pw = w.five_star.incremented();
    let q = v.four_star.incremented();
    law_tier_rate_monotonic(pv, pw, fs);
    let rv = tier_rate(pv, fs);
    let rw = tier_rate(pw, fs);
    if roll_hits(d.rarity_roll, rv) {
        lemma_roll_hits_monotonic(d.rarity_roll, rv, rw);
    }
    if roll_hits(d.rarity_roll, rv + tier_rate(q, qs)) {
        lemma_roll_hits_monotonic(d.rarity_roll, rv + tier_rate(q, qs), rw + tier_rate(q, qs));
    }
}

/// A pull that gives an unguaranteed five-star on a tier with a banner rate
/// takes the banner roll as its last draw, and the five-star is the limited
/// one exactly when that roll falls below the banner rate.
pub proof fn law_unguaranteed_five_star_follows_its_banner_roll(v: GachaView, d: PullDraws, rate: u64)
    requires
        pull_spec(v, d).0 is FiveStar,
        v.five_star.guaranteed != Some(true),
        v.settings.five_star_settings.banner_rate == Some(rate),
    ensures
        pull_draws(v, d).len() > 0,
        pull_draws(v, d).last() == Draw::Roll(d.five_star_roll),
        pull_spec(v, d).0 == PullOutcome::FiveStar(FiveStarType::Limited) <==> roll_hits(
            d.five_star_roll,
            rate as int,
        ),
{
}

/// A guaranteed five-star takes no banner roll: the pull draws at most its
/// rarity roll.
pub proof fn law_guaranteed_five_star_takes_no_banner_roll(v: GachaView, d: PullDraws)
    requires
        pull_spec(v, d).0 is FiveStar,
        v.five_star.guaranteed == Some(true),
    ensures
        pull_draws(v, d).len() <= 1,
{
}

/// The five-star rate at a five-star count, written out: the base rate,
/// plus from the start of soft pity on the increase once for each pull
/// since one before that start.
pub open spec fn five_star_rate_at_count(v: GachaView, count: int) -> int {
    let fs = v.settings.five_star_settings;
    match fs.soft_pity_settings {
        Some(sp) => if count >= sp.pity_start {
            fs.base_rate + sp.rate_increase * (count - (sp.pity_start - 1))
        } else {
            fs.base_rate as int
        },
        None => fs.base_rate as int,
    }
}

/// Four-star soft pity raises the four-star threshold of the rarity roll:
/// once the four-star count of the pull is at or past the start of soft
/// pity, a rarity roll that misses the five-star rate but falls below the
/// five-star rate plus the four-star base rate plus the increase for each
/// pull since one before that start gives a four-star.
pub proof fn law_four_star_soft_pity_raises_the_four_star_chance(
    v: GachaView,
    d: PullDraws,
    sp: SoftPitySettings,
)
    requires
        v.settings.four_star_settings.soft_pity_settings == Some(sp),
        sp.pity_start >= 1,
        v.five_star.current < u64::MAX,
        v.four_star.current < u64::MAX,
        v.four_star.current + 1 >= sp.pity_start,
        v.settings.five_star_settings.hard_pity matches Some(h) ==> v.five_star.current + 1 < h,
        !roll_hits(d.rarity_roll, five_star_rate_at_count(v, v.five_star.current + 1)),
        roll_hits(
            d.rarity_roll,
            five_star_rate_at_count(v, v.five_star.current + 1) + v.settings.four_star_settings.base_rate
                + sp.rate_increase * (v.four_star.current + 1 - (sp.pity_start - 1)),
        ),
    ensures
        pull_spec(v, d).0 is FourStar,
{
}

/// For the same draws, more four-star pity never gives a lower tier.
pub proof fn law_more_four_star_pity_never_lowers_rarity(v: GachaView, w: GachaView, d: PullDraws)
    requires
        v.settings.well_formed(),
        w.settings == v.settings,
        w.five_star == v.five_star,
        w.four_star.current >= v.four_star.current,
    ensures
        outcome_rank(pull_spec(v, d).0) <= outcome_rank(pull_spec(w, d).0),
{
    let fs = v.settings.five_star_settings;
    let qs = v.settings.four_star_settings;
    let p = v.five_star.incremented();
    let qv = v.four_star.incremented();
    let qw = w.four_star.incremented();
    law_tier_rate_monotonic(qv, qw, qs);
    let r5 = tier_rate(p, fs);
    if roll_hits(d.rarity_roll, r5 + tier_rate(qv, qs)) {
        lemma_roll_hits_monotonic(d.rarity_roll, r5 + tier_rate(qv, qs), r5 + tier_rate(qw, qs));
    }
}

} // verus!
