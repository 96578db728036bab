use hgs_core::enums::{FiveStarType, FourStarBanner, FourStarLoss, FourStarType, PullOutcome, Rarity};
use hgs_core::errors::PullError;
use hgs_core::history::{five_star_pity_rows, PullHistory};
use hgs_core::summary::{five_star_summary, four_star_summary, pulls_per_hit, FourStarAverages};

fn five(kind: FiveStarType) -> PullOutcome {
    PullOutcome::FiveStar(kind)
}

fn four(kind: FourStarType) -> PullOutcome {
    PullOutcome::FourStar(kind)
}

#[test]
fn history_counts_five_stars_by_kind_and_guarantee() {
    let mut h = PullHistory::new();
    h.add(PullOutcome::ThreeStar);
    h.add(five(FiveStarType::Standard));
    h.add(PullOutcome::ThreeStar);
    h.add(PullOutcome::ThreeStar);
    h.add(five(FiveStarType::Limited));
    h.add(five(FiveStarType::Limited));
    assert_eq!(h.total_count(), 6);
    let m = h.five_star_metadata();
    assert_eq!(m.total(), 3);
    assert_eq!(m.limited_pulls, 2);
    assert_eq!(m.standard_pulls, 1);
    assert_eq!(m.losses, 1);
    assert_eq!(m.guaranteeds, 1);
    assert_eq!(m.wins, 1);
    assert_eq!(m.pity, 0);
    assert!(!m.next_guaranteed);
    // The standard one came at pity 2, the first limited at pity 3, the second at 1.
    assert_eq!(m._pity_of_type(2, FiveStarType::Standard), 1);
    assert_eq!(m._pity_of_type(3, FiveStarType::Limited), 1);
    assert_eq!(m._pity_of_type(1, FiveStarType::Limited), 1);
    assert_eq!(m._pity_of_type(1, FiveStarType::Standard), 0);
    assert_eq!(m._pity_of_type(7, FiveStarType::Limited), 0);
}

#[test]
fn history_counts_four_stars_by_kind() {
    let mut h = PullHistory::new();
    h.add(four(FourStarType::Banner(FourStarBanner::A)));
    h.add(PullOutcome::ThreeStar);
    h.add(four(FourStarType::Loss(FourStarLoss::LightCone)));
    h.add(four(FourStarType::Banner(FourStarBanner::C)));
    h.add(four(FourStarType::Loss(FourStarLoss::Character)));
    h.add(PullOutcome::ThreeStar);
    let m = h.four_star_metadata();
    assert_eq!(m.total(), 4);
    assert_eq!(m.banners(), 2);
    assert_eq!(m.non_banners(), 2);
    assert_eq!((m.a_pulls, m.b_pulls, m.c_pulls), (1, 0, 1));
    assert_eq!((m.character_non_banner_pulls, m.light_cone_pulls), (1, 1));
    assert_eq!(m.wins, 2);
    assert_eq!(m.losses, 2);
    assert_eq!(m.guaranteeds, 0);
    assert_eq!(m.pity, 1);
    assert_eq!(m.pity_of_type(1, FourStarType::Banner(FourStarBanner::A)), 1);
    assert_eq!(m.pity_of_type(2, FourStarType::Loss(FourStarLoss::LightCone)), 1);
    assert_eq!(m.pity_of_type(1, FourStarType::Banner(FourStarBanner::C)), 1);
    assert_eq!(m.pity_of_type(1, FourStarType::Loss(FourStarLoss::Character)), 1);
    assert_eq!(m.pity_of_type(1, FourStarType::Banner(FourStarBanner::B)), 0);
    // Five-star statistics see only pulls.
    assert_eq!(h.five_star_metadata().pity, 6);
    assert_eq!(h.five_star_metadata().total(), 0);
}

#[test]
fn summaries_of_a_history() {
    let mut h = PullHistory::new();
    for _ in 0..10 {
        h.add(PullOutcome::ThreeStar);
    }
    h.add(five(FiveStarType::Limited));
    h.add(four(FourStarType::Banner(FourStarBanner::B)));
    h.add(four(FourStarType::Banner(FourStarBanner::B)));
    h.add(four(FourStarType::Loss(FourStarLoss::Character)));
    // 14 pulls.
    let s5 = five_star_summary(h.total_count(), h.five_star_metadata());
    assert_eq!(s5.total, 1);
    assert_eq!(s5.pulls_per_five_star, Some(14));
    assert_eq!(s5.pulls_per_limited, Some(14));
    let s4 = four_star_summary(h.total_count(), h.four_star_metadata());
    assert_eq!(s4.total, 3);
    assert_eq!(s4.banners, 2);
    assert_eq!(s4.pulls_per_four_star, Some(4));
    assert_eq!(
        s4.averages,
        Some(FourStarAverages { a: 0, b: 7, c: 0, specific: 2, any_banner: 7 })
    );
}

#[test]
fn summaries_without_hits() {
    let h = PullHistory::new();
    let s5 = five_star_summary(h.total_count(), h.five_star_metadata());
    assert_eq!(s5.total, 0);
    assert_eq!(s5.pulls_per_five_star, None);
    assert_eq!(s5.pulls_per_limited, None);
    let s4 = four_star_summary(h.total_count(), h.four_star_metadata());
    assert_eq!(s4.averages, None);
    assert_eq!(s4.pulls_per_four_star, None);
    assert_eq!(pulls_per_hit(10, 0), None);
    assert_eq!(pulls_per_hit(10, 3), Some(3));
}

#[test]
fn pull_error_messages() {
    assert_eq!(PullError::ImpossibleRoll.message(), "Impossible roll occured");
    assert_eq!(PullError::InvalidPitySettings.message(), "Pity settings not valid with state");
    assert_eq!(PullError::InvalidRarity(Rarity::FourStar).message(), "Invalid Rarity used: FourStar");
    assert_eq!(PullError::InvalidRarity(Rarity::ThreeStar).message(), "Invalid Rarity used: ThreeStar");
    assert_eq!(PullError::InvalidRarity(Rarity::FiveStar).message(), "Invalid Rarity used: FiveStar");
}

#[test]
fn five_star_pity_rows_list_each_pity_once_in_order() {
    let mut h = PullHistory::new();
    // Five-stars at pity 3 (standard), 1 (limited), 3 (limited), 1 (standard).
    for outcome in [
        PullOutcome::ThreeStar,
        PullOutcome::ThreeStar,
        five(FiveStarType::Standard),
        five(FiveStarType::Limited),
        PullOutcome::ThreeStar,
        PullOutcome::ThreeStar,
        five(FiveStarType::Limited),
        five(FiveStarType::Standard),
    ] {
        h.add(outcome);
    }
    let rows = five_star_pity_rows(h.five_star_metadata());
    assert_eq!(rows, vec![(1, 2, 1, 1), (3, 2, 1, 1)]);
    assert_eq!(five_star_pity_rows(PullHistory::new().five_star_metadata()), vec![]);
}
