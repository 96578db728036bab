use hgs_core::enums::{FiveStarType, FourStarBanner, FourStarLoss, FourStarType, PullOutcome};
use hgs_core::gacha::{banner_for_pick, PityState, PullDraws};
use hgs_core::roll::{roll_hits_rate, RATE_SCALE};
use hgs_core::settings::{GachaSettings, RaritySettings, SoftPitySettings};
use hgs_core::GachaState;

fn character_banner() -> GachaSettings {
    GachaSettings {
        five_star_settings: RaritySettings {
            guarantee_enabled: true,
            hard_pity: Some(90),
            soft_pity_settings: Some(SoftPitySettings { pity_start: 74, rate_increase: 60_000_000 }),
            base_rate: 6_000_000,
            banner_rate: Some(500_000_000),
        },
        four_star_settings: RaritySettings {
            guarantee_enabled: true,
            hard_pity: Some(10),
            soft_pity_settings: None,
            base_rate: 51_000_000,
            banner_rate: Some(500_000_000),
        },
    }
}

fn standard_banner() -> GachaSettings {
    let mut s = character_banner();
    s.five_star_settings.guarantee_enabled = false;
    s.five_star_settings.banner_rate = None;
    s.four_star_settings.guarantee_enabled = false;
    s.four_star_settings.banner_rate = None;
    s
}

fn roll_at(fraction: f64) -> u64 {
    (fraction * u64::MAX as f64) as u64
}

fn draws(rarity_roll: u64, five_star_roll: u64, coin: u32, four_star_roll: u64, pick: u32) -> PullDraws {
    PullDraws {
        rarity_roll,
        five_star_roll,
        four_star_coin: coin,
        four_star_roll,
        four_star_pick: pick,
    }
}

fn run_pull_test(settings: GachaSettings, d: PullDraws, expected: PullOutcome) {
    let mut state = GachaState::new(settings);
    assert_eq!(state.pull_with_draws(d), expected);
}

#[test]
fn test_pull_three_star() {
    let lower = roll_at(0.006 + 0.051 + 0.01);
    for roll in [lower, u64::MAX] {
        run_pull_test(character_banner(), draws(roll, 0, 0, 0, 0), PullOutcome::ThreeStar);
    }
}

#[test]
fn test_pull_four_star() {
    let lower = roll_at(0.006 + 0.001);
    let upper = roll_at(0.006 + 0.051) - 4096;
    let cases = [
        (draws(lower, 0, 0, 0, 0), PullOutcome::FourStar(FourStarType::Banner(FourStarBanner::A))),
        (draws(upper, 0, 0, 0, 1), PullOutcome::FourStar(FourStarType::Banner(FourStarBanner::B))),
        (draws(lower, 0, 0, 0, 2), PullOutcome::FourStar(FourStarType::Banner(FourStarBanner::C))),
        (
            draws(lower, 0, 0, u64::MAX, 0),
            PullOutcome::FourStar(FourStarType::Loss(FourStarLoss::Character)),
        ),
        (draws(lower, 0, 1, 0, 0), PullOutcome::FourStar(FourStarType::Loss(FourStarLoss::LightCone))),
    ];
    for (d, expected) in cases {
        run_pull_test(character_banner(), d, expected);
    }
}

#[test]
fn test_pull_five_star() {
    let upper = roll_at(0.006) - 4096;
    run_pull_test(character_banner(), draws(0, 0, 0, 0, 0), PullOutcome::FiveStar(FiveStarType::Limited));
    run_pull_test(
        character_banner(),
        draws(upper, u64::MAX, 0, 0, 0),
        PullOutcome::FiveStar(FiveStarType::Standard),
    );
}

#[test]
fn without_banner_rate_every_five_star_is_standard() {
    run_pull_test(standard_banner(), draws(0, 0, 0, 0, 0), PullOutcome::FiveStar(FiveStarType::Standard));
    run_pull_test(
        standard_banner(),
        draws(roll_at(0.01), 0, 0, 0, 0),
        PullOutcome::FourStar(FourStarType::Loss(FourStarLoss::Character)),
    );
}

#[test]
fn a_lost_five_star_guarantees_the_next() {
    let mut state = GachaState::new(character_banner());
    assert_eq!(state.pull_with_draws(draws(0, u64::MAX, 0, 0, 0)), PullOutcome::FiveStar(FiveStarType::Standard));
    // Some three-stars in between keep the guarantee.
    for _ in 0..3 {
        assert_eq!(state.pull_with_draws(draws(u64::MAX, 0, 0, 0, 0)), PullOutcome::ThreeStar);
    }
    // The banner roll misses, yet the guarantee gives the limited one.
    assert_eq!(state.pull_with_draws(draws(0, u64::MAX, 0, 0, 0)), PullOutcome::FiveStar(FiveStarType::Limited));
    // The guarantee is spent: a missed banner roll loses again.
    assert_eq!(state.pull_with_draws(draws(0, u64::MAX, 0, 0, 0)), PullOutcome::FiveStar(FiveStarType::Standard));
}

#[test]
fn a_lost_four_star_guarantees_the_next() {
    let mut state = GachaState::new(character_banner());
    let four = roll_at(0.02);
    assert_eq!(
        state.pull_with_draws(draws(four, 0, 1, 0, 0)),
        PullOutcome::FourStar(FourStarType::Loss(FourStarLoss::LightCone))
    );
    // The coin says light cone, but the guarantee gives a featured one.
    assert_eq!(
        state.pull_with_draws(draws(four, 0, 1, u64::MAX, 1)),
        PullOutcome::FourStar(FourStarType::Banner(FourStarBanner::B))
    );
    assert_eq!(
        state.pull_with_draws(draws(four, 0, 1, 0, 0)),
        PullOutcome::FourStar(FourStarType::Loss(FourStarLoss::LightCone))
    );
}

#[test]
fn four_star_hard_pity_at_ten() {
    let mut state = GachaState::new(character_banner());
    for _ in 0..9 {
        assert_eq!(state.pull_with_draws(draws(u64::MAX, 0, 0, 0, 0)), PullOutcome::ThreeStar);
    }
    assert!(matches!(state.pull_with_draws(draws(u64::MAX, 0, 0, 0, 0)), PullOutcome::FourStar(_)));
}

#[test]
fn five_star_hard_pity_at_ninety() {
    // Without soft pity the top roll misses every rate.
    let mut settings = character_banner();
    settings.five_star_settings.soft_pity_settings = None;
    let mut state = GachaState::new(settings);
    for i in 1..90 {
        let outcome = state.pull_with_draws(draws(u64::MAX, 0, 0, 0, 0));
        if i % 10 == 0 {
            assert!(matches!(outcome, PullOutcome::FourStar(_)));
        } else {
            assert_eq!(outcome, PullOutcome::ThreeStar);
        }
    }
    assert!(matches!(state.pull_with_draws(draws(u64::MAX, 0, 0, 0, 0)), PullOutcome::FiveStar(_)));
}

#[test]
fn soft_pity_raises_the_rate() {
    // A roll at 24%: at pity 76 the five-star rate is 0.6% + 3 * 6% = 18.6%,
    // and with the four-star rate 23.7%, so the roll misses both; at pity 77
    // the five-star rate is 24.6% and it hits.
    let roll = roll_at(0.24);
    let mut state = GachaState::new(character_banner());
    for i in 1..77 {
        let outcome = state.pull_with_draws(draws(roll, 0, 0, 0, 0));
        if i % 10 == 0 {
            assert!(matches!(outcome, PullOutcome::FourStar(_)), "pull {}", i);
        } else {
            assert_eq!(outcome, PullOutcome::ThreeStar, "pull {}", i);
        }
    }
    assert!(matches!(state.pull_with_draws(draws(roll, 0, 0, 0, 0)), PullOutcome::FiveStar(_)));
}

#[test]
fn random_pulls_keep_pity_and_guarantee() {
    let mut rng = rand::rng();
    let mut state = GachaState::new(character_banner());
    let mut since_five = 0u64;
    let mut since_four = 0u64;
    let mut guaranteed = false;
    for _ in 0..20_000 {
        let outcome = state.pull(&mut rng);
        since_five += 1;
        since_four += 1;
        match outcome {
            PullOutcome::FiveStar(kind) => {
                assert!(since_five <= 90);
                if guaranteed {
                    assert_eq!(kind, FiveStarType::Limited);
                }
                guaranteed = kind == FiveStarType::Standard;
                since_five = 0;
            }
            PullOutcome::FourStar(_) => {
                since_four = 0;
            }
            PullOutcome::ThreeStar => {
                assert!(since_five < 90);
                assert!(since_four < 10);
            }
        }
    }
}

#[test]
fn pity_state_counts_and_resets() {
    let with = RaritySettings {
        guarantee_enabled: true,
        hard_pity: None,
        soft_pity_settings: None,
        base_rate: 0,
        banner_rate: None,
    };
    let without = RaritySettings { guarantee_enabled: false, ..with };
    assert_eq!(PityState::from_rarity_settings(&with), PityState { guaranteed: Some(false), current: 0 });
    let mut p = PityState::from_rarity_settings(&without);
    assert_eq!(p, PityState { guaranteed: None, current: 0 });
    p.increment();
    p.increment();
    assert_eq!(p.current, 2);
    p.reset_pity();
    assert_eq!(p.current, 0);
    let mut top = PityState { guaranteed: Some(true), current: u64::MAX };
    top.increment();
    assert_eq!(top, PityState { guaranteed: Some(true), current: u64::MAX });
}

#[test]
fn rates_of_zero_and_certainty() {
    for roll in [0u64, 1 << 40, u64::MAX] {
        assert!(!roll_hits_rate(roll, 0));
        assert!(roll_hits_rate(roll, RATE_SCALE as u128));
        assert!(roll_hits_rate(roll, u128::MAX));
    }
    // Half: the top bit of the roll decides.
    assert!(roll_hits_rate((1u64 << 63) - 1, (RATE_SCALE / 2) as u128));
    assert!(!roll_hits_rate(1u64 << 63, (RATE_SCALE / 2) as u128));
}

#[test]
fn picks_name_the_featured_four_stars() {
    assert_eq!(banner_for_pick(0), FourStarBanner::A);
    assert_eq!(banner_for_pick(1), FourStarBanner::B);
    assert_eq!(banner_for_pick(2), FourStarBanner::C);
}

#[test]
fn zero_base_rates_give_only_hard_pity_hits() {
    let mut settings = standard_banner();
    settings.five_star_settings.base_rate = 0;
    settings.five_star_settings.soft_pity_settings = None;
    settings.four_star_settings.base_rate = 0;
    settings.four_star_settings.hard_pity = None;
    let mut state = GachaState::new(settings);
    for _ in 1..90 {
        assert_eq!(state.pull_with_draws(draws(0, 0, 0, 0, 0)), PullOutcome::ThreeStar);
    }
    assert_eq!(state.pull_with_draws(draws(0, 0, 0, 0, 0)), PullOutcome::FiveStar(FiveStarType::Standard));
}

#[test]
fn random_pulls_reach_every_kind() {
    let mut rng = rand::rng();
    let mut state = GachaState::new(character_banner());
    let mut seen = std::collections::HashSet::new();
    for _ in 0..20_000 {
        if let PullOutcome::FourStar(kind) = state.pull(&mut rng) {
            seen.insert(format!("{:?}", kind));
        }
    }
    for kind in [
        FourStarType::Banner(FourStarBanner::A),
        FourStarType::Banner(FourStarBanner::B),
        FourStarType::Banner(FourStarBanner::C),
        FourStarType::Loss(FourStarLoss::Character),
        FourStarType::Loss(FourStarLoss::LightCone),
    ] {
        assert!(seen.contains(&format!("{:?}", kind)), "{:?} never came", kind);
    }
}

#[test]
fn soft_pity_from_zero_is_refused_unless_hard_pity_comes_first() {
    let mut settings = standard_banner();
    settings.four_star_settings.soft_pity_settings = Some(SoftPitySettings { pity_start: 0, rate_increase: 1 });
    assert!(!GachaState::new(settings).can_pull());
    // With a four-star hard pity of one, the four-star rate is never needed.
    settings.four_star_settings.hard_pity = Some(1);
    let mut state = GachaState::new(settings);
    assert!(state.can_pull());
    assert!(matches!(state.pull_with_draws(draws(u64::MAX, 0, 1, 0, 0)), PullOutcome::FourStar(_)));
    // The same for the five-star tier with a hard pity of one.
    let mut settings = standard_banner();
    settings.five_star_settings.soft_pity_settings = Some(SoftPitySettings { pity_start: 0, rate_increase: 1 });
    assert!(!GachaState::new(settings).can_pull());
    settings.five_star_settings.hard_pity = Some(1);
    let mut state = GachaState::new(settings);
    assert!(state.can_pull());
    assert!(matches!(state.pull_with_draws(draws(u64::MAX, 0, 0, 0, 0)), PullOutcome::FiveStar(_)));
}

#[test]
fn rates_above_certainty_always_hit() {
    let mut settings = standard_banner();
    settings.five_star_settings.base_rate = 3 * RATE_SCALE / 2;
    let mut state = GachaState::new(settings);
    assert!(matches!(state.pull_with_draws(draws(u64::MAX, 0, 0, 0, 0)), PullOutcome::FiveStar(_)));
    let mut settings = standard_banner();
    settings.four_star_settings.base_rate = u64::MAX;
    settings.five_star_settings.base_rate = u64::MAX - 1;
    let mut state = GachaState::new(settings);
    assert!(matches!(state.pull_with_draws(draws(u64::MAX, 0, 0, 0, 0)), PullOutcome::FiveStar(_)));
}

#[test]
fn five_stars_alternate_without_banner_rate() {
    let mut settings = character_banner();
    settings.five_star_settings.banner_rate = None;
    let mut state = GachaState::new(settings);
    let mut expected = FiveStarType::Standard;
    for _ in 0..6 {
        assert!(!matches!(state.pull_with_draws(draws(u64::MAX, 0, 0, 0, 0)), PullOutcome::FiveStar(_)));
        assert_eq!(state.pull_with_draws(draws(0, 0, 0, 0, 0)), PullOutcome::FiveStar(expected));
        expected = match expected {
            FiveStarType::Standard => FiveStarType::Limited,
            FiveStarType::Limited => FiveStarType::Standard,
        };
    }
}
