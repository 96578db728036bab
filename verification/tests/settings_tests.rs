use hgs_core::enums::Pull;
use hgs_core::roll::RATE_SCALE;
use hgs_core::settings::{Pool, PoolContents, PoolRef, Settings, SettingsError, SoftPitySettings};

/// A rate given in percent, in billionths.
fn percent(p: u64) -> u64 {
    RATE_SCALE / 100 * p
}

/// A rate given in tenths of a percent, in billionths.
fn per_mille(p: u64) -> u64 {
    RATE_SCALE / 1000 * p
}

#[test]
fn test_simple_valid_settings() {
    let subject = Settings::new(vec![Pool {
        name: String::from("some pool"),
        rate: RATE_SCALE,
        contents: PoolContents::Pulls(vec![Pull::Character(1)]),

        soft_pity_settings: None,
        hard_pity: None,
        guaranteed_pool: None,
    }]);

    assert!(subject.is_ok());
}

#[test]
fn test_complex_valid_settings() {
    // this should look similar to Character Banner
    let subject = Settings::new(vec![
        Pool {
            name: String::from("5*"),
            rate: percent(60),
            contents: PoolContents::SubPools(vec![
                Pool {
                    // limited character
                    name: String::from("Banner"),
                    rate: percent(55),
                    contents: PoolContents::Pulls(vec![Pull::Character(1)]),
                    soft_pity_settings: None,
                    hard_pity: None,
                    guaranteed_pool: None,
                },
                Pool {
                    // standard characters
                    name: String::from("Standard"),
                    rate: percent(45),
                    contents: PoolContents::Pulls(vec![
                        Pull::Character(2),
                        Pull::Character(4),
                        Pull::Character(4),
                    ]),
                    soft_pity_settings: None,
                    hard_pity: None,
                    guaranteed_pool: None,
                },
            ]),
            soft_pity_settings: Some(SoftPitySettings {
                pity_start: 74,
                rate_increase: percent(6),
            }),
            hard_pity: Some(90),
            guaranteed_pool: Some(PoolRef::ByName(String::from("Banner"))),
        },
        Pool {
            name: String::new(),
            rate: per_mille(51),
            contents: PoolContents::SubPools(vec![
                Pool {
                    name: String::new(),
                    rate: percent(50),
                    contents: PoolContents::SubPools(vec![
                        Pool {
                            // banner 4*s
                            name: String::new(),
                            rate: percent(50),
                            contents: PoolContents::Pulls(vec![
                                Pull::Character(41),
                                Pull::Character(42),
                                Pull::Character(43),
                            ]),

                            soft_pity_settings: None,
                            hard_pity: None,
                            guaranteed_pool: None,
                        },
                        Pool {
                            name: String::new(),
                            rate: percent(50),
                            contents: PoolContents::Pulls(vec![
                                Pull::Character(44),
                                Pull::Character(45),
                                Pull::Character(46),
                            ]),

                            soft_pity_settings: None,
                            hard_pity: None,
                            guaranteed_pool: None,
                        },
                    ]),

                    soft_pity_settings: None,
                    hard_pity: None,
                    guaranteed_pool: None,
                },
                Pool {
                    name: String::new(),
                    rate: percent(50),
                    contents: PoolContents::Pulls(vec![
                        Pull::LightCone(1),
                        Pull::LightCone(2),
                        Pull::LightCone(3),
                        Pull::LightCone(4),
                    ]),

                    soft_pity_settings: None,
                    hard_pity: None,
                    guaranteed_pool: None,
                },
            ]),
            soft_pity_settings: None,
            hard_pity: Some(10),
            guaranteed_pool: None,
        },
    ]);

    assert!(subject.is_ok());
}

// invalid settings only now...
#[test]
fn test_only_one_guaranteed_in_branch() {
    // only one sibling can be guaranteed at a time, does not impact any
    // parent or child
}

#[test]
fn empty_pool_list_is_accepted() {
    let subject = Settings::new(Vec::new());
    assert!(subject.is_ok());
    assert!(subject.unwrap().is_valid());
}

#[test]
fn new_keeps_the_pools_given() {
    let subject = Settings::new(vec![Pool {
        name: String::from("only"),
        rate: 7,
        contents: PoolContents::Pulls(vec![Pull::LightCone(3)]),
        soft_pity_settings: None,
        hard_pity: Some(5),
        guaranteed_pool: None,
    }])
    .unwrap();
    assert_eq!(subject.pools.len(), 1);
    assert_eq!(subject.pools[0].name, "only");
    assert_eq!(subject.pools[0].rate, 7);
    assert_eq!(subject.pools[0].hard_pity, Some(5));
}

#[test]
fn settings_error_has_one_variant() {
    assert_eq!(SettingsError::InvalidSettings, SettingsError::InvalidSettings);
}

fn leaf(rate: u64) -> Pool {
    Pool {
        name: String::new(),
        rate,
        contents: PoolContents::Pulls(vec![Pull::Character(1)]),
        soft_pity_settings: None,
        hard_pity: None,
        guaranteed_pool: None,
    }
}

#[test]
fn sibling_rates_above_certainty_are_refused() {
    let subject = Settings::new(vec![leaf(percent(60)), leaf(percent(60))]);
    assert!(matches!(subject, Err(SettingsError::InvalidSettings)));
    let subject = Settings::new(vec![leaf(percent(60)), leaf(percent(40))]);
    assert!(subject.is_ok());
    let subject = Settings::new(vec![leaf(u64::MAX), leaf(u64::MAX)]);
    assert!(subject.is_err());
}

#[test]
fn sub_pool_rates_above_certainty_are_refused() {
    let nested = |a: u64, b: u64| Pool {
        name: String::from("parent"),
        rate: percent(10),
        contents: PoolContents::SubPools(vec![leaf(a), Pool {
            name: String::from("inner"),
            rate: percent(10),
            contents: PoolContents::SubPools(vec![leaf(b)]),
            soft_pity_settings: None,
            hard_pity: None,
            guaranteed_pool: None,
        }]),
        soft_pity_settings: None,
        hard_pity: None,
        guaranteed_pool: None,
    };
    assert!(Settings::new(vec![nested(percent(90), percent(100))]).is_ok());
    assert!(Settings::new(vec![nested(percent(91), percent(100))]).is_err());
    assert!(Settings::new(vec![nested(percent(90), percent(101))]).is_err());
}
