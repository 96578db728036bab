//! The figures that a run's report shows, computed from its statistics.
use vstd::prelude::*;
use crate::history::{FiveStarMetadata, FourStarMetadata};

verus! {

/// Pulls per hit, rounded down; nothing when there was no hit.
pub open spec fn spec_pulls_per_hit(pulls: u64, hits: u64) -> Option<u64> {
    if hits == 0 {
        None
    } else {
        Some((pulls / hits) as u64)
    }
}

/// Pulls per hit, rounded down, with no hit counting as zero.
pub open spec fn average_or_zero(pulls: u64, hits: u64) -> u64 {
    if hits == 0 {
        0
    } else {
        (pulls / hits) as u64
    }
}

/// Pulls per hit, rounded down; `None` when there was no hit.
pub fn pulls_per_hit(pulls: u64, hits: u64) -> (per_hit: Option<u64>)
    ensures
        per_hit == spec_pulls_per_hit(pulls, hits),
{
    if hits > 0 {
        Some(pulls / hits)
    } else {
        None
    }
}

/// The five-star figures of a report.
#[derive(Debug, PartialEq, Eq, Structural, Copy, Clone)]
pub struct FiveStarSummary {
    pub total: u64,
    pub pulls_per_five_star: Option<u64>,
    pub pulls_per_limited: Option<u64>,
}

/// The five-star figures for `total_count` pulls with these statistics.
pub fn five_star_summary(total_count: u64, metadata: &FiveStarMetadata) -> (summary: FiveStarSummary)
    requires
        metadata.limited_pulls + metadata.standard_pulls <= u64::MAX,
    ensures
        summary.total == metadata.limited_pulls + metadata.standard_pulls,
        summary.pulls_per_five_star == spec_pulls_per_hit(total_count, summary.total),
        summary.pulls_per_limited == spec_pulls_per_hit(total_count, metadata.limited_pulls),
{
    let total = metadata.total();
    FiveStarSummary {
        total,
        pulls_per_five_star: pulls_per_hit(total_count, total),
        pulls_per_limited: pulls_per_hit(total_count, metadata.limited_pulls),
    }
}

/// Pulls per featured four-star, for each one and overall.
#[derive(Debug, PartialEq, Eq, Structural, Copy, Clone)]
pub struct FourStarAverages {
    pub a: u64,
    pub b: u64,
    pub c: u64,
    /// The mean of the three, rounded down.
    pub specific: u64,
    pub any_banner: u64,
}

/// The four-star figures of a report.
#[derive(Debug, PartialEq, Eq, Structural, Copy, Clone)]
pub struct FourStarSummary {
    pub total: u64,
    pub banners: u64,
    /// Present exactly when some featured four-star came.
    pub averages: Option<FourStarAverages>,
    pub pulls_per_four_star: Option<u64>,
}

/// The four-star figures for `total_count` pulls with these statistics.
pub fn four_star_summary(total_count: u64, metadata: &FourStarMetadata) -> (summary: FourStarSummary)
    requires
        metadata.a_pulls + metadata.b_pulls + metadata.c_pulls + metadata.character_non_banner_pulls
            + metadata.light_cone_pulls <= u64::MAX,
        average_or_zero(total_count, metadata.a_pulls) + average_or_zero(total_count, metadata.b_pulls)
            + average_or_zero(total_count, metadata.c_pulls) <= u64::MAX,
    ensures
        summary.total == metadata.a_pulls + metadata.b_pulls + metadata.c_pulls
            + metadata.character_non_banner_pulls + metadata.light_cone_pulls,
        summary.banners == metadata.a_pulls + metadata.b_pulls + metadata.c_pulls,
        summary.banners == 0 ==> summary.averages is None,
        summary.banners > 0 ==> summary.averages == Some(
            FourStarAverages {
                a: average_or_zero(total_count, metadata.a_pulls),
                b: average_or_zero(total_count, metadata.b_pulls),
                c: average_or_zero(total_count, metadata.c_pulls),
                specific: ((average_or_zero(total_count, metadata.a_pulls) + average_or_zero(
                    total_count,
                    metadata.b_pulls,
                ) + average_or_zero(total_count, metadata.c_pulls)) / 3) as u64,
                any_banner: (total_count / summary.banners) as u64,
            },
        ),
        summary.pulls_per_four_star == spec_pulls_per_hit(total_count, summary.total),
{
    let total = metadata.total();
    let banners = metadata.banners();
    let averages = if banners > 0 {
        let a_avg = if metadata.a_pulls > 0 {
            total_count / metadata.a_pulls
        } else {
            0
        };
        let b_avg = if metadata.b_pulls > 0 {
            total_count / metadata.b_pulls
        } else {
            0
        };
        let c_avg = if metadata.c_pulls > 0 {
            total_count / metadata.c_pulls
        } else {
            0
        };
        Some(
            FourStarAverages {
                a: a_avg,
                b: b_avg,
                c: c_avg,
                specific: (a_avg + b_avg + c_avg) / 3,
                any_banner: total_count / banners,
            },
        )
    } else {
        None
    };
    FourStarSummary { total, banners, averages, pulls_per_four_star: pulls_per_hit(total_count, total) }
}

} // verus!
