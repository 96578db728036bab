//! A record of pulls and the statistics kept as they come in.
use vstd::prelude::*;
use std::collections::HashMap;
use crate::enums::{FiveStarType, FourStarBanner, FourStarLoss, FourStarType, PullOutcome};

verus! {

broadcast use vstd::std_specs::hash::group_hash_axioms;

/// How many five-stars of each kind came at one pity count.
#[derive(Debug, PartialEq, Eq, Structural, Copy, Clone)]
pub struct FiveStarCounts {
    pub limited: u64,
    pub standard: u64,
}

/// How many four-stars of each kind came at one pity count.
#[derive(Debug, PartialEq, Eq, Structural, Copy, Clone)]
pub struct FourStarCounts {
    pub banner_a: u64,
    pub banner_b: u64,
    pub banner_c: u64,
    pub loss_character: u64,
    pub loss_light_cone: u64,
}

/// Five-star statistics of a run of pulls.
#[derive(Debug)]
pub struct FiveStarMetadata {
    /// Per pity count at which a five-star came, the five-stars by kind.
    pub pity_to_pulls: HashMap<u64, FiveStarCounts>,
    pub limited_pulls: u64,
    pub standard_pulls: u64,
    /// Pulls since the last five-star.
    pub pity: u64,
    /// Whether the last five-star was a standard one.
    pub next_guaranteed: bool,
    /// Limited five-stars that came without the guarantee.
    pub wins: u64,
    /// Standard five-stars.
    pub losses: u64,
    /// Limited five-stars that came with the guarantee.
    pub guaranteeds: u64,
}

/// What `FiveStarMetadata` holds, with the map as a mathematical map.
pub struct FiveStarTally {
    pub pity_to_pulls: Map<u64, FiveStarCounts>,
    pub limited_pulls: u64,
    pub standard_pulls: u64,
    pub pity: u64,
    pub next_guaranteed: bool,
    pub wins: u64,
    pub losses: u64,
    pub guaranteeds: u64,
}

impl View for FiveStarMetadata {
    type V = FiveStarTally;

    open spec fn view(&self) -> FiveStarTally {
        FiveStarTally {
            pity_to_pulls: self.pity_to_pulls@,
            limited_pulls: self.limited_pulls,
            standard_pulls: self.standard_pulls,
            pity: self.pity,
            next_guaranteed: self.next_guaranteed,
            wins: self.wins,
            losses: self.losses,
            guaranteeds: self.guaranteeds,
        }
    }
}

/// The five-star counts recorded at a pity count; none where nothing is recorded.
pub open spec fn five_counts_at(m: Map<u64, FiveStarCounts>, pity: u64) -> FiveStarCounts {
    if m.contains_key(pity) {
        m[pity]
    } else {
        FiveStarCounts { limited: 0, standard: 0 }
    }
}

/// Statistics before any five-star.
pub open spec fn empty_five_tally() -> FiveStarTally {
    FiveStarTally {
        pity_to_pulls: Map::empty(),
        limited_pulls: 0,
        standard_pulls: 0,
        pity: 0,
        next_guaranteed: false,
        wins: 0,
        losses: 0,
        guaranteeds: 0,
    }
}

/// Five-star statistics after one more five-star of the given kind: it is
/// counted at the current pity, as a win, a guaranteed one or a loss, and
/// the pity starts again.
pub open spec fn five_process(t: FiveStarTally, kind: FiveStarType) -> FiveStarTally {
    let c = five_counts_at(t.pity_to_pulls, t.pity);
    match kind {
        FiveStarType::Limited => FiveStarTally {
            pity_to_pulls: t.pity_to_pulls.insert(
                t.pity,
                FiveStarCounts { limited: (c.limited + 1) as u64, standard: c.standard },
            ),
            limited_pulls: (t.limited_pulls + 1) as u64,
            standard_pulls: t.standard_pulls,
            pity: 0,
            next_guaranteed: false,
            wins: if t.next_guaranteed {
                t.wins
            } else {
                (t.wins + 1) as u64
            },
            losses: t.losses,
            guaranteeds: if t.next_guaranteed {
                (t.guaranteeds + 1) as u64
            } else {
                t.guaranteeds
            },
        },
        FiveStarType::Standard => FiveStarTally {
            pity_to_pulls: t.pity_to_pulls.insert(
                t.pity,
                FiveStarCounts { limited: c.limited, standard: (c.standard + 1) as u64 },
            ),
            limited_pulls: t.limited_pulls,
            standard_pulls: (t.standard_pulls + 1) as u64,
            pity: 0,
            next_guaranteed: true,
            wins: t.wins,
            losses: (t.losses + 1) as u64,
            guaranteeds: t.guaranteeds,
        },
    }
}

/// Every count in the five-star statistics is at most `n`.
pub open spec fn five_tally_bounded(t: FiveStarTally, n: int) -> bool {
    &&& t.limited_pulls + t.standard_pulls <= n
    &&& t.wins + t.guaranteeds + t.losses <= n
    &&& forall|p: u64| #[trigger] t.pity_to_pulls.contains_key(p) ==> t.pity_to_pulls[p].limited
        + t.pity_to_pulls[p].standard <= n
}

impl FiveStarMetadata {
    fn new() -> (m: Self)
        ensures
            m@ == empty_five_tally(),
    {
        FiveStarMetadata {
            pity_to_pulls: HashMap::new(),
            limited_pulls: 0,
            standard_pulls: 0,
            pity: 0,
            next_guaranteed: false,
            wins: 0,
            losses: 0,
            guaranteeds: 0,
        }
    }

    /// All five-stars counted.
    pub fn total(&self) -> (total: u64)
        requires
            self.limited_pulls + self.standard_pulls <= u64::MAX,
        ensures
            total == self.limited_pulls + self.standard_pulls,
    {
        self.limited_pulls + self.standard_pulls
    }

    /// How many five-stars of the given kind came at the given pity count.
    pub fn _pity_of_type(&self, pity: u64, five_star: FiveStarType) -> (count: u64)
        ensures
            count == match five_star {
                FiveStarType::Limited => five_counts_at(self.pity_to_pulls@, pity).limited,
                FiveStarType::Standard => five_counts_at(self.pity_to_pulls@, pity).standard,
            },
    {
        match self.pity_to_pulls.get(&pity) {
            Some(counts) => match five_star {
                FiveStarType::Limited => counts.limited,
                FiveStarType::Standard => counts.standard,
            },
            None => 0,
        }
    }

    /// Records one more five-star.
    fn process(&mut self, five_star: FiveStarType)
        requires
            five_tally_bounded(old(self)@, u64::MAX - 1),
        ensures
            final(self)@ == five_process(old(self)@, five_star),
    {
        let mut counts = match self.pity_to_pulls.get(&self.pity) {
            Some(counts) => *counts,
            None => FiveStarCounts { limited: 0, standard: 0 },
        };
        assert(counts == five_counts_at(old(self)@.pity_to_pulls, old(self)@.pity));
        match five_star {
            FiveStarType::Limited => {
                counts.limited = counts.limited + 1;
                self.limited_pulls = self.limited_pulls + 1;
                if self.next_guaranteed {
                    self.guaranteeds = self.guaranteeds + 1;
                } else {
                    self.wins = self.wins + 1;
                }
                self.next_guaranteed = false;
            },
            FiveStarType::Standard => {
                counts.standard = counts.standard + 1;
                self.standard_pulls = self.standard_pulls + 1;
                self.losses = self.losses + 1;
                self.next_guaranteed = true;
            },
        }
        self.pity_to_pulls.insert(self.pity, counts);
        self.pity = 0;
    }
}

/// Four-star statistics of a run of pulls.
#[derive(Debug)]
pub struct FourStarMetadata {
    /// Per pity count at which a four-star came, the four-stars by kind.
    pub pity_to_pulls: HashMap<u64, FourStarCounts>,
    pub a_pulls: u64,
    pub b_pulls: u64,
    pub c_pulls: u64,
    pub character_non_banner_pulls: u64,
    pub light_cone_pulls: u64,
    /// Pulls since the last four-star.
    pub pity: u64,
    /// Never set by the recording: featured four-stars all count as wins.
    pub next_guaranteed: bool,
    /// Featured four-stars that came without the guarantee.
    pub wins: u64,
    /// Off-banner four-stars.
    pub losses: u64,
    /// Featured four-stars that came with the guarantee.
    pub guaranteeds: u64,
}

/// What `FourStarMetadata` holds, with the map as a mathematical map.
pub struct FourStarTally {
    pub pity_to_pulls: Map<u64, FourStarCounts>,
    pub a_pulls: u64,
    pub b_pulls: u64,
    pub c_pulls: u64,
    pub character_non_banner_pulls: u64,
    pub light_cone_pulls: u64,
    pub pity: u64,
    pub next_guaranteed: bool,
    pub wins: u64,
    pub losses: u64,
    pub guaranteeds: u64,
}

impl View for FourStarMetadata {
    type V = FourStarTally;

    open spec fn view(&self) -> FourStarTally {
        FourStarTally {
            pity_to_pulls: self.pity_to_pulls@,
            a_pulls: self.a_pulls,
            b_pulls: self.b_pulls,
            c_pulls: self.c_pulls,
            character_non_banner_pulls: self.character_non_banner_pulls,
            light_cone_pulls: self.light_cone_pulls,
            pity: self.pity,
            next_guaranteed: self.next_guaranteed,
            wins: self.wins,
            losses: self.losses,
            guaranteeds: self.guaranteeds,
        }
    }
}

/// The four-star counts recorded at a pity count; none where nothing is recorded.
pub open spec fn four_counts_at(m: Map<u64, FourStarCounts>, pity: u64) -> FourStarCounts {
    if m.contains_key(pity) {
        m[pity]
    } else {
        FourStarCounts { banner_a: 0, banner_b: 0, banner_c: 0, loss_character: 0, loss_light_cone: 0 }
    }
}

/// The count of one kind in four-star counts.
pub open spec fn four_count_of(c: FourStarCounts, kind: FourStarType) -> u64 {
    match kind {
        FourStarType::Banner(FourStarBanner::A) => c.banner_a,
        FourStarType::Banner(FourStarBanner::B) => c.banner_b,
        FourStarType::Banner(FourStarBanner::C) => c.banner_c,
        FourStarType::Loss(FourStarLoss::Character) => c.loss_character,
        FourStarType::Loss(FourStarLoss::LightCone) => c.loss_light_cone,
    }
}

/// The sum of all counts in four-star counts.
pub open spec fn four_counts_sum(c: FourStarCounts) -> int {
    c.banner_a + c.banner_b + c.banner_c + c.loss_character + c.loss_light_cone
}

/// Four-star counts with one more of the given kind.
pub open spec fn four_counts_add(c: FourStarCounts, kind: FourStarType) -> FourStarCounts {
    match kind {
        FourStarType::Banner(FourStarBanner::A) => FourStarCounts { banner_a: (c.banner_a + 1) as u64, ..c },
        FourStarType::Banner(FourStarBanner::B) => FourStarCounts { banner_b: (c.banner_b + 1) as u64, ..c },
        FourStarType::Banner(FourStarBanner::C) => FourStarCounts { banner_c: (c.banner_c + 1) as u64, ..c },
        FourStarType::Loss(FourStarLoss::Character) => FourStarCounts {
            loss_character: (c.loss_character + 1) as u64,
            ..c
        },
        FourStarType::Loss(FourStarLoss::LightCone) => FourStarCounts {
            loss_light_cone: (c.loss_light_cone + 1) as u64,
            ..c
        },
    }
}

/// Statistics before any four-star.
pub open spec fn empty_four_tally() -> FourStarTally {
    FourStarTally {
        pity_to_pulls: Map::empty(),
        a_pulls: 0,
        b_pulls: 0,
        c_pulls: 0,
        character_non_banner_pulls: 0,
        light_cone_pulls: 0,
        pity: 0,
        next_guaranteed: false,
        wins: 0,
        losses: 0,
        guaranteeds: 0,
    }
}

/// Four-star statistics after one more four-star of the given kind: it is
/// counted at the current pity and by kind, a featured one as a win or a
/// guaranteed one, an off-banner one as a loss, and the pity starts again.
pub open spec fn four_process(t: FourStarTally, kind: FourStarType) -> FourStarTally {
    let m = t.pity_to_pulls.insert(t.pity, four_counts_add(four_counts_at(t.pity_to_pulls, t.pity), kind));
    match kind {
        FourStarType::Banner(b) => FourStarTally {
            pity_to_pulls: m,
            a_pulls: if b == FourStarBanner::A { (t.a_pulls + 1) as u64 } else { t.a_pulls },
            b_pulls: if b == FourStarBanner::B { (t.b_pulls + 1) as u64 } else { t.b_pulls },
            c_pulls: if b == FourStarBanner::C { (t.c_pulls + 1) as u64 } else { t.c_pulls },
            pity: 0,
            wins: if t.next_guaranteed { t.wins } else { (t.wins + 1) as u64 },
            guaranteeds: if t.next_guaranteed { (t.guaranteeds + 1) as u64 } else { t.guaranteeds },
            ..t
        },
        FourStarType::Loss(l) => FourStarTally {
            pity_to_pulls: m,
            character_non_banner_pulls: if l == FourStarLoss::Character {
                (t.character_non_banner_pulls + 1) as u64
            } else {
                t.character_non_banner_pulls
            },
            light_cone_pulls: if l == FourStarLoss::LightCone {
                (t.light_cone_pulls + 1) as u64
            } else {
                t.light_cone_pulls
            },
            pity: 0,
            losses: (t.losses + 1) as u64,
            ..t
        },
    }
}

/// Every count in the four-star statistics is at most `n`.
pub open spec fn four_tally_bounded(t: FourStarTally, n: int) -> bool {
    &&& t.a_pulls + t.b_pulls + t.c_pulls + t.character_non_banner_pulls + t.light_cone_pulls <= n
    &&& t.wins + t.guaranteeds + t.losses <= n
    &&& forall|p: u64| #[trigger] t.pity_to_pulls.contains_key(p) ==> four_counts_sum(t.pity_to_pulls[p]) <= n
}

impl FourStarMetadata {
    fn new() -> (m: Self)
        ensures
            m@ == empty_four_tally(),
    {
        FourStarMetadata {
            pity_to_pulls: HashMap::new(),
            a_pulls: 0,
            b_pulls: 0,
            c_pulls: 0,
            character_non_banner_pulls: 0,
            light_cone_pulls: 0,
            pity: 0,
            next_guaranteed: false,
            wins: 0,
            losses: 0,
            guaranteeds: 0,
        }
    }

    /// Featured four-stars counted.
    pub fn banners(&self) -> (banners: u64)
        requires
            self.a_pulls + self.b_pulls + self.c_pulls <= u64::MAX,
        ensures
            banners == self.a_pulls + self.b_pulls + self.c_pulls,
    {
        self.a_pulls + self.b_pulls + self.c_pulls
    }

    /// Off-banner four-stars counted.
    pub fn non_banners(&self) -> (non_banners: u64)
        requires
            self.character_non_banner_pulls + self.light_cone_pulls <= u64::MAX,
        ensures
            non_banners == self.character_non_banner_pulls + self.light_cone_pulls,
    {
        self.character_non_banner_pulls + self.light_cone_pulls
    }

    /// All four-stars counted.
    pub fn total(&self) -> (total: u64)
        requires
            self.a_pulls + self.b_pulls + self.c_pulls + self.character_non_banner_pulls
                + self.light_cone_pulls <= u64::MAX,
        ensures
            total == self.a_pulls + self.b_pulls + self.c_pulls + self.character_non_banner_pulls
                + self.light_cone_pulls,
    {
        self.banners() + self.non_banners()
    }

    /// How many four-stars of the given kind came at the given pity count.
    pub fn pity_of_type(&self, pity: u64, four_star: FourStarType) -> (count: u64)
        ensures
            count == four_count_of(four_counts_at(self.pity_to_pulls@, pity), four_star),
    {
        match self.pity_to_pulls.get(&pity) {
            Some(counts) => match four_star {
                FourStarType::Banner(FourStarBanner::A) => counts.banner_a,
                FourStarType::Banner(FourStarBanner::B) => counts.banner_b,
                FourStarType::Banner(FourStarBanner::C) => counts.banner_c,
                FourStarType::Loss(FourStarLoss::Character) => counts.loss_character,
                FourStarType::Loss(FourStarLoss::LightCone) => counts.loss_light_cone,
            },
            None => 0,
        }
    }

    /// Records one more four-star.
    fn process(&mut self, four_star: FourStarType)
        requires
            four_tally_bounded(old(self)@, u64::MAX - 1),
        ensures
            final(self)@ == four_process(old(self)@, four_star),
    {
        let mut counts = match self.pity_to_pulls.get(&self.pity) {
            Some(counts) => *counts,
            None => FourStarCounts { banner_a: 0, banner_b: 0, banner_c: 0, loss_character: 0, loss_light_cone: 0 },
        };
        assert(counts == four_counts_at(old(self)@.pity_to_pulls, old(self)@.pity));
        match four_star {
            FourStarType::Banner(banner) => {
                if self.next_guaranteed {
                    self.guaranteeds = self.guaranteeds + 1;
                } else {
                    self.wins = self.wins + 1;
                }
                match banner {
                    FourStarBanner::A => {
                        self.a_pulls = self.a_pulls + 1;
                        counts.banner_a = counts.banner_a + 1;
                    },
                    FourStarBanner::B => {
                        self.b_pulls = self.b_pulls + 1;
                        counts.banner_b = counts.banner_b + 1;
                    },
                    FourStarBanner::C => {
                        self.c_pulls = self.c_pulls + 1;
                        counts.banner_c = counts.banner_c + 1;
                    },
                }
            },
            FourStarType::Loss(loss) => {
                self.losses = self.losses + 1;
                match loss {
                    FourStarLoss::Character => {
                        self.character_non_banner_pulls = self.character_non_banner_pulls + 1;
                        counts.loss_character = counts.loss_character + 1;
                    },
                    FourStarLoss::LightCone => {
                        self.light_cone_pulls = self.light_cone_pulls + 1;
                        counts.loss_light_cone = counts.loss_light_cone + 1;
                    },
                }
            },
        }
        self.pity_to_pulls.insert(self.pity, counts);
        self.pity = 0;
    }
}

/// The statistics of both tiers.
pub struct HistoryTally {
    pub five: FiveStarTally,
    pub four: FourStarTally,
}

/// The statistics after one more pull: both pities go up, then the pull is
/// recorded in its tier.
pub open spec fn history_step(h: HistoryTally, outcome: PullOutcome) -> HistoryTally {
    let five = FiveStarTally { pity: (h.five.pity + 1) as u64, ..h.five };
    let four = FourStarTally { pity: (h.four.pity + 1) as u64, ..h.four };
    match outcome {
        PullOutcome::FiveStar(kind) => HistoryTally { five: five_process(five, kind), four },
        PullOutcome::FourStar(kind) => HistoryTally { five, four: four_process(four, kind) },
        PullOutcome::ThreeStar => HistoryTally { five, four },
    }
}

/// The statistics of a run of pulls.
pub open spec fn history_tally(outcomes: Seq<PullOutcome>) -> HistoryTally
    decreases outcomes.len(),
{
    if outcomes.len() == 0 {
        HistoryTally { five: empty_five_tally(), four: empty_four_tally() }
    } else {
        history_step(history_tally(outcomes.drop_last()), outcomes.last())
    }
}

/// No count of a run's statistics exceeds the number of pulls.
pub proof fn lemma_history_tally_bounded(outcomes: Seq<PullOutcome>)
    requires
        outcomes.len() <= u64::MAX,
    ensures
        five_tally_bounded(history_tally(outcomes).five, outcomes.len() as int),
        four_tally_bounded(history_tally(outcomes).four, outcomes.len() as int),
        history_tally(outcomes).five.pity <= outcomes.len(),
        history_tally(outcomes).four.pity <= outcomes.len(),
    decreases outcomes.len(),
{
    if outcomes.len() > 0 {
        let prev = outcomes.drop_last();
        lemma_history_tally_bounded(prev);
        let h = history_tally(prev);
        let n = outcomes.len() as int;
        let five = FiveStarTally { pity: (h.five.pity + 1) as u64, ..h.five };
        let four = FourStarTally { pity: (h.four.pity + 1) as u64, ..h.four };
        match outcomes.last() {
            PullOutcome::FiveStar(kind) => {
                let t = five_process(five, kind);
                assert forall|p: u64| #[trigger] t.pity_to_pulls.contains_key(p) implies t.pity_to_pulls[p].limited
                    + t.pity_to_pulls[p].standard <= n by {
                    if p != five.pity {
                        assert(h.five.pity_to_pulls.contains_key(p));
                    }
                }
            },
            PullOutcome::FourStar(kind) => {
                let t = four_process(four, kind);
                assert forall|p: u64| #[trigger] t.pity_to_pulls.contains_key(p) implies four_counts_sum(
                    t.pity_to_pulls[p],
                ) <= n by {
                    if p != four.pity {
                        assert(h.four.pity_to_pulls.contains_key(p));
                    }
                }
            },
            PullOutcome::ThreeStar => {},
        }
    }
}

/// The number of five-stars in a run.
pub open spec fn count_five_stars(outcomes: Seq<PullOutcome>) -> int
    decreases outcomes.len(),
{
    if outcomes.len() == 0 {
        0
    } else {
        count_five_stars(outcomes.drop_last()) + if outcomes.last() is FiveStar {
            1int
        } else {
            0int
        }
    }
}

/// The number of four-stars in a run.
pub open spec fn count_four_stars(outcomes: Seq<PullOutcome>) -> int
    decreases outcomes.len(),
{
    if outcomes.len() == 0 {
        0
    } else {
        count_four_stars(outcomes.drop_last()) + if outcomes.last() is FourStar {
            1int
        } else {
            0int
        }
    }
}

/// The five-star statistics count every five-star of the run exactly once:
/// limited and standard ones add up to the five-stars; the limited ones are
/// the wins and the guaranteed ones; the standard ones are the losses.
pub proof fn law_five_star_statistics_add_up(outcomes: Seq<PullOutcome>)
    requires
        outcomes.len() <= u64::MAX,
    ensures
        ({
            let t = history_tally(outcomes).five;
            &&& t.limited_pulls + t.standard_pulls == count_five_stars(outcomes)
            &&& t.wins + t.guaranteeds == t.limited_pulls
            &&& t.losses == t.standard_pulls
        }),
    decreases outcomes.len(),
{
    if outcomes.len() > 0 {
        lemma_history_tally_bounded(outcomes.drop_last());
        law_five_star_statistics_add_up(outcomes.drop_last());
    }
}

/// The four-star statistics count every four-star of the run exactly once:
/// the kinds add up to the four-stars; the featured ones are the wins and the
/// guaranteed ones; the off-banner ones are the losses.
pub proof fn law_four_star_statistics_add_up(outcomes: Seq<PullOutcome>)
    requires
        outcomes.len() <= u64::MAX,
    ensures
        ({
            let t = history_tally(outcomes).four;
            &&& t.a_pulls + t.b_pulls + t.c_pulls + t.character_non_banner_pulls + t.light_cone_pulls
                == count_four_stars(outcomes)
            &&& t.wins + t.guaranteeds == t.a_pulls + t.b_pulls + t.c_pulls
            &&& t.losses == t.character_non_banner_pulls + t.light_cone_pulls
        }),
    decreases outcomes.len(),
{
    if outcomes.len() > 0 {
        lemma_history_tally_bounded(outcomes.drop_last());
        law_four_star_statistics_add_up(outcomes.drop_last());
    }
}

/// The five-star pity of the statistics is the number of pulls since the
/// last five-star, or since the start.
pub proof fn law_five_star_pity_counts_pulls_since_last(outcomes: Seq<PullOutcome>)
    requires
        outcomes.len() <= u64::MAX,
    ensures
        ({
            let p = history_tally(outcomes).five.pity as int;
            &&& p <= outcomes.len()
            &&& forall|i: int| outcomes.len() - p <= i < outcomes.len() ==> !(#[trigger] outcomes[i] is FiveStar)
            &&& p < outcomes.len() ==> outcomes[outcomes.len() - p - 1] is FiveStar
        }),
    decreases outcomes.len(),
{
    if outcomes.len() > 0 {
        let prev = outcomes.drop_last();
        lemma_history_tally_bounded(prev);
        law_five_star_pity_counts_pulls_since_last(prev);
        assert forall|i: int| 0 <= i < prev.len() implies #[trigger] outcomes[i] == prev[i] by {}
    }
}

/// The kind of the last five-star of a run, if it has one.
pub open spec fn last_five_star(outcomes: Seq<PullOutcome>) -> Option<FiveStarType>
    decreases outcomes.len(),
{
    if outcomes.len() == 0 {
        None
    } else {
        match outcomes.last() {
            PullOutcome::FiveStar(kind) => Some(kind),
            _ => last_five_star(outcomes.drop_last()),
        }
    }
}

/// The number of limited five-stars of a run whose previous five-star was
/// standard (`after_loss`), or that are the first five-star or follow a
/// limited one (`!after_loss`).
pub open spec fn count_limited(outcomes: Seq<PullOutcome>, after_loss: bool) -> int
    decreases outcomes.len(),
{
    if outcomes.len() == 0 {
        0
    } else {
        count_limited(outcomes.drop_last(), after_loss) + if outcomes.last() == PullOutcome::FiveStar(
            FiveStarType::Limited,
        ) && (last_five_star(outcomes.drop_last()) == Some(FiveStarType::Standard)) == after_loss {
            1int
        } else {
            0int
        }
    }
}

/// The guaranteed five-stars of a run are exactly the limited ones whose
/// previous five-star was standard; the wins are the limited ones that are
/// the first five-star or follow a limited one; and the next five-star is
/// counted as guaranteed exactly when the last five-star was standard.
pub proof fn law_wins_and_guaranteeds_follow_the_last_five_star(outcomes: Seq<PullOutcome>)
    requires
        outcomes.len() <= u64::MAX,
    ensures
        ({
            let t = history_tally(outcomes).five;
            &&& t.guaranteeds == count_limited(outcomes, true)
            &&& t.wins == count_limited(outcomes, false)
            &&& t.next_guaranteed == (last_five_star(outcomes) == Some(FiveStarType::Standard))
        }),
    decreases outcomes.len(),
{
    if outcomes.len() > 0 {
        lemma_history_tally_bounded(outcomes.drop_last());
        law_wins_and_guaranteeds_follow_the_last_five_star(outcomes.drop_last());
    }
}

/// A row of the five-star pity listing: the pity count, the five-stars at
/// it, then the limited and the standard ones among them.
pub open spec fn pity_row(m: Map<u64, FiveStarCounts>, pity: u64) -> (u64, u64, u64, u64) {
    let c = five_counts_at(m, pity);
    (pity, (c.limited + c.standard) as u64, c.limited, c.standard)
}

/// The five-star pity listing: one row for each pity count at which a
/// five-star came, by increasing pity count.
pub fn five_star_pity_rows(metadata: &FiveStarMetadata) -> (rows: Vec<(u64, u64, u64, u64)>)
    requires
        forall|p: u64| #[trigger] metadata.pity_to_pulls@.contains_key(p) ==> metadata.pity_to_pulls@[p].limited
            + metadata.pity_to_pulls@[p].standard <= u64::MAX,
    ensures
        forall|i: int, j: int| 0 <= i < j < rows.len() ==> rows[i].0 < rows[j].0,
        forall|i: int|
            0 <= i < rows.len() ==> metadata.pity_to_pulls@.contains_key(#[trigger] rows[i].0) && rows[i]
                == pity_row(metadata.pity_to_pulls@, rows[i].0),
        forall|i: int|
            0 <= i < rows.len() ==> {
                &&& #[trigger] rows[i].2 == metadata.pity_to_pulls@[rows[i].0].limited
                &&& rows[i].3 == metadata.pity_to_pulls@[rows[i].0].standard
                &&& rows[i].1 == rows[i].2 + rows[i].3
            },
        forall|p: u64|
            #[trigger] metadata.pity_to_pulls@.contains_key(p) ==> exists|i: int|
                0 <= i < rows.len() && #[trigger] rows[i].0 == p,
{
    let ghost m = metadata.pity_to_pulls@;
    let total = metadata.pity_to_pulls.len();
    let mut rows: Vec<(u64, u64, u64, u64)> = Vec::new();
    let ghost mut listed: Set<u64> = Set::empty();
    let mut p: u64 = 0;
    loop
        invariant_except_break
            forall|i: int| 0 <= i < rows.len() ==> #[trigger] rows[i].0 < p,
        invariant
            total == m.len(),
            m == metadata.pity_to_pulls@,
            m.dom().finite(),
            forall|q: u64| #[trigger] m.contains_key(q) ==> m[q].limited + m[q].standard <= u64::MAX,
            forall|i: int, j: int| 0 <= i < j < rows.len() ==> rows[i].0 < rows[j].0,
            forall|i: int|
                0 <= i < rows.len() ==> m.contains_key(#[trigger] rows[i].0) && rows[i] == pity_row(m, rows[i].0),
            forall|q: u64| #[trigger] listed.contains(q) ==> exists|i: int| 0 <= i < rows.len() && #[trigger] rows[i].0 == q,
            forall|i: int| 0 <= i < rows.len() ==> listed.contains(#[trigger] rows[i].0),
            listed.finite(),
            listed.len() == rows.len(),
            listed.subset_of(m.dom()),
            forall|q: u64| q < p && #[trigger] m.contains_key(q) ==> listed.contains(q),
        ensures
            forall|q: u64| #[trigger] m.contains_key(q) ==> listed.contains(q),
        decreases u64::MAX - p,
    {
        match metadata.pity_to_pulls.get(&p) {
            Some(counts) => {
                let ghost before = rows@;
                let ghost listed_before = listed;
                proof {
                    assert(!listed.contains(p));
                    listed = listed.insert(p);
                }
                rows.push((p, counts.limited + counts.standard, counts.limited, counts.standard));
                proof {
                    assert forall|q: u64| #[trigger] listed.contains(q) implies exists|i: int|
                        0 <= i < rows.len() && #[trigger] rows[i].0 == q by {
                        if q == p {
                            assert(rows[rows.len() - 1].0 == p);
                        } else {
                            assert(listed_before.contains(q));
                            let i = choose|i: int| 0 <= i < before.len() && #[trigger] before[i].0 == q;
                            assert(rows[i].0 == q);
                        }
                    }
                }
            },
            None => {},
        }
        if rows.len() == total {
            proof {
                vstd::set_lib::lemma_subset_equality(listed, m.dom());
            }
            break;
        }
        if p == u64::MAX {
            break;
        }
        p = p + 1;
    }
    rows
}

/// A record of pulls, with the statistics of each tier kept up to date.
#[derive(Debug)]
pub struct PullHistory {
    pulls: Vec<PullOutcome>,
    five_star_metadata: FiveStarMetadata,
    four_star_metadata: FourStarMetadata,
}

impl PullHistory {
    /// The pulls recorded, in order.
    pub closed spec fn outcomes(&self) -> Seq<PullOutcome> {
        self.pulls@
    }

    /// The statistics are those of the recorded pulls.
    pub closed spec fn well_formed(&self) -> bool {
        &&& self.five_star_metadata@ == history_tally(self.pulls@).five
        &&& self.four_star_metadata@ == history_tally(self.pulls@).four
    }

    /// An empty record.
    pub fn new() -> (history: Self)
        ensures
            history.well_formed(),
            history.outcomes() == Seq::<PullOutcome>::empty(),
    {
        PullHistory {
            pulls: Vec::new(),
            five_star_metadata: FiveStarMetadata::new(),
            four_star_metadata: FourStarMetadata::new(),
        }
    }

    /// Records one more pull.
    pub fn add(&mut self, pull: PullOutcome)
        requires
            old(self).well_formed(),
        ensures
            final(self).well_formed(),
            final(self).outcomes() == old(self).outcomes().push(pull),
    {
        let ghost before = self.pulls@;
        self.pulls.push(pull);
        proof {
            assert(self.pulls.len() == self.pulls@.len());
            lemma_history_tally_bounded(before);
            assert(self.pulls@.drop_last() == before);
        }
        self.five_star_metadata.pity = self.five_star_metadata.pity + 1;
        self.four_star_metadata.pity = self.four_star_metadata.pity + 1;
        match pull {
            PullOutcome::FiveStar(five_star) => self.five_star_metadata.process(five_star),
            PullOutcome::FourStar(four_star) => self.four_star_metadata.process(four_star),
            PullOutcome::ThreeStar => {},
        }
    }

    /// The number of pulls recorded.
    pub fn total_count(&self) -> (count: u64)
        ensures
            count == self.outcomes().len(),
    {
        self.pulls.len() as u64
    }

    /// The five-star statistics of the recorded pulls.
    pub fn five_star_metadata(&self) -> (metadata: &FiveStarMetadata)
        requires
            self.well_formed(),
        ensures
            metadata@ == history_tally(self.outcomes()).five,
            five_tally_bounded(metadata@, self.outcomes().len() as int),
            self.outcomes().len() <= usize::MAX,
    {
        proof {
            assert(self.pulls.len() == self.pulls@.len());
            lemma_history_tally_bounded(self.pulls@);
        }
        &self.five_star_metadata
    }

    /// The four-star statistics of the recorded pulls.
    pub fn four_star_metadata(&self) -> (metadata: &FourStarMetadata)
        requires
            self.well_formed(),
        ensures
            metadata@ == history_tally(self.outcomes()).four,
            four_tally_bounded(metadata@, self.outcomes().len() as int),
            self.outcomes().len() <= usize::MAX,
    {
        proof {
            assert(self.pulls.len() == self.pulls@.len());
            lemma_history_tally_bounded(self.pulls@);
        }
        &self.four_star_metadata
    }
}

} // verus!
