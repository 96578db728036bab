//! The pulling state machine: pity counters per tier, soft and hard pity,
//! and the guarantee that follows a lost banner roll.
use vstd::prelude::*;
use rand::rngs::ThreadRng;
use crate::enums::{FiveStarType, FourStarBanner, FourStarLoss, FourStarType, PullOutcome, Rarity};
use crate::roll::{draw_index, draw_roll, roll_hits, roll_hits_rate, RATE_SCALE};
use crate::roll::{lemma_roll_hits_extremes, lemma_roll_hits_monotonic};
use crate::settings::{GachaSettings, RaritySettings, SoftPitySettings};

verus! {

/// The pity of one tier: pulls since its last hit, and, where the tier has
/// a guarantee, whether the next hit is guaranteed to be a banner one.
#[derive(Debug, PartialEq, Eq, Structural, Copy, Clone)]
pub struct PityState {
    pub guaranteed: Option<bool>,
    pub current: u64,
}

impl PityState {
    /// A fresh pity: no pulls yet, and no guarantee earned.
    pub open spec fn initial(settings: RaritySettings) -> PityState {
        PityState {
            guaranteed: if settings.guarantee_enabled {
                Some(false)
            } else {
                None
            },
            current: 0,
        }
    }

    /// The pity after one more pull; the count stops at its maximum.
    pub open spec fn incremented(self) -> PityState {
        PityState {
            guaranteed: self.guaranteed,
            current: if self.current == u64::MAX {
                u64::MAX
            } else {
                (self.current + 1) as u64
            },
        }
    }

    /// A fresh pity for a tier with these settings.
    pub fn from_rarity_settings(settings: &RaritySettings) -> (state: Self)
        ensures
            state == PityState::initial(*settings),
    {
        PityState {
            guaranteed: if settings.guarantee_enabled {
                Some(false)
            } else {
                None
            },
            current: 0,
        }
    }

    /// Counts one more pull.
    pub fn increment(&mut self)
        ensures
            *final(self) == old(self).incremented(),
    {
        self.current = self.current.saturating_add(1);
    }

    /// Starts the count again after a hit.
    pub fn reset_pity(&mut self)
        ensures
            *final(self) == (PityState { guaranteed: old(self).guaranteed, current: 0 }),
    {
        self.current = 0;
    }
}

/// What a `GachaState` holds: the pity of each tier and the rules.
#[derive(Debug, PartialEq, Eq, Structural, Copy, Clone)]
pub struct GachaView {
    pub five_star: PityState,
    pub four_star: PityState,
    pub settings: GachaSettings,
}

/// One value taken from the generator: a raw 64-bit roll, or an index
/// drawn from a range.
#[derive(Debug, PartialEq, Eq, Structural, Copy, Clone)]
pub enum Draw {
    Roll(u64),
    Index(u32),
}

/// A pulling session on one banner. Besides the pities and the rules, it
/// keeps, as ghost state, every value it has taken from a generator, in order.
pub struct GachaState {
    five_star_state: PityState,
    four_star_state: PityState,
    settings: GachaSettings,
    draws: Ghost<Seq<Draw>>,
}

impl View for GachaState {
    type V = GachaView;

    closed spec fn view(&self) -> GachaView {
        GachaView {
            five_star: self.five_star_state,
            four_star: self.four_star_state,
            settings: self.settings,
        }
    }
}

/// The pity of a tier.
pub open spec fn tier_state(v: GachaView, rarity: Rarity) -> PityState {
    match rarity {
        Rarity::FiveStar => v.five_star,
        _ => v.four_star,
    }
}

/// The rules of a tier.
pub open spec fn tier_settings(s: GachaSettings, rarity: Rarity) -> RaritySettings {
    match rarity {
        Rarity::FiveStar => s.five_star_settings,
        _ => s.four_star_settings,
    }
}

/// The tier's hard pity has been reached.
pub open spec fn hard_pity_reached(p: PityState, rs: RaritySettings) -> bool {
    match rs.hard_pity {
        Some(h) => p.current >= h,
        None => false,
    }
}

/// The tier's rate at this pity, in billionths: the base rate, plus, from the
/// start of soft pity on, the increase once for each pull since one before
/// that start.
pub open spec fn tier_rate(p: PityState, rs: RaritySettings) -> int {
    match rs.soft_pity_settings {
        Some(sp) => if p.current >= sp.pity_start {
            rs.base_rate + sp.rate_increase * (p.current - (sp.pity_start - 1))
        } else {
            rs.base_rate as int
        },
        None => rs.base_rate as int,
    }
}

/// The sum of two rates, where a rate of certainty or more makes the sum certainty.
pub open spec fn capped_sum(a: int, b: int) -> int {
    if a >= RATE_SCALE || b >= RATE_SCALE {
        RATE_SCALE as int
    } else {
        a + b
    }
}

/// Capping a sum of rates at certainty changes no comparison with a roll.
proof fn lemma_capped_sum_hits_alike(roll: u64, a: int, b: int)
    requires
        a >= 0,
        b >= 0,
    ensures
        roll_hits(roll, capped_sum(a, b)) == roll_hits(roll, a + b),
{
    lemma_roll_hits_extremes(roll, RATE_SCALE as int);
    if a >= RATE_SCALE || b >= RATE_SCALE {
        lemma_roll_hits_monotonic(roll, RATE_SCALE as int, a + b);
    }
}

/// The sum of two rates, capped at certainty once either rate reaches it.
fn combined_rate(a: u128, b: u128) -> (rate: u128)
    ensures
        rate == capped_sum(a as int, b as int),
{
    if a >= RATE_SCALE as u128 || b >= RATE_SCALE as u128 {
        RATE_SCALE as u128
    } else {
        a + b
    }
}

/// The rates that a pull from `v` computes can be computed: a tier whose
/// soft pity starts at zero would underflow, so such a tier's rate must not
/// be needed. The five-star rate is needed unless the five-star hard pity is
/// reached; the four-star rate unless either hard pity is reached.
pub open spec fn pull_rates_computable(v: GachaView) -> bool {
    let c = counted(v);
    let fs = c.settings.five_star_settings;
    let qs = c.settings.four_star_settings;
    &&& fs.well_formed() || hard_pity_reached(c.five_star, fs)
    &&& qs.well_formed() || hard_pity_reached(c.five_star, fs) || hard_pity_reached(c.four_star, qs)
}

/// Soft pity, where there is one, starts at a pity count of one or more.
fn soft_pity_well_formed(settings: &RaritySettings) -> (ok: bool)
    ensures
        ok == settings.well_formed(),
{
    match settings.soft_pity_settings {
        Some(soft_pity_settings) => soft_pity_settings.pity_start >= 1,
        None => true,
    }
}

/// The hard pity of a tier is reached at the pity count after one more pull.
fn hard_pity_reached_after_pull(state: &PityState, settings: &RaritySettings) -> (reached: bool)
    ensures
        reached == hard_pity_reached(state.incremented(), *settings),
{
    let next = state.current.saturating_add(1);
    match settings.hard_pity {
        Some(hard_pity) => next >= hard_pity,
        None => false,
    }
}

/// The draws that one pull may use, each taken at most once and in this
/// order of need: the rarity roll; for a five-star, the banner roll; for a
/// four-star, a coin in `0..2`, a banner roll and a pick in `0..3`.
/// A pull leaves unread the draws that its path does not need.
#[derive(Debug, PartialEq, Eq, Structural, Copy, Clone)]
pub struct PullDraws {
    pub rarity_roll: u64,
    pub five_star_roll: u64,
    pub four_star_coin: u32,
    pub four_star_roll: u64,
    pub four_star_pick: u32,
}

impl PullDraws {
    /// The bounded draws lie in their ranges.
    pub open spec fn in_range(self) -> bool {
        self.four_star_coin < 2 && self.four_star_pick < 3
    }
}

/// An unguaranteed five-star is the limited one when the banner roll hits
/// the banner rate; without a banner rate it is a standard one.
pub open spec fn rolled_five_star(banner_rate: Option<u64>, roll: u64) -> FiveStarType {
    match banner_rate {
        Some(rate) => if roll_hits(roll, rate as int) {
            FiveStarType::Limited
        } else {
            FiveStarType::Standard
        },
        None => FiveStarType::Standard,
    }
}

/// The five-star that a pull gives: the limited one when guaranteed.
pub open spec fn five_star_kind(p: PityState, rs: RaritySettings, roll: u64) -> FiveStarType {
    if p.guaranteed == Some(true) {
        FiveStarType::Limited
    } else {
        rolled_five_star(rs.banner_rate, roll)
    }
}

/// The five-star pity after a five-star: count reset, and, where there is a
/// guarantee, it is earned exactly by a standard five-star.
pub open spec fn after_five_star(p: PityState, kind: FiveStarType) -> PityState {
    PityState {
        guaranteed: match p.guaranteed {
            Some(_) => Some(kind == FiveStarType::Standard),
            None => None,
        },
        current: 0,
    }
}

/// The featured four-star that a pick in `0..3` names.
pub open spec fn picked_banner(pick: u32) -> FourStarBanner {
    if pick == 0 {
        FourStarBanner::A
    } else if pick == 1 {
        FourStarBanner::B
    } else {
        FourStarBanner::C
    }
}

/// An unguaranteed four-star: coin 1 is an off-banner light cone; coin 0 is a
/// featured one when there is a banner rate and the banner roll hits it,
/// else an off-banner character.
pub open spec fn rolled_four_star(banner_rate: Option<u64>, coin: u32, roll: u64, pick: u32) -> FourStarType {
    if coin == 0 {
        match banner_rate {
            Some(rate) => if roll_hits(roll, rate as int) {
                FourStarType::Banner(picked_banner(pick))
            } else {
                FourStarType::Loss(FourStarLoss::Character)
            },
            None => FourStarType::Loss(FourStarLoss::Character),
        }
    } else {
        FourStarType::Loss(FourStarLoss::LightCone)
    }
}

/// The four-star that a pull gives: a featured one when guaranteed.
pub open spec fn four_star_kind(p: PityState, rs: RaritySettings, coin: u32, roll: u64, pick: u32) -> FourStarType {
    if p.guaranteed == Some(true) {
        FourStarType::Banner(picked_banner(pick))
    } else {
        rolled_four_star(rs.banner_rate, coin, roll, pick)
    }
}

/// The four-star pity after a four-star: count reset, and, where there is a
/// guarantee, it is earned exactly by an off-banner four-star.
pub open spec fn after_four_star(p: PityState, kind: FourStarType) -> PityState {
    PityState {
        guaranteed: match p.guaranteed {
            Some(_) => Some(kind is Loss),
            None => None,
        },
        current: 0,
    }
}

/// Both pities after one more pull, before the tier is decided.
pub open spec fn counted(v: GachaView) -> GachaView {
    GachaView { five_star: v.five_star.incremented(), four_star: v.four_star.incremented(), settings: v.settings }
}

/// A five-star pull from the counted state `c`.
pub open spec fn five_star_pull(c: GachaView, d: PullDraws) -> (PullOutcome, GachaView) {
    let kind = five_star_kind(c.five_star, c.settings.five_star_settings, d.five_star_roll);
    (PullOutcome::FiveStar(kind), GachaView { five_star: after_five_star(c.five_star, kind), ..c })
}

/// A four-star pull from the counted state `c`.
pub open spec fn four_star_pull(c: GachaView, d: PullDraws) -> (PullOutcome, GachaView) {
    let kind = four_star_kind(
        c.four_star,
        c.settings.four_star_settings,
        d.four_star_coin,
        d.four_star_roll,
        d.four_star_pick,
    );
    (PullOutcome::FourStar(kind), GachaView { four_star: after_four_star(c.four_star, kind), ..c })
}

/// The tier that a rarity roll gives from the counted state `c` when the
/// five-star hard pity is not reached.
pub open spec fn rolled_rarity(c: GachaView, roll: u64) -> Rarity {
    let fs = c.settings.five_star_settings;
    let qs = c.settings.four_star_settings;
    let five_rate = tier_rate(c.five_star, fs);
    if roll_hits(roll, five_rate) {
        Rarity::FiveStar
    } else if hard_pity_reached(c.four_star, qs) || roll_hits(roll, five_rate + tier_rate(c.four_star, qs)) {
        Rarity::FourStar
    } else {
        Rarity::ThreeStar
    }
}

/// One pull: both counts go up; a five-star at its hard pity or when the
/// rarity roll hits the five-star rate; else a four-star at its hard pity or
/// when the roll hits the sum of both rates; else a three-star.
pub open spec fn pull_spec(v: GachaView, d: PullDraws) -> (PullOutcome, GachaView) {
    let c = counted(v);
    let fs = c.settings.five_star_settings;
    let qs = c.settings.four_star_settings;
    let five_rate = tier_rate(c.five_star, fs);
    if hard_pity_reached(c.five_star, fs) || roll_hits(d.rarity_roll, five_rate) {
        five_star_pull(c, d)
    } else if hard_pity_reached(c.four_star, qs) || roll_hits(
        d.rarity_roll,
        five_rate + tier_rate(c.four_star, qs),
    ) {
        four_star_pull(c, d)
    } else {
        (PullOutcome::ThreeStar, c)
    }
}

/// A pull from `v` can give `outcome` and leave `w`: some in-range draws
/// lead there.
pub open spec fn pull_link(v: GachaView, outcome: PullOutcome, w: GachaView) -> bool {
    exists|d: PullDraws| d.in_range() && #[trigger] pull_spec(v, d) == (outcome, w)
}

/// The draws that a five-star pull takes: its banner roll, when it is not
/// guaranteed and the tier has a banner rate; none otherwise.
pub open spec fn five_star_draws(p: PityState, rs: RaritySettings, roll: u64) -> Seq<Draw> {
    if p.guaranteed != Some(true) && rs.banner_rate is Some {
        seq![Draw::Roll(roll)]
    } else {
        Seq::empty()
    }
}

/// The draws that an unguaranteed four-star pull takes: the coin; on 0 with a
/// banner rate, the banner roll; on a hit, the pick.
pub open spec fn rolled_four_star_draws(banner_rate: Option<u64>, coin: u32, roll: u64, pick: u32) -> Seq<Draw> {
    match banner_rate {
        Some(rate) => if coin == 0 {
            if roll_hits(roll, rate as int) {
                seq![Draw::Index(coin), Draw::Roll(roll), Draw::Index(pick)]
            } else {
                seq![Draw::Index(coin), Draw::Roll(roll)]
            }
        } else {
            seq![Draw::Index(coin)]
        },
        None => seq![Draw::Index(coin)],
    }
}

/// The draws that a four-star pull takes: only the pick when guaranteed.
pub open spec fn four_star_draws(p: PityState, rs: RaritySettings, coin: u32, roll: u64, pick: u32) -> Seq<Draw> {
    if p.guaranteed == Some(true) {
        seq![Draw::Index(pick)]
    } else {
        rolled_four_star_draws(rs.banner_rate, coin, roll, pick)
    }
}

/// The draws, in order, that a pull from `v` with the draws `d` takes from
/// the generator: none for the tier at the five-star hard pity, else the
/// rarity roll; then those of the tier's kind.
pub open spec fn pull_draws(v: GachaView, d: PullDraws) -> Seq<Draw> {
    let c = counted(v);
    let fs = c.settings.five_star_settings;
    let qs = c.settings.four_star_settings;
    let five = five_star_draws(c.five_star, fs, d.five_star_roll);
    let four = four_star_draws(c.four_star, qs, d.four_star_coin, d.four_star_roll, d.four_star_pick);
    if hard_pity_reached(c.five_star, fs) {
        five
    } else {
        seq![Draw::Roll(d.rarity_roll)] + match rolled_rarity(c, d.rarity_roll) {
            Rarity::FiveStar => five,
            Rarity::FourStar => four,
            Rarity::ThreeStar => Seq::empty(),
        }
    }
}

/// A well-formed tier's rate is at least its base rate.
proof fn lemma_tier_rate_at_least_base(p: PityState, rs: RaritySettings)
    requires
        rs.well_formed(),
    ensures
        tier_rate(p, rs) >= rs.base_rate,
{
    if let Some(sp) = rs.soft_pity_settings {
        if p.current >= sp.pity_start {
            let n: int = p.current - (sp.pity_start - 1);
            assert(sp.rate_increase * n >= 0) by (nonlinear_arith)
                requires
                    n >= 0,
                    sp.rate_increase >= 0,
            ;
        }
    }
}

/// The featured four-star that a pick in `0..3` names.
pub fn banner_for_pick(pick: u32) -> (banner: FourStarBanner)
    requires
        pick < 3,
    ensures
        banner == picked_banner(pick),
{
    match pick {
        0 => FourStarBanner::A,
        1 => FourStarBanner::B,
        _ => FourStarBanner::C,
    }
}

impl GachaState {
    /// A session that has not pulled yet.
    pub fn new(settings: GachaSettings) -> (state: Self)
        ensures
            state@ == (GachaView {
                five_star: PityState::initial(settings.five_star_settings),
                four_star: PityState::initial(settings.four_star_settings),
                settings,
            }),
            state.drawn() == Seq::<Draw>::empty(),
    {
        GachaState {
            five_star_state: PityState::from_rarity_settings(&settings.five_star_settings),
            four_star_state: PityState::from_rarity_settings(&settings.four_star_settings),
            settings,
            draws: Ghost(Seq::empty()),
        }
    }


    /// Every value this session has taken from a generator, in order.
    pub closed spec fn drawn(&self) -> Seq<Draw> {
        self.draws@
    }

    /// Takes a raw roll from the generator and records it.
    fn take_roll(&mut self, rng: &mut ThreadRng) -> (roll: u64)
        ensures
            final(self)@ == old(self)@,
            final(self).drawn() == old(self).drawn().push(Draw::Roll(roll)),
    {
        let roll = draw_roll(rng);
        self.draws = Ghost(self.draws@.push(Draw::Roll(roll)));
        roll
    }

    /// Takes an index in `0..n` from the generator and records it.
    fn take_index(&mut self, rng: &mut ThreadRng, n: u32) -> (index: u32)
        requires
            n > 0,
        ensures
            index < n,
            final(self)@ == old(self)@,
            final(self).drawn() == old(self).drawn().push(Draw::Index(index)),
    {
        let index = draw_index(rng, n);
        self.draws = Ghost(self.draws@.push(Draw::Index(index)));
        index
    }

    /// One pull: both pity counts go up, then the tier is decided by hard
    /// pity or by a rarity roll, then the kind within the tier by further
    /// draws. Each draw is taken from the generator only when the path needs
    /// it, and the outcome is the model pull of exactly the draws taken.
    pub fn pull(&mut self, rng: &mut ThreadRng) -> (outcome: PullOutcome)
        requires
            pull_rates_computable(old(self)@),
        ensures
            pull_link(old(self)@, outcome, final(self)@),
            exists|d: PullDraws|
                d.in_range() && #[trigger] pull_spec(old(self)@, d) == (outcome, final(self)@) && final(self).drawn()
                    == old(self).drawn() + pull_draws(old(self)@, d),
    {
        let ghost v0 = self@;
        let ghost log0 = self.drawn();
        self.five_star_state.increment();
        self.four_star_state.increment();
        let ghost c = self@;
        assert(c == counted(v0));
        if self.check_hard_pity(Rarity::FiveStar) {
            let kind = self.pull_five_star(rng);
            proof {
                let r = choose|r: u64| kind == #[trigger] five_star_kind(c.five_star, c.settings.five_star_settings, r)
                    && self.drawn() == log0 + five_star_draws(c.five_star, c.settings.five_star_settings, r);
                let d = PullDraws { rarity_roll: 0, five_star_roll: r, four_star_coin: 0, four_star_roll: 0, four_star_pick: 0 };
                assert(d.in_range() && pull_spec(v0, d) == (PullOutcome::FiveStar(kind), self@));
                assert(self.drawn() == log0 + pull_draws(v0, d));
            }
            return PullOutcome::FiveStar(kind);
        }
        let roll = self.take_roll(rng);
        let ghost log1 = self.drawn();
        match self.rarity_for_roll(roll) {
            Rarity::FiveStar => {
                let kind = self.pull_five_star(rng);
                proof {
                    let r = choose|r: u64| kind == #[trigger] five_star_kind(c.five_star, c.settings.five_star_settings, r)
                        && self.drawn() == log1 + five_star_draws(c.five_star, c.settings.five_star_settings, r);
                    let d = PullDraws { rarity_roll: roll, five_star_roll: r, four_star_coin: 0, four_star_roll: 0, four_star_pick: 0 };
                    assert(d.in_range() && pull_spec(v0, d) == (PullOutcome::FiveStar(kind), self@));
                    assert(self.drawn() == log0 + pull_draws(v0, d));
                }
                PullOutcome::FiveStar(kind)
            },
            Rarity::FourStar => {
                let kind = self.pull_four_star(rng);
                proof {
                    let (k, r, p) = choose|k: u32, r: u64, p: u32|
                        k < 2 && p < 3 && kind == #[trigger] four_star_kind(c.four_star, c.settings.four_star_settings, k, r, p)
                            && self.drawn() == log1 + four_star_draws(c.four_star, c.settings.four_star_settings, k, r, p);
                    let d = PullDraws { rarity_roll: roll, five_star_roll: 0, four_star_coin: k, four_star_roll: r, four_star_pick: p };
                    assert(d.in_range() && pull_spec(v0, d) == (PullOutcome::FourStar(kind), self@));
                    assert(self.drawn() == log0 + pull_draws(v0, d));
                }
                PullOutcome::FourStar(kind)
            },
            Rarity::ThreeStar => {
                proof {
                    let d = PullDraws { rarity_roll: roll, five_star_roll: 0, four_star_coin: 0, four_star_roll: 0, four_star_pick: 0 };
                    assert(d.in_range() && pull_spec(v0, d) == (PullOutcome::ThreeStar, self@));
                    assert(self.drawn() == log0 + pull_draws(v0, d));
                }
                PullOutcome::ThreeStar
            },
        }
    }

    /// One pull with the draws given rather than taken from a generator: the
    /// outcome and state that the model `pull_spec` gives for these draws.
    /// `pull` is held to the same model for draws that it does not name.
    pub fn pull_with_draws(&mut self, draws: PullDraws) -> (outcome: PullOutcome)
        requires
            pull_rates_computable(old(self)@),
            draws.in_range(),
        ensures
            (outcome, final(self)@) == pull_spec(old(self)@, draws),
            final(self).drawn() == old(self).drawn(),
    {
        let ghost v0 = self@;
        self.five_star_state.increment();
        self.four_star_state.increment();
        assert(self@ == counted(v0));
        if self.check_hard_pity(Rarity::FiveStar) {
            return PullOutcome::FiveStar(self.pull_five_star_with(draws.five_star_roll));
        }
        match self.rarity_for_roll(draws.rarity_roll) {
            Rarity::FiveStar => PullOutcome::FiveStar(self.pull_five_star_with(draws.five_star_roll)),
            Rarity::FourStar => PullOutcome::FourStar(
                self.pull_four_star_with(draws.four_star_coin, draws.four_star_roll, draws.four_star_pick),
            ),
            Rarity::ThreeStar => PullOutcome::ThreeStar,
        }
    }

    /// The tier that a rarity roll gives when the five-star hard pity is not
    /// reached: a five-star when the roll hits the five-star rate; else a
    /// four-star at its hard pity or when the roll hits the sum of both rates;
    /// else a three-star.
    fn rarity_for_roll(&self, roll: u64) -> (rarity: Rarity)
        requires
            !hard_pity_reached(self@.five_star, self@.settings.five_star_settings),
            self@.settings.five_star_settings.well_formed(),
            self@.settings.four_star_settings.well_formed() || hard_pity_reached(
                self@.four_star,
                self@.settings.four_star_settings,
            ),
        ensures
            rarity == rolled_rarity(self@, roll),
    {
        let five_star_rate = self.get_rate(Rarity::FiveStar);
        if roll_hits_rate(roll, five_star_rate) {
            Rarity::FiveStar
        } else if self.check_hard_pity(Rarity::FourStar) || self.four_star_roll_hits(roll, five_star_rate) {
            Rarity::FourStar
        } else {
            Rarity::ThreeStar
        }
    }

    /// `pull_five_star` with its banner roll given.
    fn pull_five_star_with(&mut self, roll: u64) -> (kind: FiveStarType)
        ensures
            kind == five_star_kind(old(self)@.five_star, old(self)@.settings.five_star_settings, roll),
            final(self)@ == (GachaView { five_star: after_five_star(old(self)@.five_star, kind), ..old(self)@ }),
            final(self).drawn() == old(self).drawn(),
    {
        self.five_star_state.reset_pity();
        let pull = match self.five_star_state.guaranteed {
            Some(true) => FiveStarType::Limited,
            _ => match self.settings.five_star_settings.banner_rate {
                Some(rate) => if roll_hits_rate(roll, rate as u128) {
                    FiveStarType::Limited
                } else {
                    FiveStarType::Standard
                },
                None => FiveStarType::Standard,
            },
        };
        self.record_five_star(pull);
        pull
    }

    /// `pull_four_star` with its coin, banner roll and pick given.
    fn pull_four_star_with(&mut self, coin: u32, roll: u64, pick: u32) -> (kind: FourStarType)
        requires
            coin < 2,
            pick < 3,
        ensures
            kind == four_star_kind(old(self)@.four_star, old(self)@.settings.four_star_settings, coin, roll, pick),
            final(self)@ == (GachaView { four_star: after_four_star(old(self)@.four_star, kind), ..old(self)@ }),
            final(self).drawn() == old(self).drawn(),
    {
        self.four_star_state.reset_pity();
        let pull = match self.four_star_state.guaranteed {
            Some(true) => FourStarType::Banner(banner_for_pick(pick)),
            _ => if coin == 0 {
                match self.settings.four_star_settings.banner_rate {
                    Some(rate) => if roll_hits_rate(roll, rate as u128) {
                        FourStarType::Banner(banner_for_pick(pick))
                    } else {
                        FourStarType::Loss(FourStarLoss::Character)
                    },
                    None => FourStarType::Loss(FourStarLoss::Character),
                }
            } else {
                FourStarType::Loss(FourStarLoss::LightCone)
            },
        };
        self.record_four_star(pull);
        pull
    }

    /// A five-star pull: the banner roll is drawn only when the five-star is
    /// not guaranteed and there is a banner rate, then the kind is decided.
    fn pull_five_star(&mut self, rng: &mut ThreadRng) -> (kind: FiveStarType)
        ensures
            exists|r: u64|
                kind == #[trigger] five_star_kind(old(self)@.five_star, old(self)@.settings.five_star_settings, r)
                    && final(self).drawn() == old(self).drawn() + five_star_draws(
                    old(self)@.five_star,
                    old(self)@.settings.five_star_settings,
                    r,
                ),
            final(self)@ == (GachaView { five_star: after_five_star(old(self)@.five_star, kind), ..old(self)@ }),
    {
        let ghost v0 = self@;
        let ghost log0 = self.drawn();
        let roll = match self.five_star_state.guaranteed {
            Some(true) => 0,
            _ => self.roll_five_star(rng),
        };
        assert(self.drawn() == log0 + five_star_draws(v0.five_star, v0.settings.five_star_settings, roll));
        self.pull_five_star_with(roll)
    }

    /// Where the five-star tier has a guarantee, a standard five-star earns
    /// it and a limited one spends it.
    fn record_five_star(&mut self, pull: FiveStarType)
        ensures
            final(self)@ == (GachaView {
                five_star: PityState {
                    guaranteed: match old(self)@.five_star.guaranteed {
                        Some(_) => Some(pull == FiveStarType::Standard),
                        None => None,
                    },
                    ..old(self)@.five_star
                },
                ..old(self)@
            }),
            final(self).drawn() == old(self).drawn(),
    {
        if self.five_star_state.guaranteed.is_some() {
            self.five_star_state.guaranteed = Some(
                match pull {
                    FiveStarType::Limited => false,
                    FiveStarType::Standard => true,
                },
            );
        }
    }

    /// The banner roll of an unguaranteed five-star: drawn when there is a
    /// banner rate, else not needed.
    fn roll_five_star(&mut self, rng: &mut ThreadRng) -> (roll: u64)
        ensures
            final(self)@ == old(self)@,
            final(self).drawn() == old(self).drawn() + match old(self)@.settings.five_star_settings.banner_rate {
                Some(_) => seq![Draw::Roll(roll)],
                None => Seq::<Draw>::empty(),
            },
    {
        match self.settings.five_star_settings.banner_rate {
            Some(_) => self.take_roll(rng),
            None => 0,
        }
    }

    /// A four-star pull: a guaranteed one draws only its pick; an
    /// unguaranteed one draws what `roll_four_star` needs; then the kind is decided.
    fn pull_four_star(&mut self, rng: &mut ThreadRng) -> (kind: FourStarType)
        ensures
            exists|k: u32, r: u64, p: u32|
                k < 2 && p < 3 && kind == #[trigger] four_star_kind(old(self)@.four_star, old(self)@.settings.four_star_settings, k, r, p)
                    && final(self).drawn() == old(self).drawn() + four_star_draws(
                    old(self)@.four_star,
                    old(self)@.settings.four_star_settings,
                    k,
                    r,
                    p,
                ),
            final(self)@ == (GachaView { four_star: after_four_star(old(self)@.four_star, kind), ..old(self)@ }),
    {
        let ghost v0 = self@;
        let ghost log0 = self.drawn();
        let (coin, roll, pick) = match self.four_star_state.guaranteed {
            Some(true) => (0, 0, self.pull_banner_four_star(rng)),
            _ => self.roll_four_star(rng),
        };
        assert(self.drawn() == log0 + four_star_draws(v0.four_star, v0.settings.four_star_settings, coin, roll, pick));
        self.pull_four_star_with(coin, roll, pick)
    }

    /// Where the four-star tier has a guarantee, an off-banner four-star earns
    /// it and a featured one spends it.
    fn record_four_star(&mut self, pull: FourStarType)
        ensures
            final(self)@ == (GachaView {
                four_star: PityState {
                    guaranteed: match old(self)@.four_star.guaranteed {
                        Some(_) => Some(pull is Loss),
                        None => None,
                    },
                    ..old(self)@.four_star
                },
                ..old(self)@
            }),
            final(self).drawn() == old(self).drawn(),
    {
        if self.four_star_state.guaranteed.is_some() {
            self.four_star_state.guaranteed = Some(
                match pull {
                    FourStarType::Banner(_) => false,
                    FourStarType::Loss(_) => true,
                },
            );
        }
    }

    /// The draws of an unguaranteed four-star: a coin first; on 0 and with a
    /// banner rate, a banner roll; on a hit, a pick of the featured one.
    /// Draws that the path does not need are left at zero.
    fn roll_four_star(&mut self, rng: &mut ThreadRng) -> (draws: (u32, u64, u32))
        ensures
            draws.0 < 2,
            draws.2 < 3,
            final(self)@ == old(self)@,
            final(self).drawn() == old(self).drawn() + rolled_four_star_draws(
                old(self)@.settings.four_star_settings.banner_rate,
                draws.0,
                draws.1,
                draws.2,
            ),
    {
        let coin = self.take_index(rng, 2);
        if coin == 0 {
            if let Some(rate) = self.settings.four_star_settings.banner_rate {
                let roll = self.take_roll(rng);
                if roll_hits_rate(roll, rate as u128) {
                    let pick = self.pull_banner_four_star(rng);
                    return (coin, roll, pick);
                }
                return (coin, roll, 0);
            }
        }
        (coin, 0, 0)
    }

    /// The pick, in `0..3`, of one of the three featured four-stars.
    fn pull_banner_four_star(&mut self, rng: &mut ThreadRng) -> (pick: u32)
        ensures
            pick < 3,
            final(self)@ == old(self)@,
            final(self).drawn() == old(self).drawn().push(Draw::Index(pick)),
    {
        self.take_index(rng, 3)
    }

    /// Whether a pull from this state can compute the rates it needs.
    pub fn can_pull(&self) -> (ok: bool)
        ensures
            ok == pull_rates_computable(self@),
    {
        let five_hard = hard_pity_reached_after_pull(&self.five_star_state, &self.settings.five_star_settings);
        let four_hard = hard_pity_reached_after_pull(&self.four_star_state, &self.settings.four_star_settings);
        (soft_pity_well_formed(&self.settings.five_star_settings) || five_hard) && (soft_pity_well_formed(
            &self.settings.four_star_settings,
        ) || five_hard || four_hard)
    }

    /// The rarity roll hits the sum of the five-star rate given and the
    /// current four-star rate.
    fn four_star_roll_hits(&self, roll: u64, five_star_rate: u128) -> (hit: bool)
        requires
            self@.settings.four_star_settings.well_formed(),
        ensures
            hit == roll_hits(
                roll,
                five_star_rate + tier_rate(self@.four_star, self@.settings.four_star_settings),
            ),
    {
        let four_star_rate = self.get_rate(Rarity::FourStar);
        proof {
            lemma_tier_rate_at_least_base(self@.four_star, self@.settings.four_star_settings);
            lemma_capped_sum_hits_alike(roll, five_star_rate as int, four_star_rate as int);
        }
        roll_hits_rate(roll, combined_rate(five_star_rate, four_star_rate))
    }

    /// Whether the tier's hard pity has been reached.
    fn check_hard_pity(&self, rarity: Rarity) -> (reached: bool)
        requires
            rarity != Rarity::ThreeStar,
        ensures
            reached == hard_pity_reached(tier_state(self@, rarity), tier_settings(self@.settings, rarity)),
    {
        let (pity_state, maybe_hard_pity) = match rarity {
            Rarity::FiveStar => (&self.five_star_state, &self.settings.five_star_settings.hard_pity),
            _ => (&self.four_star_state, &self.settings.four_star_settings.hard_pity),
        };
        match maybe_hard_pity {
            Some(hard_pity) => pity_state.current >= *hard_pity,
            None => false,
        }
    }

    /// The tier's current rate.
    fn get_rate(&self, rarity: Rarity) -> (rate: u128)
        requires
            rarity != Rarity::ThreeStar,
            tier_settings(self@.settings, rarity).well_formed(),
        ensures
            rate == tier_rate(tier_state(self@, rarity), tier_settings(self@.settings, rarity)),
    {
        let (settings, pity_state) = match rarity {
            Rarity::FiveStar => (&self.settings.five_star_settings, &self.five_star_state),
            _ => (&self.settings.four_star_settings, &self.four_star_state),
        };
        match settings.soft_pity_settings {
            Some(soft_pity_settings) => if pity_state.current >= soft_pity_settings.pity_start {
                GachaState::soft_pity_rate(pity_state.current, &soft_pity_settings, settings.base_rate)
            } else {
                settings.base_rate as u128
            },
            None => settings.base_rate as u128,
        }
    }

    /// The rate in soft pity: the base rate plus the increase for each pull
    /// since one before the start of soft pity.
    fn soft_pity_rate(current: u64, settings: &SoftPitySettings, base_rate: u64) -> (rate: u128)
        requires
            settings.pity_start >= 1,
            current >= settings.pity_start - 1,
        ensures
            rate == base_rate + settings.rate_increase * (current - (settings.pity_start - 1)),
    {
        let soft_pity_count: u64 = current - (settings.pity_start - 1);
        assert((settings.rate_increase as int) * (soft_pity_count as int) <= 0xffff_ffff_ffff_ffff
            * 0xffff_ffff_ffff_ffff) by (nonlinear_arith)
            requires
                settings.rate_increase <= 0xffff_ffff_ffff_ffff,
                soft_pity_count <= 0xffff_ffff_ffff_ffff,
        ;
        let increase: u128 = (settings.rate_increase as u128) * (soft_pity_count as u128);
        (base_rate as u128) + increase
    }
}

} // verus!
