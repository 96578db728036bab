//! Banner configuration: the pool tree of a banner, and the per-rarity rules
//! that a `GachaState` pulls by. Rates are in billionths (see `roll`).
use vstd::prelude::*;
use crate::enums::Pull;
use crate::roll::RATE_SCALE;

verus! {

/// Settings were refused.
#[derive(Debug, PartialEq, Eq, Structural, Copy, Clone)]
pub enum SettingsError {
    InvalidSettings,
}

/// A banner described as a tree of pools.
#[derive(Debug)]
pub struct Settings {
    pub pools: Vec<Pool>,
}

/// One pool of a banner: its share of the parent's draws and what it holds.
/// The rates of the pools of one collection must sum to at most certainty.
#[derive(Debug)]
pub struct Pool {
    pub name: String,
    pub rate: u64,
    pub contents: PoolContents,
    pub soft_pity_settings: Option<SoftPitySettings>,
    pub hard_pity: Option<u64>,
    pub guaranteed_pool: Option<PoolRef>,
}

/// What a pool holds: items, or further pools.
#[derive(Debug)]
pub enum PoolContents {
    Pulls(Vec<Pull>),
    SubPools(Vec<Pool>),
}

/// From `pity_start` on, each further pull adds `rate_increase` to the rate.
#[derive(Debug, PartialEq, Eq, Structural, Copy, Clone)]
pub struct SoftPitySettings {
    pub pity_start: u64,
    pub rate_increase: u64,
}

/// A reference to another pool.
#[derive(Debug)]
pub enum PoolRef {
    ByName(String),
}

/// The sum of the rates of a list of sibling pools, in billionths.
pub open spec fn rate_sum(pools: Seq<Pool>) -> int
    decreases pools.len(),
{
    if pools.len() == 0 {
        0
    } else {
        rate_sum(pools.drop_last()) + pools.last().rate
    }
}

/// A pool is valid when the pools it holds, if any, are.
pub open spec fn pool_valid(pool: Pool) -> bool
    decreases pool,
{
    match pool.contents {
        PoolContents::Pulls(_) => true,
        PoolContents::SubPools(sub_pools) => pools_valid(sub_pools@),
    }
}

/// Whether a list of sibling pools is accepted: their rates sum to at most
/// certainty, and so, in turn, do the rates of every list of sub-pools.
pub open spec fn pools_valid(pools: Seq<Pool>) -> bool
    decreases pools,
{
    &&& rate_sum(pools) <= RATE_SCALE
    &&& forall|i: int| 0 <= i < pools.len() ==> pool_valid(#[trigger] pools[i])
}

/// A rate sum over a prefix is at most the rate sum over the whole list.
proof fn lemma_rate_sum_prefix(pools: Seq<Pool>, k: int)
    requires
        0 <= k <= pools.len(),
    ensures
        rate_sum(pools.take(k)) <= rate_sum(pools),
    decreases pools.len(),
{
    if k < pools.len() {
        assert(pools.drop_last().take(k) == pools.take(k));
        lemma_rate_sum_prefix(pools.drop_last(), k);
    } else {
        assert(pools.take(k) == pools);
    }
}

/// Whether a pool's sub-pools, if any, are valid.
fn pool_is_valid(pool: &Pool) -> (valid: bool)
    ensures
        valid == pool_valid(*pool),
    decreases *pool,
{
    match &pool.contents {
        PoolContents::Pulls(_) => true,
        PoolContents::SubPools(sub_pools) => {
            assert(decreases_to!(*pool => sub_pools@));
            pools_are_valid(sub_pools)
        },
    }
}

/// Whether a list of sibling pools is valid.
fn pools_are_valid(pools: &Vec<Pool>) -> (valid: bool)
    ensures
        valid == pools_valid(pools@),
    decreases pools@,
{
    let mut sum: u64 = 0;
    let mut i: usize = 0;
    while i < pools.len()
        invariant
            0 <= i <= pools.len(),
            sum == rate_sum(pools@.take(i as int)),
            sum <= RATE_SCALE,
        decreases pools.len() - i,
    {
        assert(pools@.take(i + 1).drop_last() == pools@.take(i as int));
        if pools[i].rate > RATE_SCALE - sum {
            proof {
                lemma_rate_sum_prefix(pools@, i + 1);
            }
            return false;
        }
        sum = sum + pools[i].rate;
        i = i + 1;
    }
    assert(pools@.take(i as int) == pools@);
    let mut j: usize = 0;
    while j < pools.len()
        invariant
            0 <= j <= pools.len(),
            rate_sum(pools@) <= RATE_SCALE,
            forall|k: int| 0 <= k < j ==> pool_valid(#[trigger] pools@[k]),
        decreases pools.len() - j,
    {
        assert(decreases_to!(pools@ => pools@[j as int]));
        if !pool_is_valid(&pools[j]) {
            return false;
        }
        j = j + 1;
    }
    true
}

impl Settings {
    /// Settings from a pool tree; refused exactly when the pools are not valid.
    pub fn new(pools: Vec<Pool>) -> (result: Result<Self, SettingsError>)
        ensures
            pools_valid(pools@) ==> (result matches Ok(s) && s.pools@ == pools@),
            !pools_valid(pools@) ==> result == Err::<Self, SettingsError>(
                SettingsError::InvalidSettings,
            ),
    {
        let settings = Settings { pools };
        if settings.is_valid() {
            Ok(settings)
        } else {
            Err(SettingsError::InvalidSettings)
        }
    }

    /// Whether these settings are accepted.
    pub fn is_valid(&self) -> (valid: bool)
        ensures
            valid == pools_valid(self.pools@),
    {
        pools_are_valid(&self.pools)
    }
}

/// The rules of one rarity tier for a `GachaState`.
#[derive(Debug, PartialEq, Eq, Structural, Copy, Clone)]
pub struct RaritySettings {
    /// Whether losing the banner roll guarantees the banner next time.
    pub guarantee_enabled: bool,
    /// The pity count at which this tier is certain.
    pub hard_pity: Option<u64>,
    pub soft_pity_settings: Option<SoftPitySettings>,
    /// The rate of this tier before soft pity, in billionths.
    pub base_rate: u64,
    /// The chance, in billionths, that an unguaranteed pull of this tier is a banner one.
    pub banner_rate: Option<u64>,
}

impl RaritySettings {
    /// Soft pity, where there is one, starts at a pity count of one or more.
    pub open spec fn well_formed(self) -> bool {
        self.soft_pity_settings matches Some(sp) ==> sp.pity_start >= 1
    }
}

/// The rules a `GachaState` pulls by: one set per tier above three stars.
#[derive(Debug, PartialEq, Eq, Structural, Copy, Clone)]
pub struct GachaSettings {
    pub five_star_settings: RaritySettings,
    pub four_star_settings: RaritySettings,
}

impl GachaSettings {
    /// Both tiers are well formed.
    pub open spec fn well_formed(self) -> bool {
        self.five_star_settings.well_formed() && self.four_star_settings.well_formed()
    }
}

} // verus!
