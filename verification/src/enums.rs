use vstd::prelude::*;

verus! {

/// The kind of banner a set of pulls is made on.
#[derive(Debug, PartialEq, Eq, Structural, Copy, Clone)]
pub enum Banner {
    Standard,
    Character,
    LightCone,
    Departure,
}

/// An item that a pool can hand out, by its numeric id.
#[derive(Debug, PartialEq, Eq, Structural, Copy, Clone)]
pub enum Pull {
    Character(u64),
    LightCone(u64),
}

/// The rarity tier of a pull.
#[derive(Debug, PartialEq, Eq, Structural, Copy, Clone)]
pub enum Rarity {
    ThreeStar,
    FourStar,
    FiveStar,
}

/// What a five-star pull turned out to be.
#[derive(Debug, PartialEq, Eq, Structural, Copy, Clone)]
pub enum FiveStarType {
    Limited,
    Standard,
}

/// One of the three featured four-stars of a banner.
#[derive(Debug, PartialEq, Eq, Structural, Copy, Clone)]
pub enum FourStarBanner {
    A,
    B,
    C,
}

/// A four-star that is not one of the featured ones.
#[derive(Debug, PartialEq, Eq, Structural, Copy, Clone)]
pub enum FourStarLoss {
    Character,
    LightCone,
}

/// What a four-star pull turned out to be.
#[derive(Debug, PartialEq, Eq, Structural, Copy, Clone)]
pub enum FourStarType {
    Banner(FourStarBanner),
    Loss(FourStarLoss),
}

/// The outcome of one pull on a `GachaState`.
#[derive(Debug, PartialEq, Eq, Structural, Copy, Clone)]
pub enum PullOutcome {
    FiveStar(FiveStarType),
    FourStar(FourStarType),
    ThreeStar,
}

} // verus!
