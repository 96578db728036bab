//! Errors of a pull.
use vstd::prelude::*;
use crate::enums::Rarity;

verus! {

/// A pull that could not be made.
#[derive(Debug, PartialEq, Eq, Structural, Copy, Clone)]
pub enum PullError {
    ImpossibleRoll,
    InvalidPitySettings,
    InvalidRarity(Rarity),
}

/// The name of a rarity, as its debug form writes it.
pub open spec fn rarity_name(rarity: Rarity) -> Seq<char> {
    match rarity {
        Rarity::ThreeStar => "ThreeStar"@,
        Rarity::FourStar => "FourStar"@,
        Rarity::FiveStar => "FiveStar"@,
    }
}

/// The text that describes an error.
pub open spec fn pull_error_message(error: PullError) -> Seq<char> {
    match error {
        PullError::ImpossibleRoll => "Impossible roll occured"@,
        PullError::InvalidPitySettings => "Pity settings not valid with state"@,
        PullError::InvalidRarity(rarity) => "Invalid Rarity used: "@ + rarity_name(rarity),
    }
}

impl PullError {
    /// The text that describes this error.
    pub fn message(&self) -> (text: String)
        ensures
            text@ == pull_error_message(*self),
    {
        match self {
            PullError::ImpossibleRoll => String::from_str("Impossible roll occured"),
            PullError::InvalidPitySettings => String::from_str("Pity settings not valid with state"),
            PullError::InvalidRarity(rarity) => {
                let prefix = String::from_str("Invalid Rarity used: ");
                match rarity {
                    Rarity::ThreeStar => prefix.concat("ThreeStar"),
                    Rarity::FourStar => prefix.concat("FourStar"),
                    Rarity::FiveStar => prefix.concat("FiveStar"),
                }
            },
        }
    }
}

} // verus!
