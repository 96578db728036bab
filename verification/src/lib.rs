//! Gacha pull simulation: pity counters, soft and hard pity, and
//! the "guarantee" that follows a lost fifty-fifty, with every rule stated
//! as a contract and proved.

pub mod enums;
pub mod errors;
pub mod gacha;
pub mod history;
pub mod laws;
pub mod roll;
pub mod settings;
pub mod simple;
pub mod summary;

pub use enums::Rarity;
pub use gacha::GachaState;
pub use simple::simulate_pull;
