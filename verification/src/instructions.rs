//! The operations on a vault, one per file. Each takes what it must observe
//! of the outside ledger as plain values, checks every gate before it
//! changes anything, and returns what the ledger has to move.

pub mod buyout;
pub mod fractionalize;
pub mod initialize_vault;
pub mod open_buyout_vote;
pub mod redeem;
pub mod vote_buyout;

pub use buyout::buyout;
pub use fractionalize::fractionalize;
pub use initialize_vault::initialize_vault;
pub use open_buyout_vote::open_buyout_vote;
pub use redeem::redeem;
pub use vote_buyout::vote_buyout;
