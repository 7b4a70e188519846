//! Verified core of a scanner that looks for marketplace trades of FT
//! inscriptions in Bitcoin blocks and checks them against the activity
//! list that the marketplace publishes for each tick.

pub mod transaction;
pub mod text;
pub mod block;
pub mod detect;
pub mod arith;
pub mod laws;

pub use arith::foo;
pub use transaction::{Status, Transaction, detect_okx};
