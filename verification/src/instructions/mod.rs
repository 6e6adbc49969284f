//! The five operations of the escrow, each with the accounts it works on:
//! the checks that its accounts must pass, and what it then decides.

pub mod claim;
pub mod drop;
pub mod init;
pub mod refund;
pub mod update;

pub use self::claim::{Claim, ClaimBumps};
pub use self::drop::{Drop, DropBumps};
pub use self::init::{AppStateParameters, Initialize};
pub use self::refund::{Refund, RefundBumps};
pub use self::update::UpdateState;
