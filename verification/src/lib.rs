//! A vesting airdrop ledger.
//!
//! An `AzAirdrop` distributes an escrowed pool of one fungible token to a
//! roster of recipients. Each recipient unlocks a share of their grant when the
//! distribution window opens and the rest linearly over a vesting tail. The
//! ledger keeps the aggregate still owed to all recipients, which the escrowed
//! balance has to cover.
//!
//! The ledger neither reads a clock nor talks to the token service. Every
//! operation takes the caller and the current time as arguments; where tokens
//! have to move, the operation returns the call that moves them and the host
//! makes it.

pub mod account;
pub mod airdrop;
pub mod errors;
pub mod escrow;
pub mod laws;
pub mod ledger;
pub mod recipient;
pub mod schedule;
pub mod state;
pub mod vesting;
mod wide;

pub use account::AccountId;
pub use airdrop::AzAirdrop;
pub use errors::{AzAirdropError, LangError};
pub use escrow::TokenCall;
pub use recipient::{Balance, Config, Recipient, RecipientAdd, RecipientSubtract, Timestamp};
