//! What the ledger asks of the token service.
//!
//! The ledger holds no tokens. Where an operation needs tokens moved, it
//! returns the call that moves them, and the host makes that call on the token
//! that the ledger was made for.

use crate::account::AccountId;
use crate::recipient::Balance;
use vstd::prelude::*;

verus! {

/// A call to the token service, for the host to make.
#[derive(Clone, Copy, Debug, PartialEq, Eq)]
pub enum TokenCall {
    /// Move `amount` from `from` into the ledger's custody.
    TransferFrom { from: AccountId, amount: Balance },
    /// Move `amount` out of the ledger's custody to `to`.
    Transfer { to: AccountId, amount: Balance },
}

} // verus!
