//! The errors that the ledger's operations return.

use vstd::prelude::*;

verus! {

/// The entity named when a recipient is looked up and not found.
pub const RECIPIENT: &'static str = "Recipient";

/// A failure of the call mechanism itself, reported by the host.
#[derive(Clone, Copy, Debug, PartialEq, Eq, Structural)]
pub enum LangError {
    CouldNotReadInput,
}

/// Why an operation was refused.
///
/// The ledger itself returns `NotFound`, `Unauthorised` and
/// `UnprocessableEntity`. `ContractCall` and `InkEnvError` report a failed call
/// of the token service; the host hands them in and the ledger passes them on
/// unchanged.
#[derive(Debug, PartialEq, Eq)]
pub enum AzAirdropError {
    ContractCall(LangError),
    InkEnvError(String),
    NotFound(String),
    Unauthorised,
    UnprocessableEntity(String),
}

/// An [`AzAirdropError`] with its texts as sequences of characters.
pub enum ErrorView {
    ContractCall(LangError),
    InkEnvError(Seq<char>),
    NotFound(Seq<char>),
    Unauthorised,
    UnprocessableEntity(Seq<char>),
}

impl View for AzAirdropError {
    type V = ErrorView;

    open spec fn view(&self) -> ErrorView {
        match *self {
            AzAirdropError::ContractCall(e) => ErrorView::ContractCall(e),
            AzAirdropError::InkEnvError(s) => ErrorView::InkEnvError(s@),
            AzAirdropError::NotFound(s) => ErrorView::NotFound(s@),
            AzAirdropError::Unauthorised => ErrorView::Unauthorised,
            AzAirdropError::UnprocessableEntity(s) => ErrorView::UnprocessableEntity(s@),
        }
    }
}

impl AzAirdropError {
    /// A business rule was violated; `reason` says which.
    pub fn unprocessable(reason: &str) -> (e: AzAirdropError)
        ensures
            e@ == ErrorView::UnprocessableEntity(reason@),
    {
        AzAirdropError::UnprocessableEntity(reason.to_owned())
    }

    /// No `entity` is stored under the key that was asked for.
    pub fn not_found(entity: &str) -> (e: AzAirdropError)
        ensures
            e@ == ErrorView::NotFound(entity@),
    {
        AzAirdropError::NotFound(entity.to_owned())
    }
}

} // verus!
