//! The error taxonomy shared by every component.
//!
//! Every precondition check fails fast and aborts the whole call: a function
//! that returns one of these errors leaves its state untouched.

use vstd::prelude::*;

verus! {

/// The failure reasons a call can be rejected with.
///
/// Authorization failures, malformed envelopes, unknown protocols, malformed
/// or non-newer component versions, fee or withdrawal shortfalls and failed
/// address resolutions each have their own variant; lookups that find nothing
/// report `NotFound`.
#[derive(Clone, Debug, PartialEq, Eq)]
pub enum ContractError {
    /// The caller lacks the required role.
    Unauthorized,
    /// A malformed message envelope, with the reason when one is given.
    InvalidPacket { msg: Option<String> },
    /// An unknown protocol or an undeclared bridge.
    UnsupportedOperation,
    /// A malformed, already-published or non-newer component version.
    InvalidADOVersion { msg: Option<String> },
    /// A deposit, fee or withdrawal shortfall.
    InsufficientFunds,
    /// A recipient path that resolves to no concrete address.
    InvalidAddress,
    /// A point lookup that found no entry.
    NotFound,
}

/// The view of a [`ContractError`].
#[verifier::ext_equal]
pub enum ContractErrorView {
    Unauthorized,
    InvalidPacket { msg: Option<Seq<char>> },
    UnsupportedOperation,
    InvalidADOVersion { msg: Option<Seq<char>> },
    InsufficientFunds,
    InvalidAddress,
    NotFound,
}

impl View for ContractError {
    type V = ContractErrorView;

    open spec fn view(&self) -> ContractErrorView {
        match self {
            ContractError::Unauthorized => ContractErrorView::Unauthorized,
            ContractError::InvalidPacket { msg } => (ContractErrorView::InvalidPacket {
                msg: match msg {
                    Some(m) => Some(m@),
                    None => None,
                },
            }),
            ContractError::UnsupportedOperation => ContractErrorView::UnsupportedOperation,
            ContractError::InvalidADOVersion { msg } => (ContractErrorView::InvalidADOVersion {
                msg: match msg {
                    Some(m) => Some(m@),
                    None => None,
                },
            }),
            ContractError::InsufficientFunds => ContractErrorView::InsufficientFunds,
            ContractError::InvalidAddress => ContractErrorView::InvalidAddress,
            ContractError::NotFound => ContractErrorView::NotFound,
        }
    }
}

impl DeepView for ContractError {
    type V = ContractErrorView;

    open spec fn deep_view(&self) -> ContractErrorView {
        self.view()
    }
}

} // verus!
