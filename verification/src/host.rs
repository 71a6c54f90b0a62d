//! What the host chain tells a contract about the call it is handling.

use crate::encoding::same_text;
use crate::error::{ContractError, ErrorView, OwnershipError};
use vstd::prelude::*;

verus! {

/// The chain and the contract at the time of a call.
#[derive(Debug, Clone, PartialEq, Eq)]
pub struct Env {
    /// The time of the current block, in nanoseconds since the epoch.
    pub block_time_nanos: u64,
    /// The height of the current block.
    pub block_height: u64,
    /// The address of the contract that handles the call.
    pub contract_address: String,
    /// The administrator of that contract, if it has one.
    pub contract_admin: Option<String>,
}

/// The caller of a contract.
#[derive(Debug, Clone, PartialEq, Eq)]
pub struct MessageInfo {
    /// The address of the caller.
    pub sender: String,
}

/// The administrator of the contract, as a sequence of characters.
pub open spec fn admin_view(admin: Option<String>) -> Option<Seq<char>> {
    match admin {
        Some(a) => Some(a@),
        None => None,
    }
}

/// Checks that `sender` is `owner`.
pub fn assert_owner(owner: &Option<String>, sender: &str) -> (r: Result<(), ContractError>)
    ensures
        match owner {
            None => r is Err && r->Err_0@ == ErrorView::OwnershipError(OwnershipError::NoOwner),
            Some(o) => if o@ == sender@ {
                r is Ok
            } else {
                r is Err && r->Err_0@ == ErrorView::OwnershipError(OwnershipError::NotOwner)
            },
        },
{
    match owner {
        None => Err(ContractError::OwnershipError(OwnershipError::NoOwner)),
        Some(o) => {
            if same_text(o.as_str(), sender) {
                Ok(())
            } else {
                Err(ContractError::OwnershipError(OwnershipError::NotOwner))
            }
        },
    }
}

} // verus!
