//! Error kinds of the credential registry.
//!
//! Every error is terminal for the operation that raised it: an operation
//! either commits all of its effects or returns one of these and leaves the
//! state untouched.

use vstd::prelude::*;
use crate::digits::u64_to_string;

verus! {

/// A typed error of the registry, carrying the identifying data (role name,
/// address, token id) of the failed operation.
#[derive(Debug, Clone, PartialEq, Eq)]
pub enum ContractError {
    /// A role name that was never created.
    NonExistRole { role: String },
    /// Defensive signal for a corrupted storage slot; unreachable when the
    /// state invariant holds.
    UpdatingErrorSlot,
    /// The target address already holds a credential.
    AlreadyMintedToken,
    /// The account is already a member of the role.
    AlreadyGrantRole { account: String, role: String },
    /// The token has no KYC record.
    NonExistKyc { token_id: u64 },
    /// Reserved: a pair that is already approved.
    AlreadyApproved { cooperator: String },
    /// The caller does not hold the admin role.
    InvalidAdminAccount { account: String },
    /// The caller does not hold the operator role, or the target does not
    /// hold the cooperator role.
    InvalidOperatorAccount { account: String },
    /// The address does not hold the cooperator role.
    InvalidCooperatorAccount { account: String },
    /// The token id has no owner.
    InvalidTokenId { token_id: u64 },
    /// The token does not belong to the caller.
    InvalidOwner { token_id: u64, owner: String },
    /// No approval pair exists to revoke.
    InvalidRevokeFromCooperator { owner: String, cooperator: String },
    /// The user holds no credential.
    NoSBTExist { user: String },
    /// No approval pair exists between the cooperator and the user.
    NoApprovementExist { cooperator: String, user: String },
}

impl ContractError {
    /// The human-readable line of this error, with the identifying data
    /// interpolated.
    pub fn message(&self) -> (r: String)
        ensures
            self matches ContractError::NonExistRole { role } ==> r@ == role@
                + " doesn't exist"@,
            self matches ContractError::UpdatingErrorSlot ==> r@
                == "unknown error occurred while updating the slot"@,
            self matches ContractError::AlreadyMintedToken ==> r@
                == "already have the token, could not mint another"@,
            self matches ContractError::AlreadyGrantRole { account, role } ==> r@ == account@
                + " already grant role "@ + role@,
            self matches ContractError::NonExistKyc { token_id } ==> r@ == crate::digits::dec_digits(
                token_id as int,
            ) + " kyc data doesn't exist"@,
            self matches ContractError::AlreadyApproved { cooperator } ==> r@
                == "already approved to "@ + cooperator@,
            self matches ContractError::InvalidAdminAccount { account } ==> r@ == account@
                + " is not a valid admin"@,
            self matches ContractError::InvalidOperatorAccount { account } ==> r@ == account@
                + " is not a valid operator"@,
            self matches ContractError::InvalidCooperatorAccount { account } ==> r@ == account@
                + " is not a valid cooperator"@,
            self matches ContractError::InvalidTokenId { token_id } ==> r@
                == crate::digits::dec_digits(token_id as int) + " has no owner"@,
            self matches ContractError::InvalidOwner { token_id, owner } ==> r@
                == crate::digits::dec_digits(token_id as int) + " didn't belongs to "@ + owner@,
            self matches ContractError::InvalidRevokeFromCooperator { owner, cooperator } ==> r@
                == owner@ + " didn't approved to "@ + cooperator@,
            self matches ContractError::NoSBTExist { user } ==> r@ == user@
                + " didn't have any zkMe sbt"@,
            self matches ContractError::NoApprovementExist { cooperator, user } ==> r@ == user@
                + " didn't approved to "@ + cooperator@,
    {
        match self {
            ContractError::NonExistRole { role } => {
                let mut m = role.clone();
                m.append(" doesn't exist");
                m
            },
            ContractError::UpdatingErrorSlot => {
                String::from_str("unknown error occurred while updating the slot")
            },
            ContractError::AlreadyMintedToken => {
                String::from_str("already have the token, could not mint another")
            },
            ContractError::AlreadyGrantRole { account, role } => {
                let mut m = account.clone();
                m.append(" already grant role ");
                m.append(role.as_str());
                m
            },
            ContractError::NonExistKyc { token_id } => {
                let mut m = u64_to_string(*token_id);
                m.append(" kyc data doesn't exist");
                m
            },
            ContractError::AlreadyApproved { cooperator } => {
                let mut m = String::from_str("already approved to ");
                m.append(cooperator.as_str());
                m
            },
            ContractError::InvalidAdminAccount { account } => {
                let mut m = account.clone();
                m.append(" is not a valid admin");
                m
            },
            ContractError::InvalidOperatorAccount { account } => {
                let mut m = account.clone();
                m.append(" is not a valid operator");
                m
            },
            ContractError::InvalidCooperatorAccount { account } => {
                let mut m = account.clone();
                m.append(" is not a valid cooperator");
                m
            },
            ContractError::InvalidTokenId { token_id } => {
                let mut m = u64_to_string(*token_id);
                m.append(" has no owner");
                m
            },
            ContractError::InvalidOwner { token_id, owner } => {
                let mut m = u64_to_string(*token_id);
                m.append(" didn't belongs to ");
                m.append(owner.as_str());
                m
            },
            ContractError::InvalidRevokeFromCooperator { owner, cooperator } => {
                let mut m = owner.clone();
                m.append(" didn't approved to ");
                m.append(cooperator.as_str());
                m
            },
            ContractError::NoSBTExist { user } => {
                let mut m = user.clone();
                m.append(" didn't have any zkMe sbt");
                m
            },
            ContractError::NoApprovementExist { cooperator, user } => {
                let mut m = user.clone();
                m.append(" didn't approved to ");
                m.append(cooperator.as_str());
                m
            },
        }
    }
}

} // verus!
