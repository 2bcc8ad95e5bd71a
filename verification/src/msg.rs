//! The messages the registry accepts and the answers it returns, as plain
//! values: the hosting runtime deserializes requests into these and
//! serializes the answers back.

use vstd::prelude::*;
use crate::state::{KycData, TokenId};

verus! {

/// Genesis configuration: extra role names to create empty.
#[derive(Debug, Clone, PartialEq, Eq)]
pub struct InitMsg {
    pub roles: Vec<String>,
}

/// One human-readable attribute tag of an applied operation.
pub type Attribute = (String, String);

/// The observable record of an applied operation.
#[derive(Debug, Clone, PartialEq, Eq)]
pub struct Response {
    pub attributes: Vec<Attribute>,
}

impl Response {
    /// A response without attributes.
    pub fn new() -> (r: Response)
        ensures
            r.attributes@ == Seq::<Attribute>::empty(),
    {
        Response { attributes: Vec::new() }
    }
}

/// A mutating request, with already-validated arguments.
#[derive(Debug, Clone, PartialEq, Eq)]
pub enum ExecuteMsg {
    GrantRole { role: String, user: String },
    RevokeRole { role: String, user: String },
    SetQuestions { cooperator: String, questions: Vec<String> },
    Attest { to: String },
    /// The message shape exists, but burning is excluded by design:
    /// dispatching it is unconditionally fatal in the hosting shim and the
    /// engine refuses it by precondition.
    Burn { from: String, token_id: TokenId },
    SetKycData {
        token_id: TokenId,
        key: String,
        validity: u64,
        data: String,
        questions: Vec<String>,
    },
    SetTokenBaseUri { uri: String },
    Approve { cooperator: String, token_id: TokenId, cooperator_key: String },
    Revoke { cooperator: String, token_id: TokenId },
}

/// A read-only request.
#[derive(Debug, Clone, PartialEq, Eq)]
pub enum QueryMsg {
    IsRole { role: String, user: String },
    GetQuestions { cooperator: String },
    GetKycData { token_id: TokenId },
    BalanceOf { owner: String },
    TokenIdOf { from: String },
    OwnerOf { token_id: TokenId },
    TotalSupply {},
    NumTokens {},
    TokenUri { token_id: TokenId },
    Verify { cooperator: String, user: String },
    HasApproved { cooperator: String, user: String },
    GetUserTokenId { cooperator: String, user: String },
    GetUserData { cooperator: String, user: String },
    GetApprovedTokenId { cooperator: String, start: u64, page_size: u64 },
    GetApprovedLength { cooperator: String },
    GetApprovedUserKycData { cooperator: String, user: String },
}

#[derive(Debug, Clone, PartialEq, Eq)]
pub struct IsRoleResponse {
    pub role: String,
    pub user: String,
    pub result: bool,
}

#[derive(Debug, Clone, PartialEq, Eq)]
pub struct GetQuestionsResponse {
    pub cooperator: String,
    pub questions: Vec<String>,
}

#[derive(Debug, Clone, PartialEq, Eq)]
pub struct GetKycDataResponse {
    pub owner: String,
    pub token_id: TokenId,
    pub key: String,
    pub validity: u64,
    pub data: String,
    pub questions: Vec<String>,
}

#[derive(Debug, Clone, PartialEq, Eq)]
pub struct BalanceOfResponse {
    pub owner: String,
    pub balance: u8,
}

#[derive(Debug, Clone, PartialEq, Eq)]
pub struct TokenIdOfResponse {
    pub from: String,
    pub token_id: TokenId,
}

#[derive(Debug, Clone, PartialEq, Eq)]
pub struct OwnerOfResponse {
    pub token_id: TokenId,
    pub owner: String,
}

#[derive(Debug, Clone, PartialEq, Eq)]
pub struct TotalSupplyResponse {
    pub total: u64,
}

#[derive(Debug, Clone, PartialEq, Eq)]
pub struct TokenUriResponse {
    pub token_id: TokenId,
    pub token_uri: String,
}

#[derive(Debug, Clone, PartialEq, Eq)]
pub struct VerifyResponse {
    pub cooperator: String,
    pub user: String,
    pub result: bool,
}

#[derive(Debug, Clone, PartialEq, Eq)]
pub struct HasApprovedResponse {
    pub cooperator: String,
    pub user: String,
    pub has_approved: bool,
}

#[derive(Debug, Clone, PartialEq, Eq)]
pub struct GetUserTokenIdResponse {
    pub user: String,
    pub token_id: TokenId,
}

#[derive(Debug, Clone, PartialEq)]
pub struct GetUserDataResponse {
    pub user: String,
    pub kyc_data: KycData,
}

#[derive(Debug, Clone, PartialEq, Eq)]
pub struct GetApprovedTokenIdResponse {
    pub cooperator: String,
    pub start: u64,
    pub page_size: u64,
    pub token_id_list: Vec<TokenId>,
}

#[derive(Debug, Clone, PartialEq, Eq)]
pub struct GetApprovedLengthResponse {
    pub cooperator: String,
    pub approved_length: u64,
}

#[derive(Debug, Clone, PartialEq)]
pub struct GetApprovedUserKycDataResponse {
    pub cooperator: String,
    pub user: String,
    pub token_id: TokenId,
    pub data: KycData,
}

/// The typed answer of one read-only request, one variant per query.
#[derive(Debug, Clone, PartialEq)]
pub enum QueryAnswer {
    IsRole(IsRoleResponse),
    GetQuestions(GetQuestionsResponse),
    GetKycData(GetKycDataResponse),
    BalanceOf(BalanceOfResponse),
    TokenIdOf(TokenIdOfResponse),
    OwnerOf(OwnerOfResponse),
    TotalSupply(TotalSupplyResponse),
    TokenUri(TokenUriResponse),
    Verify(VerifyResponse),
    HasApproved(HasApprovedResponse),
    GetUserTokenId(GetUserTokenIdResponse),
    GetUserData(GetUserDataResponse),
    GetApprovedTokenId(GetApprovedTokenIdResponse),
    GetApprovedLength(GetApprovedLengthResponse),
    GetApprovedUserKycData(GetApprovedUserKycDataResponse),
}

} // verus!
