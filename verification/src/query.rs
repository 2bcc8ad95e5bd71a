//! The read-only entry points: pure lookups over the registry state.
//!
//! As with the mutating entry points, a relation (`*_rel`) pins down the
//! exact answer, errors included, for every input.

use vstd::prelude::*;
use crate::digits::{dec_digits, u64_to_string};
use crate::error::ContractError;
use crate::msg::{
    BalanceOfResponse, GetApprovedLengthResponse, GetApprovedTokenIdResponse,
    GetApprovedUserKycDataResponse, GetKycDataResponse, GetQuestionsResponse,
    GetUserDataResponse, GetUserTokenIdResponse, HasApprovedResponse, IsRoleResponse,
    OwnerOfResponse, QueryAnswer, QueryMsg, TokenIdOfResponse, TokenUriResponse,
    TotalSupplyResponse, VerifyResponse,
};
use crate::state::{SbtState, StateView, TokenId};
use crate::vecs;

verus! {

/// What a role check answers: the membership bit, echoing the arguments.
pub open spec fn is_role_rel(
    pre: StateView,
    role: String,
    user: String,
    r: Result<IsRoleResponse, ContractError>,
) -> bool {
    r == Ok::<IsRoleResponse, ContractError>(
        (IsRoleResponse { role, user, result: pre.has_role(role@, user@) }),
    )
}

/// Whether `user` holds `role`.
pub fn is_role(state: &SbtState, role: &String, user: String) -> (r: Result<
    IsRoleResponse,
    ContractError,
>)
    requires
        state.wf(),
    ensures
        is_role_rel(state@, *role, user, r),
{
    let result = match state.has_role(role, &user) {
        Ok(b) => b,
        Err(e) => {
            return Err(e);
        },
    };
    Ok(IsRoleResponse { role: role.clone(), user, result })
}

/// What the questions query answers: the configured set, empty when the
/// cooperator never had one.
pub open spec fn get_questions_rel(
    pre: StateView,
    cooperator: String,
    r: Result<GetQuestionsResponse, ContractError>,
) -> bool {
    &&& r matches Ok(resp)
    &&& r matches Ok(resp) ==> {
        &&& resp.cooperator == cooperator
        &&& resp.questions.deep_view() == if pre.questions.contains_key(cooperator@) {
            pre.questions[cooperator@]
        } else {
            Seq::<Seq<char>>::empty()
        }
    }
}

/// The question set configured for `cooperator`, empty when none was.
pub fn get_questions(state: &SbtState, cooperator: String) -> (r: Result<
    GetQuestionsResponse,
    ContractError,
>)
    requires
        state.wf(),
    ensures
        get_questions_rel(state@, cooperator, r),
{
    let questions = match state.get_questions(&cooperator) {
        Ok(Some(q)) => q,
        Ok(None) => Vec::new(),
        Err(e) => {
            return Err(e);
        },
    };
    proof {
        if !state@.questions.contains_key(cooperator@) {
            assert(questions.deep_view() =~= Seq::<Seq<char>>::empty());
        }
    }
    Ok(GetQuestionsResponse { cooperator, questions })
}

/// What the KYC query answers: the canonical record of an issued token
/// that has one, `InvalidTokenId` or `NonExistKyc` otherwise.
pub open spec fn get_kyc_data_rel(
    pre: StateView,
    token_id: TokenId,
    r: Result<GetKycDataResponse, ContractError>,
) -> bool {
    if !pre.owners.contains_key(token_id) {
        r == Err::<GetKycDataResponse, ContractError>(
            (ContractError::InvalidTokenId { token_id }),
        )
    } else if !pre.kyc.contains_key(token_id) {
        r == Err::<GetKycDataResponse, ContractError>(
            (ContractError::NonExistKyc { token_id }),
        )
    } else {
        &&& r matches Ok(resp)
        &&& r matches Ok(resp) ==> {
            &&& resp.owner@ == pre.owners[token_id]
            &&& resp.token_id == token_id
            &&& resp.key@ == pre.kyc[token_id].key
            &&& resp.validity == pre.kyc[token_id].validity
            &&& resp.data@ == pre.kyc[token_id].data
            &&& resp.questions.deep_view() == pre.kyc[token_id].questions
        }
    }
}

/// The canonical KYC record of `token_id` with its owner.
pub fn get_kyc_data(state: &SbtState, token_id: TokenId) -> (r: Result<
    GetKycDataResponse,
    ContractError,
>)
    requires
        state.wf(),
    ensures
        get_kyc_data_rel(state@, token_id, r),
{
    let owner = match state.get_owner(&token_id) {
        Ok(Some(o)) => o,
        Ok(None) => {
            return Err(ContractError::InvalidTokenId { token_id });
        },
        Err(e) => {
            return Err(e);
        },
    };
    let kyc_data = match state.get_kyc(&token_id) {
        Ok(Some(d)) => d,
        Ok(None) => {
            return Err(ContractError::NonExistKyc { token_id });
        },
        Err(e) => {
            return Err(e);
        },
    };
    Ok(GetKycDataResponse {
        owner,
        token_id,
        key: kyc_data.key,
        validity: kyc_data.validity,
        data: kyc_data.data,
        questions: kyc_data.questions,
    })
}

/// What the balance query answers: 1 for a credential holder, else 0.
pub open spec fn balance_of_rel(
    pre: StateView,
    owner: String,
    r: Result<BalanceOfResponse, ContractError>,
) -> bool {
    r == Ok::<BalanceOfResponse, ContractError>(
        (BalanceOfResponse {
            owner,
            balance: if pre.tokens.contains_key(owner@) {
                1u8
            } else {
                0u8
            },
        }),
    )
}

/// 1 when `owner` holds a credential, 0 otherwise.
pub fn balance_of(state: &SbtState, owner: String) -> (r: Result<
    BalanceOfResponse,
    ContractError,
>)
    requires
        state.wf(),
    ensures
        balance_of_rel(state@, owner, r),
{
    let balance: u8 = if state.has_token(&owner) {
        1
    } else {
        0
    };
    Ok(BalanceOfResponse { owner, balance })
}

/// What the token-id query answers: the holder's token id, `NoSBTExist`
/// when `from` holds none.
pub open spec fn token_id_of_rel(
    pre: StateView,
    from: String,
    r: Result<TokenIdOfResponse, ContractError>,
) -> bool {
    if pre.tokens.contains_key(from@) {
        r == Ok::<TokenIdOfResponse, ContractError>(
            (TokenIdOfResponse { from, token_id: pre.tokens[from@] }),
        )
    } else {
        r == Err::<TokenIdOfResponse, ContractError>((ContractError::NoSBTExist { user: from }))
    }
}

/// The token id of `from`.
pub fn token_id_of(state: &SbtState, from: String) -> (r: Result<
    TokenIdOfResponse,
    ContractError,
>)
    requires
        state.wf(),
    ensures
        token_id_of_rel(state@, from, r),
{
    let token_id = match state.get_token(&from) {
        Ok(Some(t)) => t,
        Ok(None) => {
            return Err(ContractError::NoSBTExist { user: from });
        },
        Err(e) => {
            return Err(e);
        },
    };
    Ok(TokenIdOfResponse { from, token_id })
}

/// What the owner query answers: the owner of an issued token,
/// `InvalidTokenId` otherwise.
pub open spec fn owner_of_rel(
    pre: StateView,
    token_id: TokenId,
    r: Result<OwnerOfResponse, ContractError>,
) -> bool {
    if pre.owners.contains_key(token_id) {
        &&& r matches Ok(resp)
        &&& r matches Ok(resp) ==> resp.token_id == token_id && resp.owner@
            == pre.owners[token_id]
    } else {
        r == Err::<OwnerOfResponse, ContractError>((ContractError::InvalidTokenId { token_id }))
    }
}

/// The owner of `token_id`.
pub fn owner_of(state: &SbtState, token_id: TokenId) -> (r: Result<
    OwnerOfResponse,
    ContractError,
>)
    requires
        state.wf(),
    ensures
        owner_of_rel(state@, token_id, r),
{
    let owner = match state.get_owner(&token_id) {
        Ok(Some(o)) => o,
        Ok(None) => {
            return Err(ContractError::InvalidTokenId { token_id });
        },
        Err(e) => {
            return Err(e);
        },
    };
    Ok(OwnerOfResponse { token_id, owner })
}

/// What the supply query answers: the number of issued credentials,
/// which is the counter less one.
pub open spec fn total_supply_rel(
    pre: StateView,
    r: Result<TotalSupplyResponse, ContractError>,
) -> bool {
    r == Ok::<TotalSupplyResponse, ContractError>(
        (TotalSupplyResponse { total: (pre.counter - 1) as u64 }),
    )
}

/// The number of credentials issued so far.
pub fn total_supply(state: &SbtState) -> (r: Result<TotalSupplyResponse, ContractError>)
    requires
        state.wf(),
        state@.counter >= 1,
    ensures
        total_supply_rel(state@, r),
{
    let counter = match state.get_token_id() {
        Ok(c) => c,
        Err(e) => {
            return Err(e);
        },
    };
    Ok(TotalSupplyResponse { total: counter - 1 })
}

/// What the URI query answers: the base URI, a slash, and the token id in
/// decimal.
pub open spec fn token_uri_rel(
    pre: StateView,
    token_id: TokenId,
    r: Result<TokenUriResponse, ContractError>,
) -> bool {
    &&& r matches Ok(resp)
    &&& r matches Ok(resp) ==> {
        &&& resp.token_id == token_id
        &&& resp.token_uri@ == pre.base_uri + seq!['/'] + dec_digits(token_id as int)
    }
}

/// The URI of `token_id`: base URI, "/", decimal id.
pub fn token_uri(state: &SbtState, token_id: TokenId) -> (r: Result<
    TokenUriResponse,
    ContractError,
>)
    requires
        state.wf(),
    ensures
        token_uri_rel(state@, token_id, r),
{
    let mut uri = match state.get_token_base_uri() {
        Ok(u) => u,
        Err(e) => {
            return Err(e);
        },
    };
    uri.append("/");
    let digits = u64_to_string(token_id);
    uri.append(digits.as_str());
    proof {
        reveal_strlit("/");
        assert(("/"@) =~= seq!['/']);
        assert(uri@ =~= state@.base_uri + seq!['/'] + dec_digits(token_id as int));
    }
    Ok(TokenUriResponse { token_id, token_uri: uri })
}

} // verus!

verus! {

/// A positive verification: the user's record is still valid at `now`
/// and the cooperator's configured questions are all among the user's.
/// A cooperator that never configured questions verifies nobody.
pub open spec fn spec_verify_result(
    pre: StateView,
    cooperator: Seq<char>,
    user: Seq<char>,
    now: u64,
) -> bool {
    let t = pre.tokens[user];
    &&& pre.kyc[t].validity >= now
    &&& pre.questions.contains_key(cooperator)
    &&& vecs::seq_subset(pre.questions[cooperator], pre.kyc[t].questions)
}

/// What verification answers: errors for a user without credential or
/// record, else the verification bit.
pub open spec fn verify_rel(
    pre: StateView,
    cooperator: String,
    user: String,
    now: u64,
    r: Result<VerifyResponse, ContractError>,
) -> bool {
    if !pre.tokens.contains_key(user@) {
        r == Err::<VerifyResponse, ContractError>((ContractError::NoSBTExist { user }))
    } else if !pre.kyc.contains_key(pre.tokens[user@]) {
        r == Err::<VerifyResponse, ContractError>(
            (ContractError::NonExistKyc { token_id: pre.tokens[user@] }),
        )
    } else {
        r == Ok::<VerifyResponse, ContractError>(
            (VerifyResponse {
                cooperator,
                user,
                result: spec_verify_result(pre, cooperator@, user@, now),
            }),
        )
    }
}

/// Whether `user`'s credential is valid at `now` and satisfies
/// `cooperator`'s required questions.
pub fn verify(state: &SbtState, cooperator: String, user: String, now: u64) -> (r: Result<
    VerifyResponse,
    ContractError,
>)
    requires
        state.wf(),
    ensures
        verify_rel(state@, cooperator, user, now, r),
{
    let token_id = match state.get_token(&user) {
        Ok(Some(t)) => t,
        Ok(None) => {
            return Err(ContractError::NoSBTExist { user });
        },
        Err(e) => {
            return Err(e);
        },
    };
    let user_data = match state.get_kyc(&token_id) {
        Ok(Some(d)) => d,
        Ok(None) => {
            return Err(ContractError::NonExistKyc { token_id });
        },
        Err(e) => {
            return Err(e);
        },
    };
    let cooperator_data = match state.get_questions(&cooperator) {
        Ok(q) => q,
        Err(e) => {
            return Err(e);
        },
    };
    let result: bool = user_data.validity >= now && match &cooperator_data {
        Some(questions) => vecs::all_contained(questions, &user_data.questions),
        None => false,
    };
    Ok(VerifyResponse { cooperator, user, result })
}

/// What the approval check answers: whether the pair exists.
pub open spec fn has_approved_rel(
    pre: StateView,
    cooperator: String,
    user: String,
    r: Result<HasApprovedResponse, ContractError>,
) -> bool {
    r == Ok::<HasApprovedResponse, ContractError>(
        (HasApprovedResponse {
            cooperator,
            user,
            has_approved: pre.approvals.contains_key((cooperator@, user@)),
        }),
    )
}

/// Whether `user` has an approval pair with `cooperator`.
pub fn has_approved(state: &SbtState, cooperator: String, user: String) -> (r: Result<
    HasApprovedResponse,
    ContractError,
>)
    requires
        state.wf(),
    ensures
        has_approved_rel(state@, cooperator, user, r),
{
    let is_approved = state.has_approve(&cooperator, &user);
    Ok(HasApprovedResponse { cooperator, user, has_approved: is_approved })
}

/// What the user-token query answers: the token of an approved user.
pub open spec fn get_user_token_id_rel(
    pre: StateView,
    cooperator: String,
    user: String,
    r: Result<GetUserTokenIdResponse, ContractError>,
) -> bool {
    if !pre.approvals.contains_key((cooperator@, user@)) {
        r == Err::<GetUserTokenIdResponse, ContractError>(
            (ContractError::NoApprovementExist { cooperator, user }),
        )
    } else if !pre.tokens.contains_key(user@) {
        r == Err::<GetUserTokenIdResponse, ContractError>(
            (ContractError::NoSBTExist { user }),
        )
    } else {
        r == Ok::<GetUserTokenIdResponse, ContractError>(
            (GetUserTokenIdResponse { user, token_id: pre.tokens[user@] }),
        )
    }
}

/// The token id of `user`, for a cooperator the user approved.
pub fn get_user_token_id(state: &SbtState, cooperator: String, user: String) -> (r: Result<
    GetUserTokenIdResponse,
    ContractError,
>)
    requires
        state.wf(),
    ensures
        get_user_token_id_rel(state@, cooperator, user, r),
{
    if !state.has_approve(&cooperator, &user) {
        return Err(ContractError::NoApprovementExist { cooperator, user });
    }
    let token_id = match state.get_token(&user) {
        Ok(Some(t)) => t,
        Ok(None) => {
            return Err(ContractError::NoSBTExist { user });
        },
        Err(e) => {
            return Err(e);
        },
    };
    Ok(GetUserTokenIdResponse { user, token_id })
}

/// What the user-data query answers: the snapshot held for the approved
/// pair's token.
pub open spec fn get_user_data_rel(
    pre: StateView,
    cooperator: String,
    user: String,
    r: Result<GetUserDataResponse, ContractError>,
) -> bool {
    if !pre.approvals.contains_key((cooperator@, user@)) {
        r == Err::<GetUserDataResponse, ContractError>(
            (ContractError::NoApprovementExist { cooperator, user }),
        )
    } else if !pre.tokens.contains_key(user@) {
        r == Err::<GetUserDataResponse, ContractError>((ContractError::NoSBTExist { user }))
    } else if !pre.snapshots.contains_key((cooperator@, pre.tokens[user@])) {
        r == Err::<GetUserDataResponse, ContractError>(
            (ContractError::NonExistKyc { token_id: pre.tokens[user@] }),
        )
    } else {
        &&& r matches Ok(resp)
        &&& r matches Ok(resp) ==> {
            &&& resp.user == user
            &&& resp.kyc_data@ == pre.snapshots[(cooperator@, pre.tokens[user@])]
        }
    }
}

/// The snapshot disclosed to `cooperator` for `user`'s token.
pub fn get_user_data(state: &SbtState, cooperator: String, user: String) -> (r: Result<
    GetUserDataResponse,
    ContractError,
>)
    requires
        state.wf(),
    ensures
        get_user_data_rel(state@, cooperator, user, r),
{
    if !state.has_approve(&cooperator, &user) {
        return Err(ContractError::NoApprovementExist { cooperator, user });
    }
    let token_id = match state.get_token(&user) {
        Ok(Some(t)) => t,
        Ok(None) => {
            return Err(ContractError::NoSBTExist { user });
        },
        Err(e) => {
            return Err(e);
        },
    };
    let kyc_data = match state.get_approved_kyc_data(&cooperator, token_id) {
        Ok(Some(d)) => d,
        Ok(None) => {
            return Err(ContractError::NonExistKyc { token_id });
        },
        Err(e) => {
            return Err(e);
        },
    };
    Ok(GetUserDataResponse { user, kyc_data })
}

/// What the paginated list query answers: a page of the cooperator's
/// approved ids.  A start past the end gives an empty page anchored at 0;
/// otherwise the page holds `min(length - start, page_size)` ids from
/// `start` on, in insertion order.
pub open spec fn get_approved_token_id_rel(
    pre: StateView,
    cooperator: String,
    start: u64,
    page_size: u64,
    r: Result<GetApprovedTokenIdResponse, ContractError>,
) -> bool {
    let list = pre.approved_list(cooperator@);
    &&& r matches Ok(resp)
    &&& r matches Ok(resp) ==> {
        &&& resp.cooperator == cooperator
        &&& if start > list.len() {
            &&& resp.start == 0
            &&& resp.page_size == 0
            &&& resp.token_id_list@ == Seq::<u64>::empty()
        } else {
            let page = if list.len() - start < page_size {
                list.len() - start
            } else {
                page_size as int
            };
            &&& resp.start == start
            &&& resp.page_size == page
            &&& resp.token_id_list@ == list.subrange(start as int, start as int + page)
        }
    }
}

/// A page of the token ids approved to `cooperator`.
pub fn get_approved_token_id(
    state: &SbtState,
    cooperator: String,
    start: u64,
    page_size: u64,
) -> (r: Result<GetApprovedTokenIdResponse, ContractError>)
    requires
        state.wf(),
    ensures
        get_approved_token_id_rel(state@, cooperator, start, page_size, r),
{
    let approved_id_list = match state.get_approved(&cooperator) {
        Ok(l) => l,
        Err(e) => {
            return Err(e);
        },
    };
    let length: u64 = approved_id_list.len() as u64;
    if start > length {
        let token_id_list: Vec<u64> = Vec::new();
        proof {
            assert(token_id_list@ =~= Seq::<u64>::empty());
        }
        return Ok(GetApprovedTokenIdResponse {
            cooperator,
            start: 0,
            page_size: 0,
            token_id_list,
        });
    }
    let real_page_size: u64 = if length - start < page_size {
        length - start
    } else {
        page_size
    };
    let token_id_list = vecs::subrange_u64(
        &approved_id_list,
        start as usize,
        real_page_size as usize,
    );
    Ok(GetApprovedTokenIdResponse {
        cooperator,
        start,
        page_size: real_page_size,
        token_id_list,
    })
}

/// What the length query answers: how many ids stand in the cooperator's
/// approved list, re-approvals counted.
pub open spec fn get_approved_length_rel(
    pre: StateView,
    cooperator: String,
    r: Result<GetApprovedLengthResponse, ContractError>,
) -> bool {
    &&& r matches Ok(resp)
    &&& r matches Ok(resp) ==> {
        &&& resp.cooperator == cooperator
        &&& resp.approved_length == pre.approved_list(cooperator@).len()
    }
}

/// The length of the approved list of `cooperator`.
pub fn get_approved_length(state: &SbtState, cooperator: String) -> (r: Result<
    GetApprovedLengthResponse,
    ContractError,
>)
    requires
        state.wf(),
    ensures
        get_approved_length_rel(state@, cooperator, r),
{
    let approved_id_list = match state.get_approved(&cooperator) {
        Ok(l) => l,
        Err(e) => {
            return Err(e);
        },
    };
    let approved_length: u64 = approved_id_list.len() as u64;
    Ok(GetApprovedLengthResponse { cooperator, approved_length })
}

/// What the snapshot query answers: the snapshot held for the user's
/// token, which revocation does not erase.
pub open spec fn get_approved_user_kyc_data_rel(
    pre: StateView,
    cooperator: String,
    user: String,
    r: Result<GetApprovedUserKycDataResponse, ContractError>,
) -> bool {
    if !pre.tokens.contains_key(user@) {
        r == Err::<GetApprovedUserKycDataResponse, ContractError>(
            (ContractError::NoSBTExist { user }),
        )
    } else if !pre.snapshots.contains_key((cooperator@, pre.tokens[user@])) {
        r == Err::<GetApprovedUserKycDataResponse, ContractError>(
            (ContractError::NoApprovementExist { cooperator, user }),
        )
    } else {
        &&& r matches Ok(resp)
        &&& r matches Ok(resp) ==> {
            &&& resp.cooperator == cooperator
            &&& resp.user == user
            &&& resp.token_id == pre.tokens[user@]
            &&& resp.data@ == pre.snapshots[(cooperator@, pre.tokens[user@])]
        }
    }
}

/// The snapshot held by `cooperator` for `user`'s token.
pub fn get_approved_user_kyc_data(state: &SbtState, cooperator: String, user: String) -> (r:
    Result<GetApprovedUserKycDataResponse, ContractError>)
    requires
        state.wf(),
    ensures
        get_approved_user_kyc_data_rel(state@, cooperator, user, r),
{
    let token_id = match state.get_token(&user) {
        Ok(Some(t)) => t,
        Ok(None) => {
            return Err(ContractError::NoSBTExist { user });
        },
        Err(e) => {
            return Err(e);
        },
    };
    let data = match state.get_approved_kyc_data(&cooperator, token_id) {
        Ok(Some(d)) => d,
        Ok(None) => {
            return Err(ContractError::NoApprovementExist { cooperator, user });
        },
        Err(e) => {
            return Err(e);
        },
    };
    Ok(GetApprovedUserKycDataResponse { cooperator, user, token_id, data })
}

} // verus!

verus! {

/// Dispatches one read-only request into a typed answer.
pub fn query(state: &SbtState, now: u64, msg: QueryMsg) -> (r: Result<
    QueryAnswer,
    ContractError,
>)
    requires
        state.wf(),
        msg matches QueryMsg::TotalSupply {  } ==> state@.counter >= 1,
        msg matches QueryMsg::NumTokens {  } ==> state@.counter >= 1,
    ensures
        msg matches QueryMsg::IsRole { role, user } ==> ({
            ||| (r matches Ok(a) && a matches QueryAnswer::IsRole(resp) && is_role_rel(
                state@,
                role,
                user,
                Ok(resp),
            ))
            ||| (r matches Err(e) && is_role_rel(state@, role, user, Err(e)))
        }),
        msg matches QueryMsg::GetQuestions { cooperator } ==> ({
            ||| (r matches Ok(a) && a matches QueryAnswer::GetQuestions(resp)
                && get_questions_rel(state@, cooperator, Ok(resp)))
            ||| (r matches Err(e) && get_questions_rel(state@, cooperator, Err(e)))
        }),
        msg matches QueryMsg::GetKycData { token_id } ==> ({
            ||| (r matches Ok(a) && a matches QueryAnswer::GetKycData(resp) && get_kyc_data_rel(
                state@,
                token_id,
                Ok(resp),
            ))
            ||| (r matches Err(e) && get_kyc_data_rel(state@, token_id, Err(e)))
        }),
        msg matches QueryMsg::BalanceOf { owner } ==> ({
            ||| (r matches Ok(a) && a matches QueryAnswer::BalanceOf(resp) && balance_of_rel(
                state@,
                owner,
                Ok(resp),
            ))
            ||| (r matches Err(e) && balance_of_rel(state@, owner, Err(e)))
        }),
        msg matches QueryMsg::TokenIdOf { from } ==> ({
            ||| (r matches Ok(a) && a matches QueryAnswer::TokenIdOf(resp) && token_id_of_rel(
                state@,
                from,
                Ok(resp),
            ))
            ||| (r matches Err(e) && token_id_of_rel(state@, from, Err(e)))
        }),
        msg matches QueryMsg::OwnerOf { token_id } ==> ({
            ||| (r matches Ok(a) && a matches QueryAnswer::OwnerOf(resp) && owner_of_rel(
                state@,
                token_id,
                Ok(resp),
            ))
            ||| (r matches Err(e) && owner_of_rel(state@, token_id, Err(e)))
        }),
        msg matches QueryMsg::TotalSupply {  } ==> ({
            ||| (r matches Ok(a) && a matches QueryAnswer::TotalSupply(resp)
                && total_supply_rel(state@, Ok(resp)))
            ||| (r matches Err(e) && total_supply_rel(state@, Err(e)))
        }),
        msg matches QueryMsg::NumTokens {  } ==> ({
            ||| (r matches Ok(a) && a matches QueryAnswer::TotalSupply(resp)
                && total_supply_rel(state@, Ok(resp)))
            ||| (r matches Err(e) && total_supply_rel(state@, Err(e)))
        }),
        msg matches QueryMsg::TokenUri { token_id } ==> ({
            ||| (r matches Ok(a) && a matches QueryAnswer::TokenUri(resp) && token_uri_rel(
                state@,
                token_id,
                Ok(resp),
            ))
            ||| (r matches Err(e) && token_uri_rel(state@, token_id, Err(e)))
        }),
        msg matches QueryMsg::Verify { cooperator, user } ==> ({
            ||| (r matches Ok(a) && a matches QueryAnswer::Verify(resp) && verify_rel(
                state@,
                cooperator,
                user,
                now,
                Ok(resp),
            ))
            ||| (r matches Err(e) && verify_rel(state@, cooperator, user, now, Err(e)))
        }),
        msg matches QueryMsg::HasApproved { cooperator, user } ==> ({
            ||| (r matches Ok(a) && a matches QueryAnswer::HasApproved(resp)
                && has_approved_rel(state@, cooperator, user, Ok(resp)))
            ||| (r matches Err(e) && has_approved_rel(state@, cooperator, user, Err(e)))
        }),
        msg matches QueryMsg::GetUserTokenId { cooperator, user } ==> ({
            ||| (r matches Ok(a) && a matches QueryAnswer::GetUserTokenId(resp)
                && get_user_token_id_rel(state@, cooperator, user, Ok(resp)))
            ||| (r matches Err(e) && get_user_token_id_rel(state@, cooperator, user, Err(e)))
        }),
        msg matches QueryMsg::GetUserData { cooperator, user } ==> ({
            ||| (r matches Ok(a) && a matches QueryAnswer::GetUserData(resp)
                && get_user_data_rel(state@, cooperator, user, Ok(resp)))
            ||| (r matches Err(e) && get_user_data_rel(state@, cooperator, user, Err(e)))
        }),
        msg matches QueryMsg::GetApprovedTokenId { cooperator, start, page_size } ==> ({
            ||| (r matches Ok(a) && a matches QueryAnswer::GetApprovedTokenId(resp)
                && get_approved_token_id_rel(state@, cooperator, start, page_size, Ok(resp)))
            ||| (r matches Err(e) && get_approved_token_id_rel(
                state@,
                cooperator,
                start,
                page_size,
                Err(e),
            ))
        }),
        msg matches QueryMsg::GetApprovedLength { cooperator } ==> ({
            ||| (r matches Ok(a) && a matches QueryAnswer::GetApprovedLength(resp)
                && get_approved_length_rel(state@, cooperator, Ok(resp)))
            ||| (r matches Err(e) && get_approved_length_rel(state@, cooperator, Err(e)))
        }),
        msg matches QueryMsg::GetApprovedUserKycData { cooperator, user } ==> ({
            ||| (r matches Ok(a) && a matches QueryAnswer::GetApprovedUserKycData(resp)
                && get_approved_user_kyc_data_rel(state@, cooperator, user, Ok(resp)))
            ||| (r matches Err(e) && get_approved_user_kyc_data_rel(
                state@,
                cooperator,
                user,
                Err(e),
            ))
        }),
{
    match msg {
        QueryMsg::IsRole { role, user } => match is_role(state, &role, user) {
            Ok(resp) => Ok(QueryAnswer::IsRole(resp)),
            Err(e) => Err(e),
        },
        QueryMsg::GetQuestions { cooperator } => match get_questions(state, cooperator) {
            Ok(resp) => Ok(QueryAnswer::GetQuestions(resp)),
            Err(e) => Err(e),
        },
        QueryMsg::GetKycData { token_id } => match get_kyc_data(state, token_id) {
            Ok(resp) => Ok(QueryAnswer::GetKycData(resp)),
            Err(e) => Err(e),
        },
        QueryMsg::BalanceOf { owner } => match balance_of(state, owner) {
            Ok(resp) => Ok(QueryAnswer::BalanceOf(resp)),
            Err(e) => Err(e),
        },
        QueryMsg::TokenIdOf { from } => match token_id_of(state, from) {
            Ok(resp) => Ok(QueryAnswer::TokenIdOf(resp)),
            Err(e) => Err(e),
        },
        QueryMsg::OwnerOf { token_id } => match owner_of(state, token_id) {
            Ok(resp) => Ok(QueryAnswer::OwnerOf(resp)),
            Err(e) => Err(e),
        },
        QueryMsg::TotalSupply {  } => match total_supply(state) {
            Ok(resp) => Ok(QueryAnswer::TotalSupply(resp)),
            Err(e) => Err(e),
        },
        QueryMsg::NumTokens {  } => match total_supply(state) {
            Ok(resp) => Ok(QueryAnswer::TotalSupply(resp)),
            Err(e) => Err(e),
        },
        QueryMsg::TokenUri { token_id } => match token_uri(state, token_id) {
            Ok(resp) => Ok(QueryAnswer::TokenUri(resp)),
            Err(e) => Err(e),
        },
        QueryMsg::Verify { cooperator, user } => match verify(state, cooperator, user, now) {
            Ok(resp) => Ok(QueryAnswer::Verify(resp)),
            Err(e) => Err(e),
        },
        QueryMsg::HasApproved { cooperator, user } => match has_approved(
            state,
            cooperator,
            user,
        ) {
            Ok(resp) => Ok(QueryAnswer::HasApproved(resp)),
            Err(e) => Err(e),
        },
        QueryMsg::GetUserTokenId { cooperator, user } => match get_user_token_id(
            state,
            cooperator,
            user,
        ) {
            Ok(resp) => Ok(QueryAnswer::GetUserTokenId(resp)),
            Err(e) => Err(e),
        },
        QueryMsg::GetUserData { cooperator, user } => match get_user_data(
            state,
            cooperator,
            user,
        ) {
            Ok(resp) => Ok(QueryAnswer::GetUserData(resp)),
            Err(e) => Err(e),
        },
        QueryMsg::GetApprovedTokenId { cooperator, start, page_size } => match
            get_approved_token_id(state, cooperator, start, page_size) {
            Ok(resp) => Ok(QueryAnswer::GetApprovedTokenId(resp)),
            Err(e) => Err(e),
        },
        QueryMsg::GetApprovedLength { cooperator } => match get_approved_length(
            state,
            cooperator,
        ) {
            Ok(resp) => Ok(QueryAnswer::GetApprovedLength(resp)),
            Err(e) => Err(e),
        },
        QueryMsg::GetApprovedUserKycData { cooperator, user } => match
            get_approved_user_kyc_data(state, cooperator, user) {
            Ok(resp) => Ok(QueryAnswer::GetApprovedUserKycData(resp)),
            Err(e) => Err(e),
        },
    }
}

} // verus!
