//! The mutating entry points: each authenticates the caller against the
//! role registry, applies one state transition or returns a typed error
//! leaving the state untouched, and reports attribute tags on success.
//!
//! For every entry point a relation (`*_rel`) pins down, for every input,
//! the exact result and the exact next state; the entry point's `ensures`
//! is that relation, together with preservation of the state invariant.

use vstd::prelude::*;
use crate::digits::dec_digits;
use crate::error::ContractError;
use crate::msg::{ExecuteMsg, Response};
use crate::state::{
    KycData, KycDataView, SbtState, StateView, TokenId, cooperator_role, default_admin_role,
    distinct_seq, inspector_role, lemma_filter_distinct, operator_role,
    spec_cooperator_role, spec_default_admin_role, spec_inspector_role, spec_operator_role,
};

verus! {

/// What granting a role does: the caller must hold the operator role, the
/// target must not already be a member, and on success the target joins
/// the role's member list.
pub open spec fn grant_role_rel(
    pre: StateView,
    sender: String,
    role: String,
    user: String,
    post: StateView,
    r: Result<Response, ContractError>,
) -> bool {
    if !pre.has_role(spec_operator_role(), sender@) {
        &&& r == Err::<Response, ContractError>(
            (ContractError::InvalidAdminAccount { account: sender }),
        )
        &&& post == pre
    } else if pre.has_role(role@, user@) {
        &&& r == Err::<Response, ContractError>(
            (ContractError::AlreadyGrantRole { account: user, role: role }),
        )
        &&& post == pre
    } else {
        &&& r matches Ok(resp) && resp.attributes.deep_view() == seq![
            (("action"@, "grantRole"@)),
            (("role"@, role@)),
            (("account"@, user@)),
        ]
        &&& post == pre.grant(role@, user@)
    }
}

/// What revoking a role does: the caller must hold the admin role; a
/// non-member target is a successful no-op.
pub open spec fn revoke_role_rel(
    pre: StateView,
    sender: String,
    role: String,
    user: String,
    post: StateView,
    r: Result<Response, ContractError>,
) -> bool {
    if !pre.has_role(spec_default_admin_role(), sender@) {
        &&& r == Err::<Response, ContractError>(
            (ContractError::InvalidAdminAccount { account: sender }),
        )
        &&& post == pre
    } else {
        &&& r matches Ok(resp) && resp.attributes.deep_view() == seq![
            (("action"@, "revokeRole"@)),
            (("role"@, role@)),
            (("account"@, user@)),
        ]
        &&& post == pre.revoke_member(role@, user@)
    }
}

/// Sets up the genesis state: the four well-known roles granted to the
/// deployer, and the counter at its genesis value.
pub fn instantiate(state: &mut SbtState, sender: &String) -> (r: Result<
    Response,
    ContractError,
>)
    requires
        old(state).wf(),
        old(state)@ == StateView::initial(),
    ensures
        final(state).wf(),
        final(state)@ == StateView::genesis(sender@),
        final(state)@.consistent(),
        r matches Ok(resp) && resp.attributes@.len() == 0,
{
    proof {
        reveal_strlit("default_admin_role");
        reveal_strlit("zkme_operator");
        reveal_strlit("zkme_cooperator");
        reveal_strlit("zkme_inspector");
        assert(spec_default_admin_role().len() == 18);
        assert(spec_operator_role().len() == 13);
        assert(spec_cooperator_role().len() == 15);
        assert(spec_inspector_role().len() == 14);
        assert(spec_default_admin_role() != spec_operator_role());
        assert(spec_default_admin_role() != spec_cooperator_role());
        assert(spec_default_admin_role() != spec_inspector_role());
        assert(spec_operator_role() != spec_cooperator_role());
        assert(spec_operator_role() != spec_inspector_role());
        assert(spec_cooperator_role() != spec_inspector_role());
    }
    let admin = default_admin_role();
    proof {
        assert(!state@.has_role(spec_default_admin_role(), sender@));
    }
    match state.grant_role(&admin, sender.clone()) {
        Ok(_) => {},
        Err(e) => {
            return Err(e);
        },
    }
    let op = operator_role();
    proof {
        assert(!state@.has_role(spec_operator_role(), sender@));
    }
    match state.grant_role(&op, sender.clone()) {
        Ok(_) => {},
        Err(e) => {
            return Err(e);
        },
    }
    let coop = cooperator_role();
    proof {
        assert(!state@.has_role(spec_cooperator_role(), sender@));
    }
    match state.grant_role(&coop, sender.clone()) {
        Ok(_) => {},
        Err(e) => {
            return Err(e);
        },
    }
    let insp = inspector_role();
    proof {
        assert(!state@.has_role(spec_inspector_role(), sender@));
    }
    match state.grant_role(&insp, sender.clone()) {
        Ok(_) => {},
        Err(e) => {
            return Err(e);
        },
    }
    match state.initialize_counter() {
        Ok(_) => {},
        Err(e) => {
            return Err(e);
        },
    }
    proof {
        assert(state@ =~= StateView::genesis(sender@));
        let g = StateView::genesis(sender@);
        assert forall|rr: Seq<char>| #[trigger] g.roles.contains_key(rr) implies distinct_seq(
            g.roles[rr],
        ) by {
            assert(g.roles[rr] =~= seq![sender@]);
        }
        assert(g.consistent());
    }
    Ok(Response::new())
}

/// Adds `user` to `role`; only an operator may grant, and a second grant
/// of a held role fails.
pub fn grant_role(state: &mut SbtState, sender: &String, role: &String, user: String) -> (r:
    Result<Response, ContractError>)
    requires
        old(state).wf(),
        old(state)@.consistent(),
    ensures
        final(state).wf(),
        final(state)@.consistent(),
        grant_role_rel(old(state)@, *sender, *role, user, final(state)@, r),
{
    let op = operator_role();
    let is_op = match state.has_role(&op, sender) {
        Ok(b) => b,
        Err(e) => {
            return Err(e);
        },
    };
    if !is_op {
        return Err(ContractError::InvalidAdminAccount { account: sender.clone() });
    }
    match state.grant_role(role, user.clone()) {
        Err(e) => Err(e),
        Ok(_) => {
            proof {
                let v0 = old(state)@;
                let v1 = state@;
                assert forall|rr: Seq<char>| #[trigger] v1.roles.contains_key(rr)
                    implies distinct_seq(v1.roles[rr]) by {
                    if rr == role@ {
                        if v0.roles.contains_key(role@) {
                            let m0 = v0.roles[role@];
                            let m1 = m0.push(user@);
                            assert(!m0.contains(user@));
                            assert forall|i: int, j: int| 0 <= i < j < m1.len()
                                implies m1[i] != m1[j] by {
                                if j < m0.len() {
                                    assert(m1[i] == m0[i] && m1[j] == m0[j]);
                                } else {
                                    assert(m1[j] == user@);
                                    assert(m1[i] == m0[i]);
                                    assert(m0.contains(m0[i]));
                                }
                            }
                            assert(v1.roles[rr] == m1);
                        } else {
                            assert(v1.roles[rr] == seq![user@]);
                        }
                    } else {
                        assert(v1.roles[rr] == v0.roles[rr]);
                    }
                }
                assert(v1.consistent());
            }
            let mut resp = Response::new();
            resp.attributes.push((String::from_str("action"), String::from_str("grantRole")));
            resp.attributes.push((String::from_str("role"), role.clone()));
            resp.attributes.push((String::from_str("account"), user));
            proof {
                assert(resp.attributes.deep_view() =~= seq![
                    (("action"@, "grantRole"@)),
                    (("role"@, role@)),
                    (("account"@, user@)),
                ]);
            }
            Ok(resp)
        },
    }
}

/// Removes `user` from `role`; only an admin may revoke, and revoking a
/// non-member changes nothing.
pub fn revoke_role(state: &mut SbtState, sender: &String, role: &String, user: String) -> (r:
    Result<Response, ContractError>)
    requires
        old(state).wf(),
        old(state)@.consistent(),
    ensures
        final(state).wf(),
        final(state)@.consistent(),
        revoke_role_rel(old(state)@, *sender, *role, user, final(state)@, r),
{
    let admin = default_admin_role();
    let is_admin = match state.has_role(&admin, sender) {
        Ok(b) => b,
        Err(e) => {
            return Err(e);
        },
    };
    if !is_admin {
        return Err(ContractError::InvalidAdminAccount { account: sender.clone() });
    }
    match state.revoke_role(role, &user) {
        Err(e) => Err(e),
        Ok(_) => {
            proof {
                let v0 = old(state)@;
                let v1 = state@;
                assert forall|rr: Seq<char>| #[trigger] v1.roles.contains_key(rr)
                    implies distinct_seq(v1.roles[rr]) by {
                    if v0.has_role(role@, user@) && rr == role@ {
                        lemma_filter_distinct(
                            v0.roles[role@],
                            |m: Seq<char>| m != user@,
                        );
                        assert(v1.roles[rr] == v0.roles[role@].filter(
                            |m: Seq<char>| m != user@,
                        ));
                    } else {
                        assert(v1.roles[rr] == v0.roles[rr]);
                    }
                }
                assert(v1.consistent());
            }
            let mut resp = Response::new();
            resp.attributes.push((String::from_str("action"), String::from_str("revokeRole")));
            resp.attributes.push((String::from_str("role"), role.clone()));
            resp.attributes.push((String::from_str("account"), user));
            proof {
                assert(resp.attributes.deep_view() =~= seq![
                    (("action"@, "revokeRole"@)),
                    (("role"@, role@)),
                    (("account"@, user@)),
                ]);
            }
            Ok(resp)
        },
    }
}

} // verus!

verus! {

/// What configuring a cooperator's question set does: the caller must be
/// an operator and the target must hold the cooperator role; the set is
/// overwritten whole.
pub open spec fn set_questions_rel(
    pre: StateView,
    sender: String,
    cooperator: String,
    questions: Seq<Seq<char>>,
    post: StateView,
    r: Result<Response, ContractError>,
) -> bool {
    if pre.has_role(spec_operator_role(), sender@) && pre.has_role(
        spec_cooperator_role(),
        cooperator@,
    ) {
        &&& r matches Ok(resp) && resp.attributes.deep_view() == seq![
            (("action"@, "setQuestions"@)),
            (("cooperator"@, cooperator@)),
        ]
        &&& post == (StateView { questions: pre.questions.insert(cooperator@, questions), ..pre })
    } else {
        &&& r == Err::<Response, ContractError>(
            (ContractError::InvalidOperatorAccount { account: sender }),
        )
        &&& post == pre
    }
}

/// Overwrites the required question set of `cooperator`.
pub fn set_questions(
    state: &mut SbtState,
    sender: &String,
    cooperator: String,
    questions: Vec<String>,
) -> (r: Result<Response, ContractError>)
    requires
        old(state).wf(),
        old(state)@.consistent(),
    ensures
        final(state).wf(),
        final(state)@.consistent(),
        set_questions_rel(
            old(state)@,
            *sender,
            cooperator,
            questions.deep_view(),
            final(state)@,
            r,
        ),
{
    let op = operator_role();
    let coop_role = cooperator_role();
    let is_op = match state.has_role(&op, sender) {
        Ok(b) => b,
        Err(e) => {
            return Err(e);
        },
    };
    let is_coop = match state.has_role(&coop_role, &cooperator) {
        Ok(b) => b,
        Err(e) => {
            return Err(e);
        },
    };
    if !(is_op && is_coop) {
        return Err(ContractError::InvalidOperatorAccount { account: sender.clone() });
    }
    match state.set_questions(&cooperator, questions) {
        Err(e) => Err(e),
        Ok(_) => {
            proof {
                assert(state@.consistent());
            }
            let mut resp = Response::new();
            resp.attributes.push(
                (String::from_str("action"), String::from_str("setQuestions")),
            );
            resp.attributes.push((String::from_str("cooperator"), cooperator));
            proof {
                assert(resp.attributes.deep_view() =~= seq![
                    (("action"@, "setQuestions"@)),
                    (("cooperator"@, cooperator@)),
                ]);
            }
            Ok(resp)
        },
    }
}

/// What issuing a credential does: an address that already holds one is
/// refused and the counter stands still; otherwise the counter value
/// becomes the new token id and the counter advances by exactly one.
pub open spec fn attest_rel(
    pre: StateView,
    sender: String,
    to: String,
    post: StateView,
    r: Result<Response, ContractError>,
) -> bool {
    if pre.tokens.contains_key(to@) {
        &&& r == Err::<Response, ContractError>((ContractError::AlreadyMintedToken))
        &&& post == pre
    } else {
        &&& r matches Ok(resp) && resp.attributes.deep_view() == seq![
            (("action"@, "attest"@)),
            (("payer"@, sender@)),
            (("to"@, to@)),
            (("tokenId"@, dec_digits(pre.counter as int))),
        ]
        &&& post == pre.attest_next(to@)
    }
}

/// Issues the next credential to `to`; fails when `to` already holds one.
pub fn attest(state: &mut SbtState, sender: &String, to: String) -> (r: Result<
    Response,
    ContractError,
>)
    requires
        old(state).wf(),
        old(state)@.consistent(),
        old(state)@.counter < u64::MAX,
    ensures
        final(state).wf(),
        final(state)@.consistent(),
        attest_rel(old(state)@, *sender, to, final(state)@, r),
{
    if state.has_token(&to) {
        return Err(ContractError::AlreadyMintedToken);
    }
    let token_id = match state.get_token_id() {
        Ok(t) => t,
        Err(e) => {
            return Err(e);
        },
    };
    proof {
        assert(!state@.owners.contains_key(token_id));
    }
    match state.save_owner(&token_id, &to) {
        Ok(_) => {},
        Err(e) => {
            return Err(e);
        },
    }
    match state.save_token(&to, &token_id) {
        Ok(_) => {},
        Err(e) => {
            return Err(e);
        },
    }
    match state.increase_counter() {
        Ok(_) => {},
        Err(e) => {
            return Err(e);
        },
    }
    proof {
        let v0 = old(state)@;
        let v1 = state@;
        assert(v1 =~= v0.attest_next(to@));
        let t0 = v0.counter;
        assert forall|t: u64| #[trigger] v1.owners.contains_key(t) implies {
            &&& 1 <= t < v1.counter
            &&& v1.tokens.contains_key(v1.owners[t])
            &&& v1.tokens[v1.owners[t]] == t
        } by {
            if t == t0 {
                assert(v1.owners[t] == to@);
                assert(v1.tokens[to@] == t0);
            } else {
                assert(v0.owners.contains_key(t));
                assert(v0.tokens.contains_key(v0.owners[t]));
                assert(v0.owners[t] != to@);
                assert(v1.tokens[v1.owners[t]] == v0.tokens[v0.owners[t]]);
            }
        }
        assert forall|o: Seq<char>| #[trigger] v1.tokens.contains_key(o) implies {
            &&& v1.owners.contains_key(v1.tokens[o])
            &&& v1.owners[v1.tokens[o]] == o
        } by {
            if o == to@ {
                assert(v1.tokens[o] == t0);
                assert(v1.owners[t0] == to@);
            } else {
                assert(v0.tokens.contains_key(o));
                assert(v0.owners.contains_key(v0.tokens[o]));
                assert(v0.tokens[o] != t0);
                assert(v1.owners[v1.tokens[o]] == v0.owners[v0.tokens[o]]);
            }
        }
        assert forall|p: (Seq<char>, Seq<char>)| #[trigger] v1.approvals.contains_key(p)
            implies {
            &&& v1.tokens.contains_key(p.1)
            &&& v1.approvals[p] == v1.tokens[p.1]
            &&& v1.approved.contains_key(p.0)
            &&& v1.approved[p.0].contains(v1.approvals[p])
        } by {
            assert(v0.approvals.contains_key(p));
            assert(v0.tokens.contains_key(p.1));
            assert(p.1 != to@);
            assert(v1.tokens[p.1] == v0.tokens[p.1]);
        }
        assert forall|t: u64| #[trigger] v1.kyc.contains_key(t) implies v1.owners.contains_key(
            t,
        ) by {
            assert(v0.kyc.contains_key(t));
            assert(v0.owners.contains_key(t));
        }
        assert(v1.consistent());
    }
    let mut resp = Response::new();
    resp.attributes.push((String::from_str("action"), String::from_str("attest")));
    resp.attributes.push((String::from_str("payer"), sender.clone()));
    resp.attributes.push((String::from_str("to"), to));
    resp.attributes.push((String::from_str("tokenId"), crate::digits::u64_to_string(token_id)));
    proof {
        assert(resp.attributes.deep_view() =~= seq![
            (("action"@, "attest"@)),
            (("payer"@, sender@)),
            (("to"@, to@)),
            (("tokenId"@, dec_digits(old(state)@.counter as int))),
        ]);
    }
    Ok(resp)
}

/// What writing a KYC record does: the caller must be an operator and the
/// token must have an owner; the record is overwritten whole.
pub open spec fn set_kyc_data_rel(
    pre: StateView,
    sender: String,
    token_id: TokenId,
    key: Seq<char>,
    validity: u64,
    data: Seq<char>,
    questions: Seq<Seq<char>>,
    post: StateView,
    r: Result<Response, ContractError>,
) -> bool {
    if !pre.has_role(spec_operator_role(), sender@) {
        &&& r == Err::<Response, ContractError>(
            (ContractError::InvalidOperatorAccount { account: sender }),
        )
        &&& post == pre
    } else if !pre.owners.contains_key(token_id) {
        &&& r == Err::<Response, ContractError>((ContractError::InvalidTokenId { token_id }))
        &&& post == pre
    } else {
        &&& r matches Ok(resp) && resp.attributes.deep_view() == seq![
            (("action"@, "setKycData"@)),
            (("tokenId"@, dec_digits(token_id as int))),
        ]
        &&& post == pre.set_kyc_next(
            token_id,
            (KycDataView { key, validity, data, questions }),
        )
    }
}

/// Fully overwrites the KYC record of `token_id`.
pub fn set_kyc_data(
    state: &mut SbtState,
    sender: &String,
    token_id: TokenId,
    key: String,
    validity: u64,
    data: String,
    questions: Vec<String>,
) -> (r: Result<Response, ContractError>)
    requires
        old(state).wf(),
        old(state)@.consistent(),
    ensures
        final(state).wf(),
        final(state)@.consistent(),
        set_kyc_data_rel(
            old(state)@,
            *sender,
            token_id,
            key@,
            validity,
            data@,
            questions.deep_view(),
            final(state)@,
            r,
        ),
{
    let op = operator_role();
    let is_op = match state.has_role(&op, sender) {
        Ok(b) => b,
        Err(e) => {
            return Err(e);
        },
    };
    if !is_op {
        return Err(ContractError::InvalidOperatorAccount { account: sender.clone() });
    }
    let owner_exists = match state.has_owner(&token_id) {
        Ok(b) => b,
        Err(e) => {
            return Err(e);
        },
    };
    if !owner_exists {
        return Err(ContractError::InvalidTokenId { token_id });
    }
    let rec = KycData { key, validity, data, questions };
    match state.save_kyc(&token_id, rec) {
        Err(e) => Err(e),
        Ok(_) => {
            proof {
                let v0 = old(state)@;
                let v1 = state@;
                assert forall|t: u64| #[trigger] v1.kyc.contains_key(t)
                    implies v1.owners.contains_key(t) by {
                    if t != token_id {
                        assert(v0.kyc.contains_key(t));
                    }
                }
                assert(v1.consistent());
            }
            let mut resp = Response::new();
            resp.attributes.push((String::from_str("action"), String::from_str("setKycData")));
            resp.attributes.push(
                (String::from_str("tokenId"), crate::digits::u64_to_string(token_id)),
            );
            proof {
                assert(resp.attributes.deep_view() =~= seq![
                    (("action"@, "setKycData"@)),
                    (("tokenId"@, dec_digits(token_id as int))),
                ]);
            }
            Ok(resp)
        },
    }
}

/// What setting the base URI does: admin only; the global prefix is
/// replaced.
pub open spec fn set_token_base_uri_rel(
    pre: StateView,
    sender: String,
    uri: String,
    post: StateView,
    r: Result<Response, ContractError>,
) -> bool {
    if !pre.has_role(spec_default_admin_role(), sender@) {
        &&& r == Err::<Response, ContractError>(
            (ContractError::InvalidAdminAccount { account: sender }),
        )
        &&& post == pre
    } else {
        &&& r matches Ok(resp) && resp.attributes.deep_view() == seq![
            (("action"@, "setTokenBaseUri"@)),
            (("newUri"@, uri@)),
        ]
        &&& post == (StateView { base_uri: uri@, ..pre })
    }
}

/// Replaces the global token URI prefix.
pub fn set_token_base_uri(state: &mut SbtState, sender: &String, uri: String) -> (r: Result<
    Response,
    ContractError,
>)
    requires
        old(state).wf(),
        old(state)@.consistent(),
    ensures
        final(state).wf(),
        final(state)@.consistent(),
        set_token_base_uri_rel(old(state)@, *sender, uri, final(state)@, r),
{
    let admin = default_admin_role();
    let is_admin = match state.has_role(&admin, sender) {
        Ok(b) => b,
        Err(e) => {
            return Err(e);
        },
    };
    if !is_admin {
        return Err(ContractError::InvalidAdminAccount { account: sender.clone() });
    }
    match state.set_token_base_uri(uri.clone()) {
        Err(e) => Err(e),
        Ok(_) => {
            proof {
                assert(state@.consistent());
            }
            let mut resp = Response::new();
            resp.attributes.push(
                (String::from_str("action"), String::from_str("setTokenBaseUri")),
            );
            resp.attributes.push((String::from_str("newUri"), uri));
            proof {
                assert(resp.attributes.deep_view() =~= seq![
                    (("action"@, "setTokenBaseUri"@)),
                    (("newUri"@, uri@)),
                ]);
            }
            Ok(resp)
        },
    }
}

} // verus!

verus! {

/// What approving does: the caller must own the token, the cooperator
/// must hold the cooperator role and the token must have a KYC record.  A
/// fresh pair is recorded, the token id is appended to the cooperator's
/// list even when the pair already existed, and the snapshot is refreshed
/// from the canonical record under `cooperator_key`.
pub open spec fn approve_rel(
    pre: StateView,
    sender: String,
    cooperator: String,
    token_id: TokenId,
    cooperator_key: String,
    post: StateView,
    r: Result<Response, ContractError>,
) -> bool {
    if !pre.owners.contains_key(token_id) {
        &&& r == Err::<Response, ContractError>((ContractError::InvalidTokenId { token_id }))
        &&& post == pre
    } else if pre.owners[token_id] != sender@ {
        &&& r matches Err(e) && e matches ContractError::InvalidOwner { token_id: t, owner: o }
            && t == token_id && o@ == pre.owners[token_id]
        &&& post == pre
    } else if !pre.has_role(spec_cooperator_role(), cooperator@) {
        &&& r == Err::<Response, ContractError>(
            (ContractError::InvalidCooperatorAccount { account: cooperator }),
        )
        &&& post == pre
    } else if !pre.kyc.contains_key(token_id) {
        &&& r == Err::<Response, ContractError>((ContractError::InvalidTokenId { token_id }))
        &&& post == pre
    } else {
        &&& r matches Ok(resp) && resp.attributes.deep_view() == seq![
            (("action"@, "approve"@)),
            (("cooperator"@, cooperator@)),
            (("tokenId"@, dec_digits(token_id as int))),
            (("user"@, pre.owners[token_id])),
        ]
        &&& post == pre.approve_next(cooperator@, pre.owners[token_id], token_id, cooperator_key@)
    }
}

/// Discloses the KYC record of `token_id` to `cooperator` under a
/// cooperator-scoped key.
pub fn approve(
    state: &mut SbtState,
    sender: &String,
    cooperator: String,
    token_id: TokenId,
    cooperator_key: String,
) -> (r: Result<Response, ContractError>)
    requires
        old(state).wf(),
        old(state)@.consistent(),
    ensures
        final(state).wf(),
        final(state)@.consistent(),
        approve_rel(old(state)@, *sender, cooperator, token_id, cooperator_key, final(state)@, r),
{
    let owner = match state.get_owner(&token_id) {
        Ok(Some(o)) => o,
        Ok(None) => {
            return Err(ContractError::InvalidTokenId { token_id });
        },
        Err(e) => {
            return Err(e);
        },
    };
    if !(owner == *sender) {
        return Err(ContractError::InvalidOwner { token_id, owner });
    }
    let coop_role = cooperator_role();
    let is_coop = match state.has_role(&coop_role, &cooperator) {
        Ok(b) => b,
        Err(e) => {
            return Err(e);
        },
    };
    if !is_coop {
        return Err(ContractError::InvalidCooperatorAccount { account: cooperator });
    }
    if !state.has_kyc(&token_id) {
        return Err(ContractError::InvalidTokenId { token_id });
    }
    match state.save_pu(&cooperator, &owner, token_id) {
        Ok(_) => {},
        Err(e) => {
            return Err(e);
        },
    }
    match state.save_approved(&cooperator, token_id) {
        Ok(_) => {},
        Err(e) => {
            return Err(e);
        },
    }
    match state.save_approved_kyc_data(&cooperator, token_id, cooperator_key) {
        Ok(_) => {},
        Err(e) => {
            return Err(e);
        },
    }
    proof {
        let v0 = old(state)@;
        let v1 = state@;
        assert(v1 =~= v0.approve_next(cooperator@, owner@, token_id, cooperator_key@));
        assert(v0.tokens.contains_key(owner@) && v0.tokens[owner@] == token_id);
        assert forall|p: (Seq<char>, Seq<char>)| #[trigger] v1.approvals.contains_key(p)
            implies {
            &&& v1.tokens.contains_key(p.1)
            &&& v1.approvals[p] == v1.tokens[p.1]
            &&& v1.approved.contains_key(p.0)
            &&& v1.approved[p.0].contains(v1.approvals[p])
        } by {
            let fresh = !v0.approvals.contains_key((cooperator@, owner@));
            if fresh && p == (cooperator@, owner@) {
                assert(v1.approvals[p] == token_id);
                assert(v1.approved[cooperator@] == v0.approved_list(cooperator@).push(
                    token_id,
                ));
                assert(v1.approved[cooperator@][v0.approved_list(cooperator@).len() as int]
                    == token_id);
                assert(v1.approved[p.0].contains(token_id));
            } else {
                assert(v0.approvals.contains_key(p));
                assert(v0.approvals[p] == v1.approvals[p]);
                assert(v0.tokens.contains_key(p.1) && v0.approvals[p] == v0.tokens[p.1]);
                assert(v0.approved.contains_key(p.0) && v0.approved[p.0].contains(
                    v0.approvals[p],
                ));
                if p.0 == cooperator@ {
                    let l0 = v0.approved[cooperator@];
                    let x = v0.approvals[p];
                    let i = choose|i: int| 0 <= i < l0.len() && l0[i] == x;
                    assert(v0.approved_list(cooperator@) == l0);
                    assert(v1.approved[cooperator@] == l0.push(token_id));
                    assert(v1.approved[cooperator@][i] == x);
                    assert(v1.approved[p.0].contains(x));
                } else {
                    assert(v1.approved[p.0] == v0.approved[p.0]);
                }
            }
        }
        assert(v1.consistent());
    }
    let mut resp = Response::new();
    resp.attributes.push((String::from_str("action"), String::from_str("approve")));
    resp.attributes.push((String::from_str("cooperator"), cooperator));
    resp.attributes.push((String::from_str("tokenId"), crate::digits::u64_to_string(token_id)));
    resp.attributes.push((String::from_str("user"), owner));
    proof {
        assert(resp.attributes.deep_view() =~= seq![
            (("action"@, "approve"@)),
            (("cooperator"@, cooperator@)),
            (("tokenId"@, dec_digits(token_id as int))),
            (("user"@, old(state)@.owners[token_id])),
        ]);
    }
    Ok(resp)
}

} // verus!

verus! {

/// What revoking a disclosure does: the caller must own the token, the
/// cooperator must hold the cooperator role and a pair must exist.  The
/// pair and every listed copy of the token id leave; the snapshot is
/// deliberately retained.
pub open spec fn revoke_rel(
    pre: StateView,
    sender: String,
    cooperator: String,
    token_id: TokenId,
    post: StateView,
    r: Result<Response, ContractError>,
) -> bool {
    if !pre.owners.contains_key(token_id) {
        &&& r == Err::<Response, ContractError>((ContractError::InvalidTokenId { token_id }))
        &&& post == pre
    } else if pre.owners[token_id] != sender@ {
        &&& r matches Err(e) && e matches ContractError::InvalidOwner { token_id: t, owner: o }
            && t == token_id && o@ == pre.owners[token_id]
        &&& post == pre
    } else if !pre.has_role(spec_cooperator_role(), cooperator@) {
        &&& r == Err::<Response, ContractError>(
            (ContractError::InvalidCooperatorAccount { account: cooperator }),
        )
        &&& post == pre
    } else if !pre.approvals.contains_key((cooperator@, pre.owners[token_id])) {
        &&& r matches Err(e) && e matches ContractError::InvalidRevokeFromCooperator {
            owner: o,
            cooperator: c,
        } && o@ == pre.owners[token_id] && c == cooperator
        &&& post == pre
    } else {
        &&& r matches Ok(resp) && resp.attributes.deep_view() == seq![
            (("action"@, "revoke"@)),
            (("cooperator"@, cooperator@)),
            (("tokenId"@, dec_digits(token_id as int))),
            (("user"@, pre.owners[token_id])),
        ]
        &&& post == pre.revoke_next(cooperator@, pre.owners[token_id], token_id)
    }
}

/// Withdraws the disclosure of `token_id` from `cooperator`; the snapshot
/// the cooperator already holds stays behind.
pub fn revoke(
    state: &mut SbtState,
    sender: &String,
    cooperator: String,
    token_id: TokenId,
) -> (r: Result<Response, ContractError>)
    requires
        old(state).wf(),
        old(state)@.consistent(),
    ensures
        final(state).wf(),
        final(state)@.consistent(),
        revoke_rel(old(state)@, *sender, cooperator, token_id, final(state)@, r),
{
    let owner = match state.get_owner(&token_id) {
        Ok(Some(o)) => o,
        Ok(None) => {
            return Err(ContractError::InvalidTokenId { token_id });
        },
        Err(e) => {
            return Err(e);
        },
    };
    if !(owner == *sender) {
        return Err(ContractError::InvalidOwner { token_id, owner });
    }
    let coop_role = cooperator_role();
    let is_coop = match state.has_role(&coop_role, &cooperator) {
        Ok(b) => b,
        Err(e) => {
            return Err(e);
        },
    };
    if !is_coop {
        return Err(ContractError::InvalidCooperatorAccount { account: cooperator });
    }
    if !state.has_approve(&cooperator, &owner) {
        return Err(ContractError::InvalidRevokeFromCooperator { owner, cooperator });
    }
    state.remove_pu(&cooperator, &owner);
    match state.remove_approved(&cooperator, token_id) {
        Ok(_) => {},
        Err(e) => {
            return Err(e);
        },
    }
    proof {
        let v0 = old(state)@;
        let v1 = state@;
        assert(v1 =~= v0.revoke_next(cooperator@, owner@, token_id));
        assert(v0.tokens.contains_key(owner@) && v0.tokens[owner@] == token_id);
        assert forall|p: (Seq<char>, Seq<char>)| #[trigger] v1.approvals.contains_key(p)
            implies {
            &&& v1.tokens.contains_key(p.1)
            &&& v1.approvals[p] == v1.tokens[p.1]
            &&& v1.approved.contains_key(p.0)
            &&& v1.approved[p.0].contains(v1.approvals[p])
        } by {
            assert(p != (cooperator@, owner@));
            assert(v0.approvals.contains_key(p));
            assert(v0.approvals[p] == v1.approvals[p]);
            assert(v0.tokens.contains_key(p.1) && v0.approvals[p] == v0.tokens[p.1]);
            assert(v0.approved.contains_key(p.0) && v0.approved[p.0].contains(
                v0.approvals[p],
            ));
            if p.0 == cooperator@ && v0.approved.contains_key(cooperator@) {
                let l0 = v0.approved[cooperator@];
                let x = v0.approvals[p];
                assert(x != token_id) by {
                    if x == token_id {
                        assert(v0.owners.contains_key(v0.tokens[p.1]));
                        assert(v0.owners[v0.tokens[p.1]] == p.1);
                        assert(v0.owners[token_id] == owner@);
                    }
                }
                crate::vecs::lemma_without_id_contains(l0, token_id, x);
                assert(v1.approved[p.0] == crate::vecs::without_id(l0, token_id));
                assert(v1.approved[p.0].contains(x));
            } else {
                assert(v1.approved[p.0] == v0.approved[p.0]);
            }
        }
        assert(v1.consistent());
    }
    let mut resp = Response::new();
    resp.attributes.push((String::from_str("action"), String::from_str("revoke")));
    resp.attributes.push((String::from_str("cooperator"), cooperator));
    resp.attributes.push((String::from_str("tokenId"), crate::digits::u64_to_string(token_id)));
    resp.attributes.push((String::from_str("user"), owner));
    proof {
        assert(resp.attributes.deep_view() =~= seq![
            (("action"@, "revoke"@)),
            (("cooperator"@, cooperator@)),
            (("tokenId"@, dec_digits(token_id as int))),
            (("user"@, old(state)@.owners[token_id])),
        ]);
    }
    Ok(resp)
}

} // verus!

verus! {

/// Dispatches one mutating request.  Burning is excluded by design: the
/// message shape exists but no call with it is admitted.
pub fn execute(state: &mut SbtState, sender: &String, msg: ExecuteMsg) -> (r: Result<
    Response,
    ContractError,
>)
    requires
        old(state).wf(),
        old(state)@.consistent(),
        !(msg matches ExecuteMsg::Burn { .. }),
        msg matches ExecuteMsg::Attest { .. } ==> old(state)@.counter < u64::MAX,
    ensures
        final(state).wf(),
        final(state)@.consistent(),
        msg matches ExecuteMsg::GrantRole { role, user } ==> grant_role_rel(
            old(state)@,
            *sender,
            role,
            user,
            final(state)@,
            r,
        ),
        msg matches ExecuteMsg::RevokeRole { role, user } ==> revoke_role_rel(
            old(state)@,
            *sender,
            role,
            user,
            final(state)@,
            r,
        ),
        msg matches ExecuteMsg::SetQuestions { cooperator, questions } ==> set_questions_rel(
            old(state)@,
            *sender,
            cooperator,
            questions.deep_view(),
            final(state)@,
            r,
        ),
        msg matches ExecuteMsg::Attest { to } ==> attest_rel(
            old(state)@,
            *sender,
            to,
            final(state)@,
            r,
        ),
        msg matches ExecuteMsg::SetKycData { token_id, key, validity, data, questions }
            ==> set_kyc_data_rel(
            old(state)@,
            *sender,
            token_id,
            key@,
            validity,
            data@,
            questions.deep_view(),
            final(state)@,
            r,
        ),
        msg matches ExecuteMsg::SetTokenBaseUri { uri } ==> set_token_base_uri_rel(
            old(state)@,
            *sender,
            uri,
            final(state)@,
            r,
        ),
        msg matches ExecuteMsg::Approve { cooperator, token_id, cooperator_key } ==> approve_rel(
            old(state)@,
            *sender,
            cooperator,
            token_id,
            cooperator_key,
            final(state)@,
            r,
        ),
        msg matches ExecuteMsg::Revoke { cooperator, token_id } ==> revoke_rel(
            old(state)@,
            *sender,
            cooperator,
            token_id,
            final(state)@,
            r,
        ),
{
    match msg {
        ExecuteMsg::GrantRole { role, user } => grant_role(state, sender, &role, user),
        ExecuteMsg::RevokeRole { role, user } => revoke_role(state, sender, &role, user),
        ExecuteMsg::SetQuestions { cooperator, questions } => set_questions(
            state,
            sender,
            cooperator,
            questions,
        ),
        ExecuteMsg::Attest { to } => attest(state, sender, to),
        ExecuteMsg::Burn { from: _, token_id: _ } => vstd::pervasive::unreached(),
        ExecuteMsg::SetKycData { token_id, key, validity, data, questions } => set_kyc_data(
            state,
            sender,
            token_id,
            key,
            validity,
            data,
            questions,
        ),
        ExecuteMsg::SetTokenBaseUri { uri } => set_token_base_uri(state, sender, uri),
        ExecuteMsg::Approve { cooperator, token_id, cooperator_key } => approve(
            state,
            sender,
            cooperator,
            token_id,
            cooperator_key,
        ),
        ExecuteMsg::Revoke { cooperator, token_id } => revoke(state, sender, cooperator, token_id),
    }
}

} // verus!
