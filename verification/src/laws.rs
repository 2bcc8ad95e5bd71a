//! The registry's laws, proved once and for all over the state model and
//! the entry-point relations.

use vstd::prelude::*;
use crate::error::ContractError;
use crate::execute::{attest_rel, grant_role_rel, revoke_role_rel};
use crate::msg::Response;
use crate::query::spec_verify_result;
use crate::state::{KycDataView, StateView, spec_default_admin_role, spec_operator_role};

verus! {

/// A credential is issued at most once per address: after a successful
/// issuance to `a`, any second issuance for `a` fails with
/// `AlreadyMintedToken` and leaves the state — the counter included —
/// exactly as it stood.
pub proof fn lemma_mint_once(
    pre: StateView,
    sender: String,
    a: String,
    post: StateView,
    r: Result<Response, ContractError>,
)
    requires
        attest_rel(pre.attest_next(a@), sender, a, post, r),
    ensures
        r == Err::<Response, ContractError>((ContractError::AlreadyMintedToken)),
        post == pre.attest_next(a@),
        post.counter == pre.attest_next(a@).counter,
{
    assert(pre.attest_next(a@).tokens.contains_key(a@));
}

/// The credential ledger is a bijection: the owner of every issued token
/// holds exactly that token, and every holder's token is owned by exactly
/// that holder.  Every operation preserves `consistent`, and no transfer
/// or burn path exists, so this holds for the lifetime of the system.
pub proof fn lemma_ledger_bijective(v: StateView, t: u64, o: Seq<char>)
    requires
        v.consistent(),
    ensures
        v.owners.contains_key(t) ==> v.tokens.contains_key(v.owners[t]) && v.tokens[v.owners[t]]
            == t,
        v.tokens.contains_key(o) ==> v.owners.contains_key(v.tokens[o]) && v.owners[v.tokens[o]]
            == o,
{
}

/// No two addresses share a token id: distinct holders hold distinct
/// tokens.
pub proof fn lemma_no_shared_token(v: StateView, o1: Seq<char>, o2: Seq<char>)
    requires
        v.consistent(),
        v.tokens.contains_key(o1),
        v.tokens.contains_key(o2),
        o1 != o2,
    ensures
        v.tokens[o1] != v.tokens[o2],
{
    assert(v.owners[v.tokens[o1]] == o1);
    assert(v.owners[v.tokens[o2]] == o2);
}

/// Granting a role to an address that already holds it fails with
/// `AlreadyGrantRole` and changes nothing.
pub proof fn lemma_grant_already_member(
    pre: StateView,
    sender: String,
    role: String,
    user: String,
    post: StateView,
    r: Result<Response, ContractError>,
)
    requires
        pre.has_role(spec_operator_role(), sender@),
        pre.has_role(role@, user@),
        grant_role_rel(pre, sender, role, user, post, r),
    ensures
        r == Err::<Response, ContractError>(
            (ContractError::AlreadyGrantRole { account: user, role: role }),
        ),
        post == pre,
{
}

/// Revoking a role from an address that does not hold it succeeds and
/// changes nothing.
pub proof fn lemma_revoke_non_member(
    pre: StateView,
    sender: String,
    role: String,
    user: String,
    post: StateView,
    r: Result<Response, ContractError>,
)
    requires
        pre.has_role(spec_default_admin_role(), sender@),
        !pre.has_role(role@, user@),
        revoke_role_rel(pre, sender, role, user, post, r),
    ensures
        r matches Ok(_),
        post == pre,
{
}

/// After an approval the pair is recorded; after the following
/// revocation it is gone, yet the cooperator's snapshot of the token —
/// the canonical record under the cooperator-scoped key — survives.
/// That the snapshot outlives the revocation is the shipped behaviour.
pub proof fn lemma_approve_then_revoke(
    pre: StateView,
    c: Seq<char>,
    o: Seq<char>,
    t: u64,
    k: Seq<char>,
)
    requires
        pre.kyc.contains_key(t),
    ensures
        pre.approve_next(c, o, t, k).approvals.contains_key((c, o)),
        !pre.approve_next(c, o, t, k).revoke_next(c, o, t).approvals.contains_key((c, o)),
        pre.approve_next(c, o, t, k).revoke_next(c, o, t).snapshots.contains_key((c, t)),
        pre.approve_next(c, o, t, k).revoke_next(c, o, t).snapshots[(c, t)] == (KycDataView {
            key: k,
            ..pre.kyc[t]
        }),
{
}

/// A cooperator that never configured a question set verifies nobody,
/// whatever questions the user's own record holds.
pub proof fn lemma_unconfigured_cooperator_never_verifies(
    v: StateView,
    c: Seq<char>,
    u: Seq<char>,
    now: u64,
)
    requires
        !v.questions.contains_key(c),
    ensures
        !spec_verify_result(v, c, u, now),
{
}

} // verus!
