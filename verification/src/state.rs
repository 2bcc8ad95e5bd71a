//! The registry state: role membership, the credential ledger, the KYC
//! store and the disclosure maps, held as one explicit value.
//!
//! Every operation is specified against [`StateView`], the mathematical
//! model of the state: a record of maps from key views to value views.
//! [`StateView::consistent`] states the cross-map invariants that every
//! successful operation preserves.

use vstd::prelude::*;
use crate::alist::AList;
use crate::error::ContractError;
use crate::vecs;

verus! {

/// A credential identifier.
pub type TokenId = u64;

/// The role that may revoke roles and set the base URI.
pub fn default_admin_role() -> (r: String)
    ensures
        r@ == spec_default_admin_role(),
{
    String::from_str("default_admin_role")
}

/// The view of the admin role name.
pub open spec fn spec_default_admin_role() -> Seq<char> {
    "default_admin_role"@
}

/// The role that may grant roles, write KYC records and configure
/// cooperator question sets.
pub fn operator_role() -> (r: String)
    ensures
        r@ == spec_operator_role(),
{
    String::from_str("zkme_operator")
}

/// The view of the operator role name.
pub open spec fn spec_operator_role() -> Seq<char> {
    "zkme_operator"@
}

/// The role that marks an address as a third party open to disclosure.
pub fn cooperator_role() -> (r: String)
    ensures
        r@ == spec_cooperator_role(),
{
    String::from_str("zkme_cooperator")
}

/// The view of the cooperator role name.
pub open spec fn spec_cooperator_role() -> Seq<char> {
    "zkme_cooperator"@
}

/// The inspector role, granted at genesis.
pub fn inspector_role() -> (r: String)
    ensures
        r@ == spec_inspector_role(),
{
    String::from_str("zkme_inspector")
}

/// The view of the inspector role name.
pub open spec fn spec_inspector_role() -> Seq<char> {
    "zkme_inspector"@
}

/// The member set of one role, in insertion order, without duplicates.
pub struct RoleData {
    pub members: Vec<String>,
}

impl View for RoleData {
    type V = Seq<Seq<char>>;

    open spec fn view(&self) -> Seq<Seq<char>> {
        self.members.deep_view()
    }
}

impl DeepView for RoleData {
    type V = Seq<Seq<char>>;

    open spec fn deep_view(&self) -> Seq<Seq<char>> {
        self.view()
    }
}

/// The KYC payload of one credential: a disclosure key, an absolute
/// validity deadline, an opaque data blob and the question ids the holder
/// can prove.
#[derive(Debug, PartialEq, Eq)]
pub struct KycData {
    pub key: String,
    pub validity: u64,
    pub data: String,
    pub questions: Vec<String>,
}

/// The mathematical view of a [`KycData`].
pub struct KycDataView {
    pub key: Seq<char>,
    pub validity: u64,
    pub data: Seq<char>,
    pub questions: Seq<Seq<char>>,
}

impl View for KycData {
    type V = KycDataView;

    open spec fn view(&self) -> KycDataView {
        KycDataView {
            key: self.key@,
            validity: self.validity,
            data: self.data@,
            questions: self.questions.deep_view(),
        }
    }
}

impl DeepView for KycData {
    type V = KycDataView;

    open spec fn deep_view(&self) -> KycDataView {
        self.view()
    }
}

impl Clone for KycData {
    /// An equal copy, field by field.
    fn clone(&self) -> (r: Self)
        ensures
            r@ == self@,
    {
        KycData {
            key: self.key.clone(),
            validity: self.validity,
            data: self.data.clone(),
            questions: vecs::clone_string_vec(&self.questions),
        }
    }
}

/// No two elements are equal.
pub open spec fn distinct_seq(s: Seq<Seq<char>>) -> bool {
    forall|i: int, j: int| 0 <= i < j < s.len() ==> s[i] != s[j]
}

/// Filtering keeps elements pairwise distinct and introduces none.
pub proof fn lemma_filter_distinct(s: Seq<Seq<char>>, pred: spec_fn(Seq<char>) -> bool)
    requires
        distinct_seq(s),
    ensures
        distinct_seq(s.filter(pred)),
        forall|x: Seq<char>| #[trigger] s.filter(pred).contains(x) ==> s.contains(x),
    decreases s.len(),
{
    reveal_with_fuel(Seq::<Seq<char>>::filter, 2);
    if s.len() == 0 {
    } else {
        let sub = s.drop_last();
        let last = s.last();
        assert(distinct_seq(sub)) by {
            assert forall|i: int, j: int| 0 <= i < j < sub.len() implies sub[i] != sub[j] by {
                assert(sub[i] == s[i] && sub[j] == s[j]);
            }
        }
        lemma_filter_distinct(sub, pred);
        assert forall|x: Seq<char>| #[trigger] sub.contains(x) implies s.contains(x) by {
            let i = choose|i: int| 0 <= i < sub.len() && sub[i] == x;
            assert(s[i] == x);
        }
        if pred(last) {
            let f = sub.filter(pred).push(last);
            assert(s.filter(pred) == f);
            assert(!sub.contains(last)) by {
                if sub.contains(last) {
                    let i = choose|i: int| 0 <= i < sub.len() && sub[i] == last;
                    assert(s[i] == s[s.len() - 1]);
                }
            }
            assert(distinct_seq(f)) by {
                assert forall|i: int, j: int| 0 <= i < j < f.len() implies f[i] != f[j] by {
                    if j < f.len() - 1 {
                        assert(f[i] == sub.filter(pred)[i] && f[j] == sub.filter(pred)[j]);
                    } else {
                        assert(f[j] == last);
                        assert(f[i] == sub.filter(pred)[i]);
                        assert(sub.filter(pred).contains(sub.filter(pred)[i]));
                        assert(sub.contains(f[i]));
                    }
                }
            }
            assert forall|x: Seq<char>| #[trigger] f.contains(x) implies s.contains(x) by {
                let i = choose|i: int| 0 <= i < f.len() && f[i] == x;
                if i < f.len() - 1 {
                    assert(sub.filter(pred)[i] == x);
                    assert(sub.filter(pred).contains(x));
                    assert(sub.contains(x));
                } else {
                    assert(x == last);
                    assert(s[s.len() - 1] == x);
                }
            }
        } else {
            assert(s.filter(pred) == sub.filter(pred));
            assert forall|x: Seq<char>| #[trigger] s.filter(pred).contains(x) implies s.contains(
                x,
            ) by {
                assert(sub.filter(pred).contains(x));
                assert(sub.contains(x));
            }
        }
    }
}

/// The whole registry state.
pub struct SbtState {
    pub roles: AList<String, RoleData>,
    pub questions: AList<String, Vec<String>>,
    pub counter: u64,
    pub owners: AList<u64, String>,
    pub tokens: AList<String, u64>,
    pub base_uri: String,
    pub kyc: AList<u64, KycData>,
    pub approvals: AList<(String, String), TokenId>,
    pub approved: AList<String, Vec<u64>>,
    pub snapshots: AList<(String, u64), KycData>,
}

/// The mathematical model of the registry state.
pub struct StateView {
    /// Role name to member views, in insertion order.
    pub roles: Map<Seq<char>, Seq<Seq<char>>>,
    /// Cooperator to its required question ids.
    pub questions: Map<Seq<char>, Seq<Seq<char>>>,
    /// The next token id; `counter - 1` credentials were issued.
    pub counter: u64,
    /// Token id to owner.
    pub owners: Map<u64, Seq<char>>,
    /// Owner to token id.
    pub tokens: Map<Seq<char>, u64>,
    /// Global prefix of every token URI.
    pub base_uri: Seq<char>,
    /// Token id to its canonical KYC record.
    pub kyc: Map<u64, KycDataView>,
    /// (cooperator, owner) to the disclosed token id.
    pub approvals: Map<(Seq<char>, Seq<char>), u64>,
    /// Cooperator to the token ids approved to it, in insertion order.
    pub approved: Map<Seq<char>, Seq<u64>>,
    /// (cooperator, token) to the cooperator-scoped KYC snapshot.
    pub snapshots: Map<(Seq<char>, u64), KycDataView>,
}

impl View for SbtState {
    type V = StateView;

    open spec fn view(&self) -> StateView {
        StateView {
            roles: self.roles@,
            questions: self.questions@,
            counter: self.counter,
            owners: self.owners@,
            tokens: self.tokens@,
            base_uri: self.base_uri@,
            kyc: self.kyc@,
            approvals: self.approvals@,
            approved: self.approved@,
            snapshots: self.snapshots@,
        }
    }
}

impl StateView {
    /// The state before any operation: no roles, no credentials, counter 1.
    pub open spec fn initial() -> StateView {
        StateView {
            roles: Map::empty(),
            questions: Map::empty(),
            counter: 1,
            owners: Map::empty(),
            tokens: Map::empty(),
            base_uri: Seq::empty(),
            kyc: Map::empty(),
            approvals: Map::empty(),
            approved: Map::empty(),
            snapshots: Map::empty(),
        }
    }

    /// `account` is a member of `role`.
    pub open spec fn has_role(self, role: Seq<char>, account: Seq<char>) -> bool {
        self.roles.contains_key(role) && self.roles[role].contains(account)
    }

    /// The token ids approved to `cooperator`, an empty sequence when none
    /// ever was.
    pub open spec fn approved_list(self, cooperator: Seq<char>) -> Seq<u64> {
        if self.approved.contains_key(cooperator) {
            self.approved[cooperator]
        } else {
            Seq::empty()
        }
    }

    /// The cross-map invariants of the registry, preserved by every
    /// successful operation:
    /// owner and token maps form a bijection over issued ids below the
    /// counter, every approval pair points at the token of its owner and
    /// is listed for its cooperator, every KYC record belongs to an issued
    /// token, and role member sets hold no duplicates.
    pub open spec fn consistent(self) -> bool {
        &&& self.counter >= 1
        &&& forall|t: u64| #[trigger] self.owners.contains_key(t) ==> {
            &&& 1 <= t < self.counter
            &&& self.tokens.contains_key(self.owners[t])
            &&& self.tokens[self.owners[t]] == t
        }
        &&& forall|o: Seq<char>| #[trigger] self.tokens.contains_key(o) ==> {
            &&& self.owners.contains_key(self.tokens[o])
            &&& self.owners[self.tokens[o]] == o
        }
        &&& forall|p: (Seq<char>, Seq<char>)| #[trigger] self.approvals.contains_key(p) ==> {
            &&& self.tokens.contains_key(p.1)
            &&& self.approvals[p] == self.tokens[p.1]
            &&& self.approved.contains_key(p.0)
            &&& self.approved[p.0].contains(self.approvals[p])
        }
        &&& forall|t: u64| #[trigger] self.kyc.contains_key(t) ==> self.owners.contains_key(t)
        &&& forall|r: Seq<char>| #[trigger] self.roles.contains_key(r) ==> distinct_seq(
            self.roles[r],
        )
    }

    /// The state after granting `account` the role `role`.
    pub open spec fn grant(self, role: Seq<char>, account: Seq<char>) -> StateView {
        let members = if self.roles.contains_key(role) {
            self.roles[role].push(account)
        } else {
            seq![account]
        };
        StateView { roles: self.roles.insert(role, members), ..self }
    }

    /// The state at genesis: the four well-known roles, each granted to
    /// the deployer alone, and the counter at 1.
    pub open spec fn genesis(deployer: Seq<char>) -> StateView {
        StateView::initial().grant(spec_default_admin_role(), deployer).grant(
            spec_operator_role(),
            deployer,
        ).grant(spec_cooperator_role(), deployer).grant(spec_inspector_role(), deployer)
    }

    /// The state after issuing the next credential to `to`: the counter
    /// value becomes the token id of `to` and the counter advances by one.
    pub open spec fn attest_next(self, to: Seq<char>) -> StateView {
        StateView {
            counter: (self.counter + 1) as u64,
            owners: self.owners.insert(self.counter, to),
            tokens: self.tokens.insert(to, self.counter),
            ..self
        }
    }

    /// The state after fully overwriting the KYC record of `token_id`.
    pub open spec fn set_kyc_next(self, token_id: u64, rec: KycDataView) -> StateView {
        StateView { kyc: self.kyc.insert(token_id, rec), ..self }
    }

    /// The state after `owner` approves `token_id` to `cooperator`: a new
    /// pair is recorded unless one exists, the token id is appended to the
    /// cooperator's list unconditionally, and the snapshot is created or
    /// refreshed from the canonical record under `cooperator_key`.
    pub open spec fn approve_next(
        self,
        cooperator: Seq<char>,
        owner: Seq<char>,
        token_id: u64,
        cooperator_key: Seq<char>,
    ) -> StateView {
        let approvals = if self.approvals.contains_key((cooperator, owner)) {
            self.approvals
        } else {
            self.approvals.insert((cooperator, owner), token_id)
        };
        StateView {
            approvals,
            approved: self.approved.insert(
                cooperator,
                self.approved_list(cooperator).push(token_id),
            ),
            snapshots: self.snapshots.insert(
                (cooperator, token_id),
                (KycDataView { key: cooperator_key, ..self.kyc[token_id] }),
            ),
            ..self
        }
    }

    /// The state after `owner` revokes `token_id` from `cooperator`: the
    /// pair leaves, every copy of the token id leaves the cooperator's
    /// list, and the snapshot stays.
    pub open spec fn revoke_next(self, cooperator: Seq<char>, owner: Seq<char>, token_id: u64) -> StateView {
        let approved = if self.approved.contains_key(cooperator) {
            self.approved.insert(
                cooperator,
                vecs::without_id(self.approved[cooperator], token_id),
            )
        } else {
            self.approved
        };
        StateView {
            approvals: self.approvals.remove((cooperator, owner)),
            approved,
            ..self
        }
    }

    /// The state after revoking the role `role` from `account`.
    pub open spec fn revoke_member(self, role: Seq<char>, account: Seq<char>) -> StateView {
        if self.has_role(role, account) {
            StateView {
                roles: self.roles.insert(
                    role,
                    self.roles[role].filter(|m: Seq<char>| m != account),
                ),
                ..self
            }
        } else {
            self
        }
    }
}

impl SbtState {
    /// The representation invariant: every map holds pairwise-distinct keys.
    pub open spec fn wf(self) -> bool {
        &&& self.roles.wf()
        &&& self.questions.wf()
        &&& self.owners.wf()
        &&& self.tokens.wf()
        &&& self.kyc.wf()
        &&& self.approvals.wf()
        &&& self.approved.wf()
        &&& self.snapshots.wf()
    }

    /// An empty registry.
    pub fn new() -> (r: SbtState)
        ensures
            r.wf(),
            r@ == StateView::initial(),
    {
        let r = SbtState {
            roles: AList::new(),
            questions: AList::new(),
            counter: 1,
            owners: AList::new(),
            tokens: AList::new(),
            base_uri: String::new(),
            kyc: AList::new(),
            approvals: AList::new(),
            approved: AList::new(),
            snapshots: AList::new(),
        };
        proof {
            assert(r.base_uri@ =~= Seq::<char>::empty());
            assert(r@ =~= StateView::initial());
        }
        r
    }

    /// Whether the role `role` was ever granted.
    pub fn existing_role(&self, role: &String) -> (r: bool)
        ensures
            r == self@.roles.contains_key(role@),
    {
        self.roles.contains_key(role)
    }

    /// Whether `account` is a member of `role`; never fails.
    pub fn has_role(&self, role: &String, account: &String) -> (r: Result<
        bool,
        ContractError,
    >)
        requires
            self.wf(),
        ensures
            r == Ok::<bool, ContractError>(self@.has_role(role@, account@)),
    {
        match self.roles.get(role) {
            Some(rd) => Ok(vecs::contains_string(&rd.members, account)),
            None => Ok(false),
        }
    }

    /// Adds `account` to `role`, creating the role on first use; fails
    /// when `account` is already a member, leaving the state unchanged.
    pub fn grant_role(&mut self, role: &String, account: String) -> (r: Result<
        (),
        ContractError,
    >)
        requires
            old(self).wf(),
        ensures
            final(self).wf(),
            old(self)@.has_role(role@, account@) ==> {
                &&& r == Err::<(), ContractError>(
                    (ContractError::AlreadyGrantRole { account: account, role: *role }),
                )
                &&& final(self)@ == old(self)@
            },
            !old(self)@.has_role(role@, account@) ==> {
                &&& r == Ok::<(), ContractError>(())
                &&& final(self)@ == old(self)@.grant(role@, account@)
            },
    {
        match self.roles.take(role) {
            Some(rd) => {
                if vecs::contains_string(&rd.members, &account) {
                    let e = ContractError::AlreadyGrantRole {
                        account: account,
                        role: role.clone(),
                    };
                    self.roles.set(role.clone(), rd);
                    proof {
                        assert(self.roles@ =~= old(self).roles@);
                        assert(self@ =~= old(self)@);
                    }
                    Err(e)
                } else {
                    let mut rd = rd;
                    rd.members.push(account);
                    proof {
                        assert(rd@ =~= old(self)@.roles[role@].push(account@));
                    }
                    self.roles.set(role.clone(), rd);
                    proof {
                        assert(self.roles@ =~= old(self)@.grant(role@, account@).roles);
                        assert(self@ =~= old(self)@.grant(role@, account@));
                    }
                    Ok(())
                }
            },
            None => {
                let mut members: Vec<String> = Vec::new();
                members.push(account);
                let rd = RoleData { members };
                proof {
                    assert(rd@ =~= seq![account@]);
                }
                self.roles.set(role.clone(), rd);
                proof {
                    assert(self.roles@ =~= old(self)@.grant(role@, account@).roles);
                    assert(self@ =~= old(self)@.grant(role@, account@));
                }
                Ok(())
            },
        }
    }

    /// Removes `account` from `role`; succeeds with no change when it is
    /// not a member.
    pub fn revoke_role(&mut self, role: &String, account: &String) -> (r: Result<
        (),
        ContractError,
    >)
        requires
            old(self).wf(),
        ensures
            final(self).wf(),
            r == Ok::<(), ContractError>(()),
            final(self)@ == old(self)@.revoke_member(role@, account@),
    {
        match self.roles.take(role) {
            Some(rd) => {
                if vecs::contains_string(&rd.members, account) {
                    let members = vecs::filter_string_ne(rd.members, account);
                    self.roles.set(role.clone(), RoleData { members });
                    proof {
                        assert(self.roles@ =~= old(self)@.revoke_member(role@, account@).roles);
                        assert(self@ =~= old(self)@.revoke_member(role@, account@));
                    }
                } else {
                    self.roles.set(role.clone(), rd);
                    proof {
                        assert(self.roles@ =~= old(self).roles@);
                        assert(self@ =~= old(self)@);
                    }
                }
                Ok(())
            },
            None => {
                proof {
                    assert(self.roles@ =~= old(self).roles@);
                    assert(self@ =~= old(self)@);
                }
                Ok(())
            },
        }
    }

    /// Whether `cooperator` ever had a question set configured.
    pub fn has_questions(&self, cooperator: &String) -> (r: bool)
        ensures
            r == self@.questions.contains_key(cooperator@),
    {
        self.questions.contains_key(cooperator)
    }

    /// Overwrites the question set of `cooperator`.
    pub fn set_questions(&mut self, cooperator: &String, questions: Vec<String>) -> (r: Result<
        (),
        ContractError,
    >)
        requires
            old(self).wf(),
        ensures
            final(self).wf(),
            r == Ok::<(), ContractError>(()),
            final(self)@ == (StateView {
                questions: old(self)@.questions.insert(cooperator@, questions.deep_view()),
                ..old(self)@
            }),
    {
        self.questions.set(cooperator.clone(), questions);
        Ok(())
    }

    /// The question set of `cooperator`, `None` when never configured.
    pub fn get_questions(&self, cooperator: &String) -> (r: Result<
        Option<Vec<String>>,
        ContractError,
    >)
        requires
            self.wf(),
        ensures
            self@.questions.contains_key(cooperator@) ==> (r matches Ok(q) && q matches Some(v)
                && v.deep_view() == self@.questions[cooperator@]),
            !self@.questions.contains_key(cooperator@) ==> r == Ok::<
                Option<Vec<String>>,
                ContractError,
            >(None),
    {
        match self.questions.get(cooperator) {
            Some(v) => Ok(Some(vecs::clone_string_vec(v))),
            None => Ok(None),
        }
    }

    /// Resets the token counter to its genesis value.
    pub fn initialize_counter(&mut self) -> (r: Result<(), ContractError>)
        requires
            old(self).wf(),
        ensures
            final(self).wf(),
            r == Ok::<(), ContractError>(()),
            final(self)@ == (StateView { counter: 1, ..old(self)@ }),
    {
        self.counter = 1;
        Ok(())
    }

    /// Advances the token counter by exactly one.
    pub fn increase_counter(&mut self) -> (r: Result<(), ContractError>)
        requires
            old(self).wf(),
            old(self)@.counter < u64::MAX,
        ensures
            final(self).wf(),
            r == Ok::<(), ContractError>(()),
            final(self)@ == (StateView {
                counter: (old(self)@.counter + 1) as u64,
                ..old(self)@
            }),
    {
        self.counter = self.counter + 1;
        Ok(())
    }

    /// The current counter value: the id the next issuance will use.
    pub fn get_token_id(&self) -> (r: Result<TokenId, ContractError>)
        ensures
            r == Ok::<TokenId, ContractError>(self@.counter),
    {
        Ok(self.counter)
    }
}

} // verus!

verus! {

impl SbtState {
    /// Whether token `k` has an owner.
    pub fn has_owner(&self, k: &TokenId) -> (r: Result<bool, ContractError>)
        ensures
            r == Ok::<bool, ContractError>(self@.owners.contains_key(*k)),
    {
        Ok(self.owners.contains_key(k))
    }

    /// Records `v` as the owner of token `k` unless the token already has
    /// one; an owned token is never reassigned.
    pub fn save_owner(&mut self, k: &TokenId, v: &String) -> (r: Result<(), ContractError>)
        requires
            old(self).wf(),
        ensures
            final(self).wf(),
            r == Ok::<(), ContractError>(()),
            old(self)@.owners.contains_key(*k) ==> final(self)@ == old(self)@,
            !old(self)@.owners.contains_key(*k) ==> final(self)@ == (StateView {
                owners: old(self)@.owners.insert(*k, v@),
                ..old(self)@
            }),
    {
        if !self.owners.contains_key(k) {
            self.owners.set(*k, v.clone());
            proof {
                assert(self@ =~= (StateView {
                    owners: old(self)@.owners.insert(*k, v@),
                    ..old(self)@
                }));
            }
        }
        Ok(())
    }

    /// The owner of token `k`, `None` when the token was never issued.
    pub fn get_owner(&self, k: &TokenId) -> (r: Result<Option<String>, ContractError>)
        requires
            self.wf(),
        ensures
            self@.owners.contains_key(*k) ==> (r matches Ok(o) && o matches Some(a) && a@
                == self@.owners[*k]),
            !self@.owners.contains_key(*k) ==> r == Ok::<Option<String>, ContractError>(None),
    {
        match self.owners.get(k) {
            Some(a) => Ok(Some(a.clone())),
            None => Ok(None),
        }
    }

    /// Whether `k` holds a credential.
    pub fn has_token(&self, k: &String) -> (r: bool)
        ensures
            r == self@.tokens.contains_key(k@),
    {
        self.tokens.contains_key(k)
    }

    /// Records token `v` as the credential of `k`.
    pub fn save_token(&mut self, k: &String, v: &TokenId) -> (r: Result<(), ContractError>)
        requires
            old(self).wf(),
        ensures
            final(self).wf(),
            r == Ok::<(), ContractError>(()),
            final(self)@ == (StateView {
                tokens: old(self)@.tokens.insert(k@, *v),
                ..old(self)@
            }),
    {
        self.tokens.set(k.clone(), *v);
        Ok(())
    }

    /// The token of `k`, `None` when `k` holds no credential.
    pub fn get_token(&self, k: &String) -> (r: Result<Option<TokenId>, ContractError>)
        requires
            self.wf(),
        ensures
            self@.tokens.contains_key(k@) ==> r == Ok::<Option<TokenId>, ContractError>(
                Some(self@.tokens[k@]),
            ),
            !self@.tokens.contains_key(k@) ==> r == Ok::<Option<TokenId>, ContractError>(None),
    {
        match self.tokens.get(k) {
            Some(t) => Ok(Some(*t)),
            None => Ok(None),
        }
    }

    /// The global token URI prefix, empty until configured.
    pub fn get_token_base_uri(&self) -> (r: Result<String, ContractError>)
        ensures
            r matches Ok(u) && u@ == self@.base_uri,
    {
        Ok(self.base_uri.clone())
    }

    /// Overwrites the global token URI prefix.
    pub fn set_token_base_uri(&mut self, new_uri: String) -> (r: Result<(), ContractError>)
        requires
            old(self).wf(),
        ensures
            final(self).wf(),
            r == Ok::<(), ContractError>(()),
            final(self)@ == (StateView { base_uri: new_uri@, ..old(self)@ }),
    {
        self.base_uri = new_uri;
        Ok(())
    }

    /// Whether token `k` has a KYC record.
    pub fn has_kyc(&self, k: &TokenId) -> (r: bool)
        ensures
            r == self@.kyc.contains_key(*k),
    {
        self.kyc.contains_key(k)
    }

    /// Fully overwrites the KYC record of token `k`.
    pub fn save_kyc(&mut self, k: &TokenId, v: KycData) -> (r: Result<(), ContractError>)
        requires
            old(self).wf(),
        ensures
            final(self).wf(),
            r == Ok::<(), ContractError>(()),
            final(self)@ == (StateView { kyc: old(self)@.kyc.insert(*k, v@), ..old(self)@ }),
    {
        self.kyc.set(*k, v);
        Ok(())
    }

    /// The KYC record of token `k`, `None` when never written.
    pub fn get_kyc(&self, k: &TokenId) -> (r: Result<Option<KycData>, ContractError>)
        requires
            self.wf(),
        ensures
            self@.kyc.contains_key(*k) ==> (r matches Ok(d) && d matches Some(rec) && rec@
                == self@.kyc[*k]),
            !self@.kyc.contains_key(*k) ==> r == Ok::<Option<KycData>, ContractError>(None),
    {
        match self.kyc.get(k) {
            Some(rec) => Ok(Some(rec.clone())),
            None => Ok(None),
        }
    }

    /// Whether an approval pair binds `cooperator` and `user`.
    pub fn has_approve(&self, cooperator: &String, user: &String) -> (r: bool)
        ensures
            r == self@.approvals.contains_key((cooperator@, user@)),
    {
        let key = (cooperator.clone(), user.clone());
        self.approvals.contains_key(&key)
    }

    /// Records the approval pair (`cooperator`, `user`) for token `v`; an
    /// existing pair is left untouched.
    pub fn save_pu(&mut self, cooperator: &String, user: &String, v: TokenId) -> (r: Result<
        (),
        ContractError,
    >)
        requires
            old(self).wf(),
        ensures
            final(self).wf(),
            r == Ok::<(), ContractError>(()),
            old(self)@.approvals.contains_key((cooperator@, user@)) ==> final(self)@ == old(
                self,
            )@,
            !old(self)@.approvals.contains_key((cooperator@, user@)) ==> final(self)@
                == (StateView {
                approvals: old(self)@.approvals.insert((cooperator@, user@), v),
                ..old(self)@
            }),
    {
        let key = (cooperator.clone(), user.clone());
        if !self.approvals.contains_key(&key) {
            self.approvals.set(key, v);
            proof {
                assert(self@ =~= (StateView {
                    approvals: old(self)@.approvals.insert((cooperator@, user@), v),
                    ..old(self)@
                }));
            }
        }
        Ok(())
    }

    /// Removes the approval pair (`cooperator`, `user`), if any.
    pub fn remove_pu(&mut self, cooperator: &String, user: &String)
        requires
            old(self).wf(),
        ensures
            final(self).wf(),
            final(self)@ == (StateView {
                approvals: old(self)@.approvals.remove((cooperator@, user@)),
                ..old(self)@
            }),
    {
        let key = (cooperator.clone(), user.clone());
        let _ = self.approvals.take(&key);
        proof {
            assert(self@ =~= (StateView {
                approvals: old(self)@.approvals.remove((cooperator@, user@)),
                ..old(self)@
            }));
        }
    }

    /// The token ids approved to `cooperator`, empty when none ever was.
    pub fn get_approved(&self, cooperator: &String) -> (r: Result<Vec<TokenId>, ContractError>)
        requires
            self.wf(),
        ensures
            r matches Ok(l) && l@ == self@.approved_list(cooperator@),
    {
        match self.approved.get(cooperator) {
            Some(l) => Ok(vecs::clone_u64_vec(l)),
            None => {
                proof {
                    assert(Seq::<u64>::empty() =~= self@.approved_list(cooperator@));
                }
                Ok(Vec::new())
            },
        }
    }

    /// Appends token `v` to the approved list of `cooperator`,
    /// unconditionally: a re-approval appends the id again.
    pub fn save_approved(&mut self, cooperator: &String, v: TokenId) -> (r: Result<
        (),
        ContractError,
    >)
        requires
            old(self).wf(),
        ensures
            final(self).wf(),
            r == Ok::<(), ContractError>(()),
            final(self)@ == (StateView {
                approved: old(self)@.approved.insert(
                    cooperator@,
                    old(self)@.approved_list(cooperator@).push(v),
                ),
                ..old(self)@
            }),
    {
        match self.approved.take(cooperator) {
            Some(mut l) => {
                proof {
                    assert(l.deep_view() =~= l@);
                    assert(l@ == old(self)@.approved_list(cooperator@));
                }
                l.push(v);
                proof {
                    assert(l.deep_view() =~= l@);
                    assert(l.deep_view() == old(self)@.approved_list(cooperator@).push(v));
                }
                self.approved.set(cooperator.clone(), l);
            },
            None => {
                let mut l: Vec<u64> = Vec::new();
                l.push(v);
                proof {
                    assert(l.deep_view() =~= l@);
                    assert(l@ =~= old(self)@.approved_list(cooperator@).push(v));
                }
                self.approved.set(cooperator.clone(), l);
            },
        }
        proof {
            assert(self.approved@ =~= old(self)@.approved.insert(
                cooperator@,
                old(self)@.approved_list(cooperator@).push(v),
            ));
            assert(self@ =~= (StateView {
                approved: old(self)@.approved.insert(
                    cooperator@,
                    old(self)@.approved_list(cooperator@).push(v),
                ),
                ..old(self)@
            }));
        }
        Ok(())
    }

    /// Removes every occurrence of token `v` from the approved list of
    /// `cooperator`; duplicates from re-approvals all leave together.
    pub fn remove_approved(&mut self, cooperator: &String, v: TokenId) -> (r: Result<
        (),
        ContractError,
    >)
        requires
            old(self).wf(),
        ensures
            final(self).wf(),
            r == Ok::<(), ContractError>(()),
            !old(self)@.approved.contains_key(cooperator@) ==> final(self)@ == old(self)@,
            old(self)@.approved.contains_key(cooperator@) ==> final(self)@ == (StateView {
                approved: old(self)@.approved.insert(
                    cooperator@,
                    vecs::without_id(old(self)@.approved[cooperator@], v),
                ),
                ..old(self)@
            }),
    {
        match self.approved.take(cooperator) {
            Some(l) => {
                proof {
                    assert(l.deep_view() =~= l@);
                    assert(l@ == old(self)@.approved[cooperator@]);
                }
                let l = vecs::filter_u64_ne(l, v);
                proof {
                    assert(l.deep_view() =~= l@);
                    assert(l.deep_view() == vecs::without_id(
                        old(self)@.approved[cooperator@],
                        v,
                    ));
                }
                self.approved.set(cooperator.clone(), l);
                proof {
                    assert(self.approved@ =~= old(self)@.approved.insert(
                        cooperator@,
                        vecs::without_id(old(self)@.approved[cooperator@], v),
                    ));
                    assert(self@ =~= (StateView {
                        approved: old(self)@.approved.insert(
                            cooperator@,
                            vecs::without_id(old(self)@.approved[cooperator@], v),
                        ),
                        ..old(self)@
                    }));
                }
            },
            None => {
                proof {
                    assert(self.approved@ =~= old(self)@.approved);
                    assert(self@ =~= old(self)@);
                }
            },
        }
        Ok(())
    }

    /// Whether a snapshot exists for (`cooperator`, `token_id`).
    pub fn has_approved_kyc_data(&self, cooperator: &String, token_id: TokenId) -> (r: bool)
        ensures
            r == self@.snapshots.contains_key((cooperator@, token_id)),
    {
        let key = (cooperator.clone(), token_id);
        self.snapshots.contains_key(&key)
    }

    /// Creates or refreshes the snapshot of (`cooperator`, `token_id`):
    /// the disclosure key becomes `cooperator_key` and the other fields are
    /// copied from the canonical KYC record; fails with `InvalidTokenId`
    /// when the token has no record.
    pub fn save_approved_kyc_data(
        &mut self,
        cooperator: &String,
        token_id: TokenId,
        cooperator_key: String,
    ) -> (r: Result<(), ContractError>)
        requires
            old(self).wf(),
        ensures
            final(self).wf(),
            !old(self)@.kyc.contains_key(token_id) ==> {
                &&& r == Err::<(), ContractError>(
                    (ContractError::InvalidTokenId { token_id }),
                )
                &&& final(self)@ == old(self)@
            },
            old(self)@.kyc.contains_key(token_id) ==> {
                &&& r == Ok::<(), ContractError>(())
                &&& final(self)@ == (StateView {
                    snapshots: old(self)@.snapshots.insert(
                        (cooperator@, token_id),
                        (KycDataView {
                            key: cooperator_key@,
                            ..old(self)@.kyc[token_id]
                        }),
                    ),
                    ..old(self)@
                })
            },
    {
        let snapshot = match self.kyc.get(&token_id) {
            Some(rec) => KycData {
                key: cooperator_key,
                validity: rec.validity,
                data: rec.data.clone(),
                questions: vecs::clone_string_vec(&rec.questions),
            },
            None => {
                return Err(ContractError::InvalidTokenId { token_id });
            },
        };
        let key = (cooperator.clone(), token_id);
        self.snapshots.set(key, snapshot);
        proof {
            assert(self@ =~= (StateView {
                snapshots: old(self)@.snapshots.insert(
                    (cooperator@, token_id),
                    (KycDataView { key: snapshot.key@, ..old(self)@.kyc[token_id] }),
                ),
                ..old(self)@
            }));
        }
        Ok(())
    }

    /// The snapshot of (`cooperator`, `token_id`), `None` when none exists.
    pub fn get_approved_kyc_data(&self, cooperator: &String, token_id: TokenId) -> (r: Result<
        Option<KycData>,
        ContractError,
    >)
        requires
            self.wf(),
        ensures
            self@.snapshots.contains_key((cooperator@, token_id)) ==> (r matches Ok(d)
                && d matches Some(rec) && rec@ == self@.snapshots[(cooperator@, token_id)]),
            !self@.snapshots.contains_key((cooperator@, token_id)) ==> r == Ok::<
                Option<KycData>,
                ContractError,
            >(None),
    {
        let key = (cooperator.clone(), token_id);
        match self.snapshots.get(&key) {
            Some(rec) => Ok(Some(rec.clone())),
            None => Ok(None),
        }
    }
}

} // verus!
