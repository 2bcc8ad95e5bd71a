use zkme_sbt::digits::u64_to_string;
use zkme_sbt::error::ContractError;
use zkme_sbt::execute;
use zkme_sbt::msg;
use zkme_sbt::query;
use zkme_sbt::state::SbtState;

fn s(x: &str) -> String {
    x.to_string()
}

fn fresh() -> SbtState {
    let mut state = SbtState::new();
    execute::instantiate(&mut state, &s("deployer")).unwrap();
    state
}

fn set_kyc(state: &mut SbtState, token_id: u64, validity: u64, questions: Vec<String>) {
    execute::set_kyc_data(
        state,
        &s("deployer"),
        token_id,
        s("key-material"),
        validity,
        s("{\"residence\":\"nowhere\"}"),
        questions,
    )
    .unwrap();
}

#[test]
fn mint_twice_fails_and_counter_stands() {
    let mut state = fresh();
    execute::attest(&mut state, &s("alice"), s("alice")).unwrap();
    let err = execute::attest(&mut state, &s("alice"), s("alice")).unwrap_err();
    assert_eq!(err, ContractError::AlreadyMintedToken);
    // the failed call did not advance the counter
    let total = query::total_supply(&state).unwrap();
    assert_eq!(total, msg::TotalSupplyResponse { total: 1 });
    // a different address still gets the next id
    execute::attest(&mut state, &s("bob"), s("bob")).unwrap();
    let resp = query::token_id_of(&state, s("bob")).unwrap();
    assert_eq!(resp.token_id, 2);
}

#[test]
fn owner_and_token_maps_agree() {
    let mut state = fresh();
    execute::attest(&mut state, &s("alice"), s("alice")).unwrap();
    execute::attest(&mut state, &s("bob"), s("bob")).unwrap();
    for (user, id) in [("alice", 1u64), ("bob", 2u64)] {
        let owner = query::owner_of(&state, id).unwrap();
        assert_eq!(owner.owner, s(user));
        let token = query::token_id_of(&state, s(user)).unwrap();
        assert_eq!(token.token_id, id);
    }
    assert_eq!(query::balance_of(&state, s("alice")).unwrap().balance, 1);
    assert_eq!(query::balance_of(&state, s("carol")).unwrap().balance, 0);
}

#[test]
fn grant_twice_fails_revoke_non_member_is_noop() {
    let mut state = fresh();
    execute::grant_role(&mut state, &s("deployer"), &s("zkme_inspector"), s("carol")).unwrap();
    let err = execute::grant_role(&mut state, &s("deployer"), &s("zkme_inspector"), s("carol"))
        .unwrap_err();
    assert_eq!(
        err,
        ContractError::AlreadyGrantRole { account: s("carol"), role: s("zkme_inspector") }
    );
    // revoking an address that is no member succeeds and changes nothing
    execute::revoke_role(&mut state, &s("deployer"), &s("zkme_inspector"), s("dora")).unwrap();
    let resp = query::is_role(&state, &s("zkme_inspector"), s("carol")).unwrap();
    assert!(resp.result);
    // revoking a member removes it
    execute::revoke_role(&mut state, &s("deployer"), &s("zkme_inspector"), s("carol")).unwrap();
    let resp = query::is_role(&state, &s("zkme_inspector"), s("carol")).unwrap();
    assert!(!resp.result);
}

#[test]
fn snapshot_survives_revoke() {
    let mut state = fresh();
    execute::attest(&mut state, &s("alice"), s("alice")).unwrap();
    set_kyc(&mut state, 1, 2000, vec![s("q1"), s("q2")]);
    execute::grant_role(&mut state, &s("deployer"), &s("zkme_cooperator"), s("bob")).unwrap();
    execute::approve(&mut state, &s("alice"), s("bob"), 1, s("bob-key")).unwrap();
    let has = query::has_approved(&state, s("bob"), s("alice")).unwrap();
    assert!(has.has_approved);

    execute::revoke(&mut state, &s("alice"), s("bob"), 1).unwrap();
    let has = query::has_approved(&state, s("bob"), s("alice")).unwrap();
    assert!(!has.has_approved);

    // the last snapshot is deliberately retained after revocation
    let snap = query::get_approved_user_kyc_data(&state, s("bob"), s("alice")).unwrap();
    assert_eq!(snap.data.key, s("bob-key"));
    assert_eq!(snap.data.validity, 2000);
}

#[test]
fn reapprove_refreshes_snapshot_and_duplicates_list_entry() {
    let mut state = fresh();
    execute::attest(&mut state, &s("alice"), s("alice")).unwrap();
    set_kyc(&mut state, 1, 2000, vec![s("q1")]);
    execute::grant_role(&mut state, &s("deployer"), &s("zkme_cooperator"), s("bob")).unwrap();
    execute::approve(&mut state, &s("alice"), s("bob"), 1, s("first-key")).unwrap();
    // the record changes, then alice approves again with a new key
    set_kyc(&mut state, 1, 3000, vec![s("q1"), s("q3")]);
    execute::approve(&mut state, &s("alice"), s("bob"), 1, s("second-key")).unwrap();

    let snap = query::get_user_data(&state, s("bob"), s("alice")).unwrap();
    assert_eq!(snap.kyc_data.key, s("second-key"));
    assert_eq!(snap.kyc_data.validity, 3000);
    assert_eq!(snap.kyc_data.questions, vec![s("q1"), s("q3")]);

    // the unconditional append doubled the list entry
    let len = query::get_approved_length(&state, s("bob")).unwrap();
    assert_eq!(len.approved_length, 2);

    // a revoke removes every copy
    execute::revoke(&mut state, &s("alice"), s("bob"), 1).unwrap();
    let len = query::get_approved_length(&state, s("bob")).unwrap();
    assert_eq!(len.approved_length, 0);
}

#[test]
fn verify_is_false_without_configured_questions() {
    let mut state = fresh();
    execute::attest(&mut state, &s("alice"), s("alice")).unwrap();
    set_kyc(&mut state, 1, 2000, vec![s("q1"), s("q2")]);
    execute::grant_role(&mut state, &s("deployer"), &s("zkme_cooperator"), s("bob")).unwrap();
    // bob never had set-questions called, whatever alice's record holds
    let resp = query::verify(&state, s("bob"), s("alice"), 1000).unwrap();
    assert!(!resp.result);
}

#[test]
fn verify_checks_validity_and_question_subset() {
    let mut state = fresh();
    execute::attest(&mut state, &s("alice"), s("alice")).unwrap();
    set_kyc(&mut state, 1, 2000, vec![s("q1"), s("q2")]);
    execute::grant_role(&mut state, &s("deployer"), &s("zkme_cooperator"), s("bob")).unwrap();
    execute::set_questions(&mut state, &s("deployer"), s("bob"), vec![s("q1")]).unwrap();

    // valid record, required question held
    assert!(query::verify(&state, s("bob"), s("alice"), 1000).unwrap().result);
    // deadline equal to now still counts as valid
    assert!(query::verify(&state, s("bob"), s("alice"), 2000).unwrap().result);
    // deadline passed
    assert!(!query::verify(&state, s("bob"), s("alice"), 2001).unwrap().result);

    // a required question the user cannot prove
    execute::set_questions(&mut state, &s("deployer"), s("bob"), vec![s("q1"), s("q9")]).unwrap();
    assert!(!query::verify(&state, s("bob"), s("alice"), 1000).unwrap().result);
}

#[test]
fn pagination_clamps_out_of_range_start() {
    let mut state = fresh();
    execute::attest(&mut state, &s("alice"), s("alice")).unwrap();
    set_kyc(&mut state, 1, 2000, vec![s("q1")]);
    execute::grant_role(&mut state, &s("deployer"), &s("zkme_cooperator"), s("bob")).unwrap();
    execute::approve(&mut state, &s("alice"), s("bob"), 1, s("k")).unwrap();

    let page = query::get_approved_token_id(&state, s("bob"), 1000, 10).unwrap();
    assert_eq!(
        page,
        msg::GetApprovedTokenIdResponse {
            cooperator: s("bob"),
            start: 0,
            page_size: 0,
            token_id_list: vec![],
        }
    );
}

#[test]
fn pagination_returns_requested_window() {
    let mut state = fresh();
    execute::grant_role(&mut state, &s("deployer"), &s("zkme_cooperator"), s("bob")).unwrap();
    for (i, user) in ["u1", "u2", "u3", "u4", "u5"].iter().enumerate() {
        execute::attest(&mut state, &s(user), s(user)).unwrap();
        set_kyc(&mut state, (i + 1) as u64, 2000, vec![s("q1")]);
        execute::approve(&mut state, &s(user), s("bob"), (i + 1) as u64, s("k")).unwrap();
    }
    let page = query::get_approved_token_id(&state, s("bob"), 1, 2).unwrap();
    assert_eq!(page.start, 1);
    assert_eq!(page.page_size, 2);
    assert_eq!(page.token_id_list, vec![2, 3]);
    // a page size past the end is clamped to what is left
    let page = query::get_approved_token_id(&state, s("bob"), 3, 10).unwrap();
    assert_eq!(page.page_size, 2);
    assert_eq!(page.token_id_list, vec![4, 5]);
}

#[test]
fn token_uri_concatenates_base_slash_id() {
    let mut state = fresh();
    execute::set_token_base_uri(&mut state, &s("deployer"), s("https://credentials.example"))
        .unwrap();
    let resp = query::token_uri(&state, 42).unwrap();
    assert_eq!(resp.token_uri, s("https://credentials.example/42"));
    // the default base URI is empty
    let state2 = fresh();
    let resp = query::token_uri(&state2, 7).unwrap();
    assert_eq!(resp.token_uri, s("/7"));
}

#[test]
fn decimal_rendering_of_token_ids() {
    assert_eq!(u64_to_string(0), s("0"));
    assert_eq!(u64_to_string(10), s("10"));
    assert_eq!(u64_to_string(90210), s("90210"));
    assert_eq!(u64_to_string(u64::MAX), s("18446744073709551615"));
}

#[test]
fn authorization_errors() {
    let mut state = fresh();
    execute::attest(&mut state, &s("alice"), s("alice")).unwrap();
    set_kyc(&mut state, 1, 2000, vec![s("q1")]);

    // only an operator may grant
    let err = execute::grant_role(&mut state, &s("mallory"), &s("zkme_inspector"), s("mallory"))
        .unwrap_err();
    assert_eq!(err, ContractError::InvalidAdminAccount { account: s("mallory") });

    // only an admin may revoke
    let err = execute::revoke_role(&mut state, &s("mallory"), &s("zkme_inspector"), s("deployer"))
        .unwrap_err();
    assert_eq!(err, ContractError::InvalidAdminAccount { account: s("mallory") });

    // only an admin may set the base URI
    let err = execute::set_token_base_uri(&mut state, &s("mallory"), s("u")).unwrap_err();
    assert_eq!(err, ContractError::InvalidAdminAccount { account: s("mallory") });

    // only an operator may write KYC records
    let err = execute::set_kyc_data(
        &mut state,
        &s("mallory"),
        1,
        s("k"),
        1,
        s("d"),
        vec![],
    )
    .unwrap_err();
    assert_eq!(err, ContractError::InvalidOperatorAccount { account: s("mallory") });

    // set-questions needs operator caller and cooperator target
    let err = execute::set_questions(&mut state, &s("deployer"), s("bob"), vec![s("q1")])
        .unwrap_err();
    assert_eq!(err, ContractError::InvalidOperatorAccount { account: s("deployer") });
}

#[test]
fn disclosure_errors() {
    let mut state = fresh();
    execute::attest(&mut state, &s("alice"), s("alice")).unwrap();
    set_kyc(&mut state, 1, 2000, vec![s("q1")]);
    execute::grant_role(&mut state, &s("deployer"), &s("zkme_cooperator"), s("bob")).unwrap();

    // an unissued token cannot be approved
    let err = execute::approve(&mut state, &s("alice"), s("bob"), 9, s("k")).unwrap_err();
    assert_eq!(err, ContractError::InvalidTokenId { token_id: 9 });

    // only the owner may approve its token
    let err = execute::approve(&mut state, &s("mallory"), s("bob"), 1, s("k")).unwrap_err();
    assert_eq!(err, ContractError::InvalidOwner { token_id: 1, owner: s("alice") });

    // the target must hold the cooperator role
    let err = execute::approve(&mut state, &s("alice"), s("carol"), 1, s("k")).unwrap_err();
    assert_eq!(err, ContractError::InvalidCooperatorAccount { account: s("carol") });

    // a token without KYC record cannot be disclosed
    execute::attest(&mut state, &s("dora"), s("dora")).unwrap();
    let err = execute::approve(&mut state, &s("dora"), s("bob"), 2, s("k")).unwrap_err();
    assert_eq!(err, ContractError::InvalidTokenId { token_id: 2 });

    // revoking without an approval pair fails
    let err = execute::revoke(&mut state, &s("alice"), s("bob"), 1).unwrap_err();
    assert_eq!(
        err,
        ContractError::InvalidRevokeFromCooperator { owner: s("alice"), cooperator: s("bob") }
    );

    // queries on missing data
    let err = query::token_id_of(&state, s("nobody")).unwrap_err();
    assert_eq!(err, ContractError::NoSBTExist { user: s("nobody") });
    let err = query::owner_of(&state, 9).unwrap_err();
    assert_eq!(err, ContractError::InvalidTokenId { token_id: 9 });
    let err = query::get_kyc_data(&state, 2).unwrap_err();
    assert_eq!(err, ContractError::NonExistKyc { token_id: 2 });
    let err = query::get_user_token_id(&state, s("bob"), s("alice")).unwrap_err();
    assert_eq!(err, ContractError::NoApprovementExist { cooperator: s("bob"), user: s("alice") });
    let err = query::get_approved_user_kyc_data(&state, s("bob"), s("alice")).unwrap_err();
    assert_eq!(err, ContractError::NoApprovementExist { cooperator: s("bob"), user: s("alice") });
    let err = query::verify(&state, s("bob"), s("nobody"), 0).unwrap_err();
    assert_eq!(err, ContractError::NoSBTExist { user: s("nobody") });
    let err = query::verify(&state, s("bob"), s("dora"), 0).unwrap_err();
    assert_eq!(err, ContractError::NonExistKyc { token_id: 2 });
}

#[test]
fn error_messages_interpolate_their_data() {
    let e = ContractError::AlreadyGrantRole { account: s("carol"), role: s("zkme_inspector") };
    assert_eq!(e.message(), s("carol already grant role zkme_inspector"));
    let e = ContractError::InvalidOwner { token_id: 7, owner: s("alice") };
    assert_eq!(e.message(), s("7 didn't belongs to alice"));
    let e = ContractError::AlreadyMintedToken;
    assert_eq!(e.message(), s("already have the token, could not mint another"));
    let e = ContractError::NoSBTExist { user: s("nobody") };
    assert_eq!(e.message(), s("nobody didn't have any zkMe sbt"));
}

#[test]
fn end_to_end_disclosure_scenario() {
    let now: u64 = 1_700_000_000;
    let mut state = fresh();

    // deployer issues a credential to alice: token id 1
    execute::attest(&mut state, &s("deployer"), s("alice")).unwrap();
    assert_eq!(query::token_id_of(&state, s("alice")).unwrap().token_id, 1);

    // operator sets alice's record: valid 30 days from now, two questions
    set_kyc(&mut state, 1, now + 30 * 86400, vec![s("q-age"), s("q-residence")]);

    // admin grants bob the cooperator role
    execute::grant_role(&mut state, &s("deployer"), &s("zkme_cooperator"), s("bob")).unwrap();

    // operator requires one of the two questions for bob
    execute::set_questions(&mut state, &s("deployer"), s("bob"), vec![s("q-age")]).unwrap();

    // alice disclosed token 1 to bob under a cooperator-scoped key
    execute::approve(&mut state, &s("alice"), s("bob"), 1, s("bob-scoped-key")).unwrap();

    assert!(query::verify(&state, s("bob"), s("alice"), now).unwrap().result);
    assert_eq!(query::get_approved_length(&state, s("bob")).unwrap().approved_length, 1);

    execute::revoke(&mut state, &s("alice"), s("bob"), 1).unwrap();
    assert!(!query::has_approved(&state, s("bob"), s("alice")).unwrap().has_approved);
}
