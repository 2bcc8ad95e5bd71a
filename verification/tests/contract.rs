use zkme_sbt::execute;
use zkme_sbt::msg;
use zkme_sbt::query;
use zkme_sbt::state::{SbtState, default_admin_role, cooperator_role};

fn s(x: &str) -> String {
    x.to_string()
}

#[test]
fn test_instantiate() {
    let deployer = s("deployer");
    let mut state = SbtState::new();
    execute::instantiate(&mut state, &deployer).unwrap();

    let resp = query::is_role(&state, &default_admin_role(), s("deployer")).unwrap();
    assert_eq!(
        resp,
        msg::IsRoleResponse { role: s("default_admin_role"), user: s("deployer"), result: true }
    );
}

#[test]
fn test_integrated() {
    let deployer = s("deployer");
    let alice = s("alice");
    let bob = s("bob");

    // Deploy contract
    let mut state = SbtState::new();
    execute::instantiate(&mut state, &deployer).unwrap();

    // Mint sbt to alice
    execute::execute(&mut state, &alice, msg::ExecuteMsg::Attest { to: alice.clone() }).unwrap();

    // check token id is 1
    let resp = match query::query(&state, 0, msg::QueryMsg::TokenIdOf { from: alice.clone() })
        .unwrap()
    {
        msg::QueryAnswer::TokenIdOf(r) => r,
        other => panic!("unexpected answer {:?}", other),
    };
    assert_eq!(resp, msg::TokenIdOfResponse { from: alice.clone(), token_id: 1 });

    // set kyc data of token id 1
    let key = s(
        "aczxqeGazZPd8RAv5wWeoZuy66Qx7JgrSpnJlcrx7b7IWc0QrhaRoHwN9lCayOIeWAsoi2a0wxIpDEsoIdIrXKqsGcyItRoMJKt3kpsrPrQ=",
    );
    let validity: u64 = 1690527065 + 30 * 86400;
    let data = s("{\"country\":\"Australia\",\"gender\":\"male\"}");
    let questions = vec![
        s("6168752826443568356578851982882135008485"),
        s("7721528705884867793143365084876737116315"),
    ];
    execute::execute(
        &mut state,
        &deployer,
        msg::ExecuteMsg::SetKycData {
            token_id: 1,
            key: key.clone(),
            validity,
            data: data.clone(),
            questions: questions.clone(),
        },
    )
    .unwrap();

    let resp = match query::query(&state, 0, msg::QueryMsg::GetKycData { token_id: 1 }).unwrap() {
        msg::QueryAnswer::GetKycData(r) => r,
        other => panic!("unexpected answer {:?}", other),
    };
    assert_eq!(
        resp,
        msg::GetKycDataResponse {
            owner: alice.clone(),
            token_id: 1,
            key: key.clone(),
            validity,
            data: data.clone(),
            questions: questions.clone(),
        }
    );

    // grant bob as cooperator
    execute::execute(
        &mut state,
        &deployer,
        msg::ExecuteMsg::GrantRole { role: s("zkme_cooperator"), user: bob.clone() },
    )
    .unwrap();

    let resp = match query::query(
        &state,
        0,
        msg::QueryMsg::IsRole { role: s("zkme_cooperator"), user: bob.clone() },
    )
    .unwrap()
    {
        msg::QueryAnswer::IsRole(r) => r,
        other => panic!("unexpected answer {:?}", other),
    };
    assert_eq!(
        resp,
        msg::IsRoleResponse { role: cooperator_role(), user: bob.clone(), result: true }
    );

    // set bob conf questions
    execute::execute(
        &mut state,
        &deployer,
        msg::ExecuteMsg::SetQuestions { cooperator: bob.clone(), questions: questions.clone() },
    )
    .unwrap();

    let resp = match query::query(&state, 0, msg::QueryMsg::GetQuestions { cooperator: bob.clone() })
        .unwrap()
    {
        msg::QueryAnswer::GetQuestions(r) => r,
        other => panic!("unexpected answer {:?}", other),
    };
    assert_eq!(
        resp,
        msg::GetQuestionsResponse { cooperator: bob.clone(), questions: questions.clone() }
    );

    // make alice approved to bob
    let cooperator_key = s(
        "bczxqeGazZPd8RAv5wWeoZuy66Qx7JgrSpnJlcrx7b7IWc0QrhaRoHwN9lCayOIeWAsoi2a0wxIpDEsoIdIrXKqsGcyItRoMJKt3kpsrPrQ=",
    );
    execute::execute(
        &mut state,
        &alice,
        msg::ExecuteMsg::Approve {
            cooperator: bob.clone(),
            token_id: 1,
            cooperator_key: cooperator_key.clone(),
        },
    )
    .unwrap();

    let resp = match query::query(
        &state,
        0,
        msg::QueryMsg::HasApproved { cooperator: bob.clone(), user: alice.clone() },
    )
    .unwrap()
    {
        msg::QueryAnswer::HasApproved(r) => r,
        other => panic!("unexpected answer {:?}", other),
    };
    assert_eq!(
        resp,
        msg::HasApprovedResponse { cooperator: bob.clone(), user: alice.clone(), has_approved: true }
    );

    // bob get approved kyc
    let resp = match query::query(
        &state,
        0,
        msg::QueryMsg::GetApprovedLength { cooperator: bob.clone() },
    )
    .unwrap()
    {
        msg::QueryAnswer::GetApprovedLength(r) => r,
        other => panic!("unexpected answer {:?}", other),
    };
    assert_eq!(resp.approved_length, 1);

    let resp = match query::query(
        &state,
        0,
        msg::QueryMsg::GetApprovedTokenId { cooperator: bob.clone(), start: 0, page_size: 10 },
    )
    .unwrap()
    {
        msg::QueryAnswer::GetApprovedTokenId(r) => r,
        other => panic!("unexpected answer {:?}", other),
    };
    assert_eq!(
        resp,
        msg::GetApprovedTokenIdResponse {
            cooperator: bob.clone(),
            start: 0,
            page_size: 1,
            token_id_list: vec![1],
        }
    );

    let resp = match query::query(
        &state,
        0,
        msg::QueryMsg::GetApprovedUserKycData { cooperator: bob.clone(), user: alice.clone() },
    )
    .unwrap()
    {
        msg::QueryAnswer::GetApprovedUserKycData(r) => r,
        other => panic!("unexpected answer {:?}", other),
    };
    assert_eq!(
        resp,
        msg::GetApprovedUserKycDataResponse {
            cooperator: bob.clone(),
            user: alice.clone(),
            token_id: 1,
            data: zkme_sbt::state::KycData {
                key: cooperator_key.clone(),
                validity,
                data: data.clone(),
                questions: questions.clone(),
            },
        }
    );

    // revoke approve
    execute::execute(
        &mut state,
        &alice,
        msg::ExecuteMsg::Revoke { cooperator: bob.clone(), token_id: 1 },
    )
    .unwrap();
}
