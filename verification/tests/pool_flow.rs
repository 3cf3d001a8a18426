use troves::coll_surplus_pool::{CollSurplusPool, ExecuteMsg, QueryAnswer, QueryMsg};
use troves::error::ContractError;
use troves::role_provider::HasAnyRoleResponse;

fn granted() -> HasAnyRoleResponse {
    HasAnyRoleResponse { has_role: true }
}

fn denied() -> HasAnyRoleResponse {
    HasAnyRoleResponse { has_role: false }
}

fn fresh_pool() -> CollSurplusPool {
    let (pool, _res) = CollSurplusPool::instantiate(
        &"deployer".to_string(),
        "coll-surplus-pool".to_string(),
        "gov".to_string(),
    );
    pool
}

#[test]
fn instantiate_starts_empty() {
    let pool = fresh_pool();
    assert_eq!(pool.query_juno_state(), 0);
    assert_eq!(pool.query_coll_of_account(&"addr_a".to_string()), 0);
    let p = pool.query_params();
    assert_eq!(p.name, "coll-surplus-pool".to_string());
    assert_eq!(p.owner, "gov".to_string());
}

#[test]
fn surplus_then_claim_round_trip() {
    let mut pool = fresh_pool();
    // accrue 100 for addr_a
    pool.execute_account_surplus(&granted(), &"addr_a".to_string(), 100).unwrap();
    assert_eq!(pool.query_juno_state(), 100);
    assert_eq!(pool.query_coll_of_account(&"addr_a".to_string()), 100);
    // claim pays it out in full
    let res = pool.execute_claim_coll(&granted(), &"addr_a".to_string()).unwrap();
    assert_eq!(res.messages.len(), 1);
    assert_eq!(res.messages[0].to_address, "addr_a".to_string());
    assert_eq!(res.messages[0].denom, "ujuno".to_string());
    assert_eq!(res.messages[0].amount, 100);
    assert_eq!(pool.query_juno_state(), 0);
    assert_eq!(pool.query_coll_of_account(&"addr_a".to_string()), 0);
    // a second claim with nothing accrued in between reports no funds
    let r = pool.execute_claim_coll(&granted(), &"addr_a".to_string());
    assert!(matches!(r, Err(ContractError::NoCollAvailableToClaim)));
}

#[test]
fn claim_without_any_account_reports_no_funds() {
    let mut pool = fresh_pool();
    let r = pool.execute_claim_coll(&granted(), &"addr_a".to_string());
    assert!(matches!(r, Err(ContractError::NoCollAvailableToClaim)));
}

#[test]
fn surplus_accumulates_per_account() {
    let mut pool = fresh_pool();
    pool.execute_account_surplus(&granted(), &"addr_a".to_string(), 60).unwrap();
    pool.execute_account_surplus(&granted(), &"addr_a".to_string(), 40).unwrap();
    pool.execute_account_surplus(&granted(), &"addr_b".to_string(), 7).unwrap();
    assert_eq!(pool.query_coll_of_account(&"addr_a".to_string()), 100);
    assert_eq!(pool.query_coll_of_account(&"addr_b".to_string()), 7);
    assert_eq!(pool.query_juno_state(), 107);
    // claiming one account leaves the other intact
    pool.execute_claim_coll(&granted(), &"addr_a".to_string()).unwrap();
    assert_eq!(pool.query_coll_of_account(&"addr_b".to_string()), 7);
    assert_eq!(pool.query_juno_state(), 7);
}

#[test]
fn surplus_overflow_is_a_fault() {
    let mut pool = fresh_pool();
    pool.execute_account_surplus(&granted(), &"addr_a".to_string(), u128::MAX).unwrap();
    let r = pool.execute_account_surplus(&granted(), &"addr_a".to_string(), 1);
    assert!(matches!(r, Err(ContractError::Overflow)));
    assert_eq!(pool.query_coll_of_account(&"addr_a".to_string()), u128::MAX);
}

#[test]
fn ledger_ops_fail_without_role_and_mutate_nothing() {
    let mut pool = fresh_pool();
    let r = pool.execute_account_surplus(&denied(), &"addr_a".to_string(), 100);
    assert!(matches!(r, Err(ContractError::Unauthorized)));
    assert_eq!(pool.query_juno_state(), 0);
    assert_eq!(pool.query_coll_of_account(&"addr_a".to_string()), 0);
    pool.execute_account_surplus(&granted(), &"addr_a".to_string(), 5).unwrap();
    let r = pool.execute_claim_coll(&denied(), &"addr_a".to_string());
    assert!(matches!(r, Err(ContractError::Unauthorized)));
    assert_eq!(pool.query_coll_of_account(&"addr_a".to_string()), 5);
    assert_eq!(pool.query_juno_state(), 5);
}

#[test]
fn admin_ops_are_admin_gated() {
    let mut pool = fresh_pool();
    let r = pool.execute_update_role(&"mallory".to_string(), "oracle".to_string());
    assert!(matches!(r, Err(ContractError::UnauthorizedAdmin)));
    let res = pool
        .execute_update_role(&"deployer".to_string(), "oracle".to_string())
        .unwrap();
    assert_eq!(res.attributes[0].value, "update_role".to_string());
    assert_eq!(res.attributes[1].key, "role_provider_addr".to_string());
    assert_eq!(res.attributes[1].value, "oracle".to_string());
    pool.execute_update_admin(&"deployer".to_string(), "successor".to_string()).unwrap();
    let r = pool.execute_update_admin(&"deployer".to_string(), "x".to_string());
    assert!(matches!(r, Err(ContractError::UnauthorizedAdmin)));
}

#[test]
fn only_owner_checks_the_stored_owner() {
    let pool = fresh_pool();
    assert!(pool.only_owner(&"gov".to_string()).is_ok());
    assert!(matches!(
        pool.only_owner(&"mallory".to_string()),
        Err(ContractError::UnauthorizedOwner)
    ));
}

#[test]
fn execute_dispatches_each_operation() {
    let mut pool = fresh_pool();
    pool.execute(
        &"anyone".to_string(),
        &granted(),
        ExecuteMsg::AccountSurplus { account: "addr_a".to_string(), amount: 100 },
    )
    .unwrap();
    assert_eq!(pool.query_juno_state(), 100);
    let res = pool
        .execute(
            &"anyone".to_string(),
            &granted(),
            ExecuteMsg::ClaimColl { account: "addr_a".to_string() },
        )
        .unwrap();
    assert_eq!(res.messages[0].amount, 100);
    let r = pool.execute(
        &"mallory".to_string(),
        &granted(),
        ExecuteMsg::UpdateAdmin { admin: "m".to_string() },
    );
    assert!(matches!(r, Err(ContractError::UnauthorizedAdmin)));
    pool.execute(
        &"deployer".to_string(),
        &granted(),
        ExecuteMsg::UpdateRole { role_provider: "oracle".to_string() },
    )
    .unwrap();
}

#[test]
fn query_dispatches_each_query() {
    let mut pool = fresh_pool();
    pool.execute_account_surplus(&granted(), &"addr_a".to_string(), 42).unwrap();
    match pool.query(&QueryMsg::GetJUNO) {
        QueryAnswer::Juno(v) => assert_eq!(v, 42),
        _ => panic!("wrong answer variant"),
    }
    match pool.query(&QueryMsg::GetCollateral { account: "addr_a".to_string() }) {
        QueryAnswer::Collateral(v) => assert_eq!(v, 42),
        _ => panic!("wrong answer variant"),
    }
    match pool.query(&QueryMsg::GetParams) {
        QueryAnswer::Params(p) => assert_eq!(p.owner, "gov".to_string()),
        _ => panic!("wrong answer variant"),
    }
}

#[test]
fn claim_response_carries_action_attributes() {
    let mut pool = fresh_pool();
    pool.execute_account_surplus(&granted(), &"addr_a".to_string(), 9).unwrap();
    let res = pool.execute_claim_coll(&granted(), &"addr_a".to_string()).unwrap();
    assert_eq!(res.attributes.len(), 2);
    assert_eq!(res.attributes[0].key, "action".to_string());
    assert_eq!(res.attributes[0].value, "claim_coll".to_string());
    assert_eq!(res.attributes[1].key, "account".to_string());
    assert_eq!(res.attributes[1].value, "addr_a".to_string());
}
