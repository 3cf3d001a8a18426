use troves::error::ContractError;
use troves::role_provider::{assert_role, HasAnyRoleResponse, Role};
use troves::trove_manager::{Status, SudoMsg, Trove, TroveManager};

fn granted() -> HasAnyRoleResponse {
    HasAnyRoleResponse { has_role: true }
}

fn denied() -> HasAnyRoleResponse {
    HasAnyRoleResponse { has_role: false }
}

fn manager_with(borrower: &str, juno: u128, debt: u128, status: Status) -> TroveManager {
    let mut tm = TroveManager::new(&"deployer".to_string(), "tm".to_string(), "gov".to_string());
    let t = Trove {
        juno,
        ultra_debt: debt,
        stake: 1,
        status,
        owner: borrower.to_string(),
    };
    tm.troves.set(&borrower.to_string(), t);
    tm
}

#[test]
fn roles_enumerate_once_each() {
    let all = Role::iterator();
    assert_eq!(all.len(), 11);
    assert!(matches!(all[0], Role::ActivePool));
    assert!(matches!(all[10], Role::RewardPool));
    assert_eq!(Role::TroveManager.to_string(), "trove_manager");
    assert_eq!(Role::BorrowerOperations.to_string(), "borrower_operations");
}

#[test]
fn assert_role_follows_the_verdict() {
    assert_eq!(assert_role(&granted()), Ok(()));
    assert_eq!(assert_role(&denied()), Err(ContractError::Unauthorized));
}

#[test]
fn set_trove_status_requires_role_and_presence() {
    let mut tm = manager_with("alice", 100, 40, Status::Active);
    // without the role: authorization failure, no mutation
    let r = tm.set_trove_status(&denied(), &"alice".to_string(), Status::Closed);
    assert!(matches!(r, Err(ContractError::Unauthorized)));
    assert!(matches!(tm.get_trove_status(&"alice".to_string()), Status::Active));
    // absent trove: not found
    let r = tm.set_trove_status(&granted(), &"bob".to_string(), Status::Closed);
    assert!(matches!(r, Err(ContractError::TroveNotFound)));
    // with the role: status transitions
    tm.set_trove_status(&granted(), &"alice".to_string(), Status::Closed).unwrap();
    assert!(matches!(tm.get_trove_status(&"alice".to_string()), Status::Closed));
}

#[test]
fn get_trove_status_defaults_to_nonexistent() {
    let tm = TroveManager::new(&"d".to_string(), "tm".to_string(), "gov".to_string());
    assert!(matches!(tm.get_trove_status(&"ghostly".to_string()), Status::NonExistent));
    assert_eq!(tm.get_trove_coll(&"ghostly".to_string()), 0);
    assert_eq!(tm.get_trove_debt(&"ghostly".to_string()), 0);
    assert_eq!(tm.get_trove_stake(&"ghostly".to_string()), 0);
}

#[test]
fn increase_trove_coll_adds_exactly() {
    let mut tm = manager_with("alice", 100, 40, Status::Active);
    tm.increase_trove_coll(&granted(), &"alice".to_string(), 11).unwrap();
    assert_eq!(tm.get_trove_coll(&"alice".to_string()), 111);
    // stake and debt untouched
    assert_eq!(tm.get_trove_debt(&"alice".to_string()), 40);
    assert_eq!(tm.get_trove_stake(&"alice".to_string()), 1);
}

#[test]
fn decrease_with_excessive_delta_leaves_trove_unchanged() {
    let mut tm = manager_with("alice", 100, 40, Status::Active);
    let r = tm.decrease_trove_coll(&granted(), &"alice".to_string(), 101);
    assert!(matches!(r, Err(ContractError::Underflow)));
    assert_eq!(tm.get_trove_coll(&"alice".to_string()), 100);
    let r = tm.decrease_trove_debt(&granted(), &"alice".to_string(), 41);
    assert!(matches!(r, Err(ContractError::Underflow)));
    assert_eq!(tm.get_trove_debt(&"alice".to_string()), 40);
}

#[test]
fn decrease_within_bounds_succeeds() {
    let mut tm = manager_with("alice", 100, 40, Status::Active);
    tm.decrease_trove_coll(&granted(), &"alice".to_string(), 30).unwrap();
    assert_eq!(tm.get_trove_coll(&"alice".to_string()), 70);
    tm.decrease_trove_debt(&granted(), &"alice".to_string(), 40).unwrap();
    assert_eq!(tm.get_trove_debt(&"alice".to_string()), 0);
}

#[test]
fn decrease_requires_active_status() {
    let mut tm = manager_with("alice", 100, 40, Status::Closed);
    let r = tm.decrease_trove_coll(&granted(), &"alice".to_string(), 1);
    assert!(matches!(r, Err(ContractError::TroveNotActive)));
    let r = tm.decrease_trove_debt(&granted(), &"alice".to_string(), 1);
    assert!(matches!(r, Err(ContractError::TroveNotActive)));
    assert_eq!(tm.get_trove_coll(&"alice".to_string()), 100);
}

#[test]
fn role_gated_mutations_fail_without_role() {
    let mut tm = manager_with("alice", 100, 40, Status::Active);
    assert!(matches!(
        tm.increase_trove_coll(&denied(), &"alice".to_string(), 1),
        Err(ContractError::Unauthorized)
    ));
    assert!(matches!(
        tm.decrease_trove_coll(&denied(), &"alice".to_string(), 1),
        Err(ContractError::Unauthorized)
    ));
    assert!(matches!(
        tm.increase_trove_debt(&denied(), &"alice".to_string(), 1),
        Err(ContractError::Unauthorized)
    ));
    assert!(matches!(
        tm.decrease_trove_debt(&denied(), &"alice".to_string(), 1),
        Err(ContractError::Unauthorized)
    ));
    assert!(matches!(
        tm.liquidate(&denied(), &"alice".to_string(), 1),
        Err(ContractError::Unauthorized)
    ));
    assert!(matches!(
        tm.add_trove_owner_to_array(&denied(), &"alice".to_string()),
        Err(ContractError::Unauthorized)
    ));
    // nothing was mutated
    assert_eq!(tm.get_trove_coll(&"alice".to_string()), 100);
    assert_eq!(tm.get_trove_debt(&"alice".to_string()), 40);
    assert!(matches!(tm.get_trove_status(&"alice".to_string()), Status::Active));
}

#[test]
fn owners_array_assigns_sequential_indices() {
    let mut tm = TroveManager::new(&"d".to_string(), "tm".to_string(), "gov".to_string());
    assert_eq!(tm.add_trove_owner_to_array(&granted(), &"alice".to_string()), Ok(0));
    assert_eq!(tm.add_trove_owner_to_array(&granted(), &"bob".to_string()), Ok(1));
}

#[test]
fn liquidate_below_threshold_closes_and_zeroes() {
    // icr = 100 * 1e18 / 100 = 1e18 <= MCR (1.1e18)
    let mut tm = manager_with("alice", 100, 100, Status::Active);
    let receipt = tm
        .liquidate(&granted(), &"alice".to_string(), 1_000_000_000_000_000_000)
        .unwrap();
    assert_eq!(receipt.account, "alice".to_string());
    assert_eq!(receipt.surplus_juno, 100);
    assert!(matches!(tm.get_trove_status(&"alice".to_string()), Status::Closed));
    assert_eq!(tm.get_trove_coll(&"alice".to_string()), 0);
    assert_eq!(tm.get_trove_debt(&"alice".to_string()), 0);
    // stake is untouched by liquidation
    assert_eq!(tm.get_trove_stake(&"alice".to_string()), 1);
}

#[test]
fn liquidate_above_threshold_is_a_no_op() {
    // icr = 100 * 2e18 / 100 = 2e18 > MCR
    let mut tm = manager_with("alice", 100, 100, Status::Active);
    let r = tm.liquidate(&granted(), &"alice".to_string(), 2_000_000_000_000_000_000);
    assert!(matches!(r, Err(ContractError::IcrAboveMcr)));
    assert!(matches!(tm.get_trove_status(&"alice".to_string()), Status::Active));
    assert_eq!(tm.get_trove_coll(&"alice".to_string()), 100);
    assert_eq!(tm.get_trove_debt(&"alice".to_string()), 100);
}

#[test]
fn liquidate_debt_free_position_is_not_liquidatable() {
    let mut tm = manager_with("alice", 100, 0, Status::Active);
    let r = tm.liquidate(&granted(), &"alice".to_string(), 1);
    assert!(matches!(r, Err(ContractError::IcrAboveMcr)));
}

#[test]
fn liquidate_missing_trove_is_not_found() {
    let mut tm = TroveManager::new(&"d".to_string(), "tm".to_string(), "gov".to_string());
    let r = tm.liquidate(&granted(), &"nobody".to_string(), 1);
    assert!(matches!(r, Err(ContractError::TroveNotFound)));
}

#[test]
fn nominal_icr_query_uses_stored_fields() {
    let tm = manager_with("alice", 200, 100, Status::Active);
    // 200 * 1e20 / 100 = 2e20
    assert_eq!(
        tm.get_nominal_icr(&"alice".to_string()),
        Ok(200_000_000_000_000_000_000u128)
    );
    // absent trove: zero collateral and debt, so the ratio is infinite
    assert_eq!(tm.get_nominal_icr(&"bob".to_string()), Ok(u128::MAX));
    assert_eq!(
        tm.get_current_icr(&"alice".to_string(), 1_000_000_000_000_000_000),
        Ok(2_000_000_000_000_000_000u128)
    );
}

#[test]
fn manager_admin_ops_are_admin_gated() {
    let mut tm = TroveManager::new(&"deployer".to_string(), "tm".to_string(), "gov".to_string());
    assert!(matches!(
        tm.update_role(&"mallory".to_string(), "oracle".to_string()),
        Err(ContractError::UnauthorizedAdmin)
    ));
    tm.update_role(&"deployer".to_string(), "oracle".to_string()).unwrap();
    tm.update_admin(&"deployer".to_string(), "successor".to_string()).unwrap();
    assert!(matches!(
        tm.update_admin(&"deployer".to_string(), "deployer".to_string()),
        Err(ContractError::UnauthorizedAdmin)
    ));
}

#[test]
fn update_params_is_owner_gated_and_partial() {
    let mut tm = TroveManager::new(&"d".to_string(), "tm".to_string(), "gov".to_string());
    assert!(matches!(
        tm.update_params(&"mallory".to_string(), Some("x".to_string()), None),
        Err(ContractError::UnauthorizedOwner)
    ));
    tm.update_params(&"gov".to_string(), Some("renamed".to_string()), None).unwrap();
    let p = tm.query_params();
    assert_eq!(p.name, "renamed".to_string());
    assert_eq!(p.owner, "gov".to_string());
    tm.update_params(&"gov".to_string(), None, Some("gov2".to_string())).unwrap();
    assert_eq!(tm.query_params().owner, "gov2".to_string());
}

#[test]
fn sudo_dispatches_parameter_updates() {
    let mut tm = TroveManager::new(&"d".to_string(), "tm".to_string(), "gov".to_string());
    let msg = SudoMsg::UpdateParams { name: Some("renamed".to_string()), owner: None };
    tm.sudo(&"gov".to_string(), msg).unwrap();
    assert_eq!(tm.query_params().name, "renamed".to_string());
    let msg = SudoMsg::UpdateParams { name: None, owner: Some("mallory".to_string()) };
    assert!(matches!(
        tm.sudo(&"mallory".to_string(), msg),
        Err(ContractError::UnauthorizedOwner)
    ));
}
