//! Interface types of the role capability oracle: the external contract that
//! answers "does address X hold one of roles R".  The core only consumes its
//! answers; it never implements the oracle.

use vstd::prelude::*;
use crate::error::ContractError;

verus! {

/// The capabilities the protocol distinguishes.  Each privileged operation
/// names the roles whose holders may invoke it.
#[derive(Clone, Copy, Debug, PartialEq, Eq, Structural)]
pub enum Role {
    ActivePool,
    TroveManager,
    Owner,
    StabilityPool,
    BorrowerOperations,
    DefaultPool,
    CollateralSurplusPool,
    UltraToken,
    PriceFeed,
    SortedTroves,
    RewardPool,
}

impl Role {
    /// The wire name of the role, as a mathematical value.
    pub open spec fn spec_name(self) -> Seq<char> {
        match self {
            Role::ActivePool => "active_pool"@,
            Role::TroveManager => "trove_manager"@,
            Role::Owner => "owner"@,
            Role::StabilityPool => "stability_pool"@,
            Role::BorrowerOperations => "borrower_operations"@,
            Role::DefaultPool => "default_pool"@,
            Role::CollateralSurplusPool => "collateral_surplus_pool"@,
            Role::UltraToken => "ultra_token"@,
            Role::PriceFeed => "price_feed"@,
            Role::SortedTroves => "sorted_troves"@,
            Role::RewardPool => "reward_pool"@,
        }
    }

    /// The wire name of the role.
    pub fn to_string(&self) -> (r: String)
        ensures
            r@ == self.spec_name(),
    {
        match self {
            Role::ActivePool => "active_pool",
            Role::TroveManager => "trove_manager",
            Role::Owner => "owner",
            Role::StabilityPool => "stability_pool",
            Role::BorrowerOperations => "borrower_operations",
            Role::DefaultPool => "default_pool",
            Role::CollateralSurplusPool => "collateral_surplus_pool",
            Role::UltraToken => "ultra_token",
            Role::PriceFeed => "price_feed",
            Role::SortedTroves => "sorted_troves",
            Role::RewardPool => "reward_pool",
        }.to_owned()
    }

    /// Every role, once each, in declaration order.
    pub fn iterator() -> (r: Vec<Role>)
        ensures
            r@ =~= seq![
                Role::ActivePool,
                Role::TroveManager,
                Role::Owner,
                Role::StabilityPool,
                Role::BorrowerOperations,
                Role::DefaultPool,
                Role::CollateralSurplusPool,
                Role::UltraToken,
                Role::PriceFeed,
                Role::SortedTroves,
                Role::RewardPool,
            ],
    {
        let mut r: Vec<Role> = Vec::new();
        r.push(Role::ActivePool);
        r.push(Role::TroveManager);
        r.push(Role::Owner);
        r.push(Role::StabilityPool);
        r.push(Role::BorrowerOperations);
        r.push(Role::DefaultPool);
        r.push(Role::CollateralSurplusPool);
        r.push(Role::UltraToken);
        r.push(Role::PriceFeed);
        r.push(Role::SortedTroves);
        r.push(Role::RewardPool);
        r
    }
}

/// The authorization gate every privileged operation passes first: turns
/// the oracle's negative or absent verdict into an authorization failure.
pub fn assert_role(auth: &HasAnyRoleResponse) -> (res: Result<(), ContractError>)
    ensures
        auth.has_role ==> res == Ok::<(), ContractError>(()),
        !auth.has_role ==> res == Err::<(), ContractError>(ContractError::Unauthorized),
{
    if auth.has_role {
        Ok(())
    } else {
        Err(ContractError::Unauthorized)
    }
}

/// Addresses the oracle is seeded with, one per initial role.
pub struct InstantiateMsg {
    pub active_pool: String,
    pub trove_manager: String,
    pub owner: String,
    pub stability_pool: String,
    pub borrower_operations: String,
}

/// The oracle's mutating operation: bind a role to an address.
pub enum ExecuteMsg {
    UpdateRole { role: Role, address: String },
}

/// The queries the oracle answers.
pub enum QueryMsg {
    HasAnyRole { address: String, roles: Vec<Role> },
    RoleAddress { role: Role },
    AllRoles,
}

/// The oracle's verdict for one `HasAnyRole` query: whether the queried
/// address holds at least one of the queried roles.  Role-gated operations
/// of this library take the verdict for their own role set as an argument.
#[derive(Clone, Copy, Debug, PartialEq, Eq, Structural)]
pub struct HasAnyRoleResponse {
    pub has_role: bool,
}

/// The oracle's answer for one `RoleAddress` query.
pub struct RoleAddressResponse {
    pub address: String,
}

/// The oracle's answer for an `AllRoles` query: each role with the address
/// bound to it, if any.
pub struct AllRolesResponse {
    pub roles: Vec<(Role, Option<String>)>,
}

/// The oracle's migration message carries nothing.
pub struct MigrateMsg {}

} // verus!
