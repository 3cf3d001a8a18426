//! The Trove data model and the position lifecycle controller: role-gated
//! operations that open, mutate and liquidate a borrower's position.

use vstd::prelude::*;
use crate::accounting::{
    current_icr, decrease_collateral, decrease_debt, increase_collateral, increase_debt,
    lemma_ratio_in_range, nominal_icr, spec_current_icr, spec_nominal_icr, MCR, NICR_PRECISION,
};
use crate::error::ContractError;
use crate::params::{ParamsResponse, SudoParams};
use crate::role_provider::HasAnyRoleResponse;
use crate::troves::Troves;

verus! {

/// The lifecycle state of a position.  `NonExistent` is also the implicit
/// state of any owner with no stored record; `Active` positions carry debt;
/// `Closed` positions are never reopened.
#[derive(Clone, Copy, Debug, PartialEq, Eq, Structural)]
pub enum Status {
    NonExistent,
    Active,
    Closed,
}

/// A borrower's collateralized position: locked native collateral (`juno`),
/// stable-token debt (`ultra_debt`), the proportional redistribution stake,
/// the lifecycle status and the immutable controlling address.
pub struct Trove {
    pub juno: u128,
    pub ultra_debt: u128,
    pub stake: u128,
    pub status: Status,
    pub owner: String,
}

/// The mathematical value of a Trove.
pub ghost struct TroveView {
    pub juno: u128,
    pub ultra_debt: u128,
    pub stake: u128,
    pub status: Status,
    pub owner: Seq<char>,
}

impl View for Trove {
    type V = TroveView;

    open spec fn view(&self) -> TroveView {
        TroveView {
            juno: self.juno,
            ultra_debt: self.ultra_debt,
            stake: self.stake,
            status: self.status,
            owner: self.owner@,
        }
    }
}

impl Clone for Trove {
    fn clone(&self) -> (res: Self)
        ensures
            res == *self,
    {
        Trove {
            juno: self.juno,
            ultra_debt: self.ultra_debt,
            stake: self.stake,
            status: self.status,
            owner: self.owner.clone(),
        }
    }
}

/// The parameters the trove manager is initialized with.
pub struct InstantiateMsg {
    pub name: String,
    pub owner: String,
}

/// The mutating operations the trove manager accepts.  Amounts are native
/// integer quantities of collateral or debt.
pub enum ExecuteMsg {
    UpdateAdmin { admin: String },
    UpdateRole { role_provider: String },
    Liquidate { borrower: String },
    AddTroveOwnerToArray { borrower: String },
    SetTroveStatus { borrower: String, status: Status },
    IncreaseTroveColl { borrower: String, coll_increase: u128 },
    DecreaseTroveColl { borrower: String, coll_decrease: u128 },
    IncreaseTroveDebt { borrower: String, debt_increase: u128 },
    DecreaseTroveDebt { borrower: String, debt_decrease: u128 },
}

/// The read-only queries the trove manager answers.
pub enum QueryMsg {
    GetParams,
    GetTroveStatus { borrower: String },
    GetTroveColl { borrower: String },
    GetTroveDebt { borrower: String },
    GetTroveStake { borrower: String },
    GetNominalICR { borrower: String },
    GetCurrentICR { borrower: String, price: u128 },
}

/// Governance-only parameter updates.
pub enum SudoMsg {
    UpdateParams { name: Option<String>, owner: Option<String> },
}

/// What liquidation hands to the surplus collateral ledger: the borrower
/// and the seized collateral routed there for a later claim.
pub struct LiquidationReceipt {
    pub account: String,
    pub surplus_juno: u128,
}

/// The collateral and debt a stored (or implicitly nonexistent) position
/// carries: `(0, 0)` when no record exists.
pub open spec fn spec_trove_coll_debt(o: Option<TroveView>) -> (u128, u128) {
    match o {
        Some(t) => (t.juno, t.ultra_debt),
        None => (0, 0),
    }
}

/// The Trove a position becomes when it is liquidated: collateral and debt
/// zeroed, status `Closed`, stake and owner untouched.
pub open spec fn spec_liquidated(t: TroveView) -> TroveView {
    TroveView { juno: 0, ultra_debt: 0, stake: t.stake, status: Status::Closed, owner: t.owner }
}

/// The trove manager contract state: administrative parameters, the Trove
/// store and the registered owners array.
pub struct TroveManager {
    /// Administrative parameters: contract name and owner address.
    pub params: SudoParams,
    /// The admin who may rebind the role provider; set at instantiation.
    pub admin: Option<String>,
    /// Address of the role capability oracle, once bound.
    pub role_provider: Option<String>,
    /// The Trove store.
    pub troves: Troves,
    /// The owners array: each registered owner under its ordering index.
    pub trove_owners: Vec<String>,
}

/// Everything but the Trove store is the same in `a` and `b`.
pub open spec fn same_except_troves(a: TroveManager, b: TroveManager) -> bool {
    &&& a.params == b.params
    &&& a.admin == b.admin
    &&& a.role_provider == b.role_provider
    &&& a.trove_owners == b.trove_owners
    &&& a.troves.namespace@ == b.troves.namespace@
    &&& a.troves.index_namespace@ == b.troves.index_namespace@
}

impl TroveManager {
    /// Well-formedness of the whole contract state.
    pub open spec fn wf(self) -> bool {
        self.troves.wf()
    }

    /// A fresh trove manager: the sender becomes admin, the parameters are
    /// stored, and the store and owners array start empty.
    pub fn new(sender: &String, name: String, owner: String) -> (res: TroveManager)
        ensures
            res.wf(),
            res.params.name@ == name@,
            res.params.owner@ == owner@,
            res.admin == Some(*sender),
            res.role_provider is None,
            res.troves.contents() =~= Map::<Seq<char>, TroveView>::empty(),
            res.trove_owners@ =~= Seq::<String>::empty(),
    {
        TroveManager {
            params: SudoParams { name, owner },
            admin: Some(sender.clone()),
            role_provider: None,
            troves: Troves::new("troves", "troves_by_addr"),
            trove_owners: Vec::new(),
        }
    }

    /// Admin-only: replace the stored admin address.
    pub fn update_admin(&mut self, sender: &String, admin: String) -> (res: Result<
        (),
        ContractError,
    >)
        ensures
            final(self).params == old(self).params,
            final(self).role_provider == old(self).role_provider,
            final(self).troves == old(self).troves,
            final(self).trove_owners == old(self).trove_owners,
            match old(self).admin {
                Some(a) => {
                    if a@ == sender@ {
                        res is Ok && final(self).admin == Some(admin)
                    } else {
                        res == Err::<(), ContractError>(ContractError::UnauthorizedAdmin)
                            && final(self).admin == old(self).admin
                    }
                },
                None => res == Err::<(), ContractError>(ContractError::UnauthorizedAdmin)
                    && final(self).admin == old(self).admin,
            },
    {
        let authorized = match &self.admin {
            Some(a) => sender.eq(a),
            None => false,
        };
        if !authorized {
            return Err(ContractError::UnauthorizedAdmin);
        }
        self.admin = Some(admin);
        Ok(())
    }

    /// Admin-only: bind the role capability oracle's address.
    pub fn update_role(&mut self, sender: &String, role_provider: String) -> (res: Result<
        (),
        ContractError,
    >)
        ensures
            final(self).params == old(self).params,
            final(self).admin == old(self).admin,
            final(self).troves == old(self).troves,
            final(self).trove_owners == old(self).trove_owners,
            match old(self).admin {
                Some(a) => {
                    if a@ == sender@ {
                        res is Ok && final(self).role_provider == Some(role_provider)
                    } else {
                        res == Err::<(), ContractError>(ContractError::UnauthorizedAdmin)
                            && final(self).role_provider == old(self).role_provider
                    }
                },
                None => res == Err::<(), ContractError>(ContractError::UnauthorizedAdmin)
                    && final(self).role_provider == old(self).role_provider,
            },
    {
        let authorized = match &self.admin {
            Some(a) => sender.eq(a),
            None => false,
        };
        if !authorized {
            return Err(ContractError::UnauthorizedAdmin);
        }
        self.role_provider = Some(role_provider);
        Ok(())
    }

    /// Owner-only partial parameter update; unspecified fields unchanged.
    pub fn update_params(&mut self, sender: &String, name: Option<String>, owner: Option<String>)
        -> (res: Result<(), ContractError>)
        ensures
            final(self).admin == old(self).admin,
            final(self).role_provider == old(self).role_provider,
            final(self).troves == old(self).troves,
            final(self).trove_owners == old(self).trove_owners,
            sender@ != old(self).params.owner@ ==> res == Err::<(), ContractError>(
                ContractError::UnauthorizedOwner,
            ) && final(self).params == old(self).params,
            sender@ == old(self).params.owner@ ==> res == Ok::<(), ContractError>(())
                && final(self).params.name@ == (if name is Some {
                    name->Some_0@
                } else {
                    old(self).params.name@
                })
                && final(self).params.owner@ == (if owner is Some {
                    owner->Some_0@
                } else {
                    old(self).params.owner@
                }),
    {
        self.params.update_params(sender, name, owner)
    }

    /// Governance entry point: dispatches the parameter update.
    pub fn sudo(&mut self, sender: &String, msg: SudoMsg) -> (res: Result<(), ContractError>)
        ensures
            final(self).admin == old(self).admin,
            final(self).role_provider == old(self).role_provider,
            final(self).troves == old(self).troves,
            final(self).trove_owners == old(self).trove_owners,
            msg matches SudoMsg::UpdateParams { name, owner } ==> {
                &&& sender@ != old(self).params.owner@ ==> res == Err::<(), ContractError>(
                    ContractError::UnauthorizedOwner,
                ) && final(self).params == old(self).params
                &&& sender@ == old(self).params.owner@ ==> res == Ok::<(), ContractError>(())
                    && final(self).params.name@ == (if name is Some {
                    name->Some_0@
                } else {
                    old(self).params.name@
                }) && final(self).params.owner@ == (if owner is Some {
                    owner->Some_0@
                } else {
                    old(self).params.owner@
                })
            },
    {
        match msg {
            SudoMsg::UpdateParams { name, owner } => self.update_params(sender, name, owner),
        }
    }

    /// The stored administrative parameters.
    pub fn query_params(&self) -> (res: ParamsResponse)
        ensures
            res.name@ == self.params.name@,
            res.owner@ == self.params.owner@,
    {
        ParamsResponse { name: self.params.name.clone(), owner: self.params.owner.clone() }
    }

    /// Trove-property setter: force the stored status of `borrower`'s
    /// position.  `auth` is the role oracle's verdict for the caller.
    pub fn set_trove_status(
        &mut self,
        auth: &HasAnyRoleResponse,
        borrower: &String,
        status: Status,
    ) -> (res: Result<(), ContractError>)
        requires
            old(self).wf(),
        ensures
            final(self).wf(),
            same_except_troves(*old(self), *final(self)),
            !auth.has_role ==> res == Err::<(), ContractError>(ContractError::Unauthorized)
                && *final(self) == *old(self),
            auth.has_role && !old(self).troves.spec_contains(borrower@) ==> res == Err::<
                (),
                ContractError,
            >(ContractError::TroveNotFound) && *final(self) == *old(self),
            auth.has_role && old(self).troves.spec_contains(borrower@) ==> res is Ok && final(self).troves.contents() == old(self).troves.contents().insert(
                borrower@,
                (TroveView { status, ..old(self).troves.contents()[borrower@] }),
            ),
    {
        if !auth.has_role {
            return Err(ContractError::Unauthorized);
        }
        let t = match self.troves.get(borrower) {
            Some(t) => t,
            None => {
                return Err(ContractError::TroveNotFound);
            },
        };
        let updated = Trove {
            juno: t.juno,
            ultra_debt: t.ultra_debt,
            stake: t.stake,
            status,
            owner: t.owner,
        };
        self.troves.set(borrower, updated);
        Ok(())
    }

    /// Add `amount` of collateral to `borrower`'s position.
    pub fn increase_trove_coll(
        &mut self,
        auth: &HasAnyRoleResponse,
        borrower: &String,
        amount: u128,
    ) -> (res: Result<(), ContractError>)
        requires
            old(self).wf(),
        ensures
            final(self).wf(),
            same_except_troves(*old(self), *final(self)),
            !auth.has_role ==> res == Err::<(), ContractError>(ContractError::Unauthorized)
                && *final(self) == *old(self),
            auth.has_role && !old(self).troves.spec_contains(borrower@) ==> res == Err::<
                (),
                ContractError,
            >(ContractError::TroveNotFound) && *final(self) == *old(self),
            auth.has_role && old(self).troves.spec_contains(borrower@) ==> ({
                let t = old(self).troves.contents()[borrower@];
                &&& t.juno + amount > u128::MAX ==> res == Err::<(), ContractError>(
                    ContractError::Overflow,
                ) && *final(self) == *old(self)
                &&& t.juno + amount <= u128::MAX ==> res is Ok && final(self).troves.contents()
                    == old(self).troves.contents().insert(
                    borrower@,
                    (TroveView { juno: (t.juno + amount) as u128, ..t }),
                )
            }),
    {
        if !auth.has_role {
            return Err(ContractError::Unauthorized);
        }
        let t = match self.troves.get(borrower) {
            Some(t) => t,
            None => {
                return Err(ContractError::TroveNotFound);
            },
        };
        let updated = match increase_collateral(&t, amount) {
            Ok(u) => u,
            Err(e) => {
                return Err(e);
            },
        };
        self.troves.set(borrower, updated);
        Ok(())
    }

    /// Withdraw `amount` of collateral from `borrower`'s position, which
    /// must be `Active`; withdrawing more than is held is an arithmetic
    /// fault and leaves the stored Trove unchanged.
    pub fn decrease_trove_coll(
        &mut self,
        auth: &HasAnyRoleResponse,
        borrower: &String,
        amount: u128,
    ) -> (res: Result<(), ContractError>)
        requires
            old(self).wf(),
        ensures
            final(self).wf(),
            same_except_troves(*old(self), *final(self)),
            !auth.has_role ==> res == Err::<(), ContractError>(ContractError::Unauthorized)
                && *final(self) == *old(self),
            auth.has_role && !old(self).troves.spec_contains(borrower@) ==> res == Err::<
                (),
                ContractError,
            >(ContractError::TroveNotFound) && *final(self) == *old(self),
            auth.has_role && old(self).troves.spec_contains(borrower@) ==> ({
                let t = old(self).troves.contents()[borrower@];
                &&& t.status != Status::Active ==> res == Err::<(), ContractError>(
                    ContractError::TroveNotActive,
                ) && *final(self) == *old(self)
                &&& t.status == Status::Active && amount > t.juno ==> res == Err::<
                    (),
                    ContractError,
                >(ContractError::Underflow) && *final(self) == *old(self)
                &&& t.status == Status::Active && amount <= t.juno ==> res is Ok && final(self).troves.contents() == old(self).troves.contents().insert(
                    borrower@,
                    (TroveView { juno: (t.juno - amount) as u128, ..t }),
                )
            }),
    {
        if !auth.has_role {
            return Err(ContractError::Unauthorized);
        }
        let t = match self.troves.get(borrower) {
            Some(t) => t,
            None => {
                return Err(ContractError::TroveNotFound);
            },
        };
        if !matches!(t.status, Status::Active) {
            return Err(ContractError::TroveNotActive);
        }
        let updated = match decrease_collateral(&t, amount) {
            Ok(u) => u,
            Err(e) => {
                return Err(e);
            },
        };
        self.troves.set(borrower, updated);
        Ok(())
    }

    /// Add `amount` of debt to `borrower`'s position.
    pub fn increase_trove_debt(
        &mut self,
        auth: &HasAnyRoleResponse,
        borrower: &String,
        amount: u128,
    ) -> (res: Result<(), ContractError>)
        requires
            old(self).wf(),
        ensures
            final(self).wf(),
            same_except_troves(*old(self), *final(self)),
            !auth.has_role ==> res == Err::<(), ContractError>(ContractError::Unauthorized)
                && *final(self) == *old(self),
            auth.has_role && !old(self).troves.spec_contains(borrower@) ==> res == Err::<
                (),
                ContractError,
            >(ContractError::TroveNotFound) && *final(self) == *old(self),
            auth.has_role && old(self).troves.spec_contains(borrower@) ==> ({
                let t = old(self).troves.contents()[borrower@];
                &&& t.ultra_debt + amount > u128::MAX ==> res == Err::<(), ContractError>(
                    ContractError::Overflow,
                ) && *final(self) == *old(self)
                &&& t.ultra_debt + amount <= u128::MAX ==> res is Ok && final(self).troves.contents() == old(self).troves.contents().insert(
                    borrower@,
                    (TroveView { ultra_debt: (t.ultra_debt + amount) as u128, ..t }),
                )
            }),
    {
        if !auth.has_role {
            return Err(ContractError::Unauthorized);
        }
        let t = match self.troves.get(borrower) {
            Some(t) => t,
            None => {
                return Err(ContractError::TroveNotFound);
            },
        };
        let updated = match increase_debt(&t, amount) {
            Ok(u) => u,
            Err(e) => {
                return Err(e);
            },
        };
        self.troves.set(borrower, updated);
        Ok(())
    }

    /// Repay `amount` of debt on `borrower`'s position, which must be
    /// `Active`; repaying more than is outstanding is an arithmetic fault
    /// and leaves the stored Trove unchanged.
    pub fn decrease_trove_debt(
        &mut self,
        auth: &HasAnyRoleResponse,
        borrower: &String,
        amount: u128,
    ) -> (res: Result<(), ContractError>)
        requires
            old(self).wf(),
        ensures
            final(self).wf(),
            same_except_troves(*old(self), *final(self)),
            !auth.has_role ==> res == Err::<(), ContractError>(ContractError::Unauthorized)
                && *final(self) == *old(self),
            auth.has_role && !old(self).troves.spec_contains(borrower@) ==> res == Err::<
                (),
                ContractError,
            >(ContractError::TroveNotFound) && *final(self) == *old(self),
            auth.has_role && old(self).troves.spec_contains(borrower@) ==> ({
                let t = old(self).troves.contents()[borrower@];
                &&& t.status != Status::Active ==> res == Err::<(), ContractError>(
                    ContractError::TroveNotActive,
                ) && *final(self) == *old(self)
                &&& t.status == Status::Active && amount > t.ultra_debt ==> res == Err::<
                    (),
                    ContractError,
                >(ContractError::Underflow) && *final(self) == *old(self)
                &&& t.status == Status::Active && amount <= t.ultra_debt ==> res is Ok && final(self).troves.contents() == old(self).troves.contents().insert(
                    borrower@,
                    (TroveView { ultra_debt: (t.ultra_debt - amount) as u128, ..t }),
                )
            }),
    {
        if !auth.has_role {
            return Err(ContractError::Unauthorized);
        }
        let t = match self.troves.get(borrower) {
            Some(t) => t,
            None => {
                return Err(ContractError::TroveNotFound);
            },
        };
        if !matches!(t.status, Status::Active) {
            return Err(ContractError::TroveNotActive);
        }
        let updated = match decrease_debt(&t, amount) {
            Ok(u) => u,
            Err(e) => {
                return Err(e);
            },
        };
        self.troves.set(borrower, updated);
        Ok(())
    }

    /// Register `borrower` in the owners array and return the ordering
    /// index assigned to it.
    pub fn add_trove_owner_to_array(&mut self, auth: &HasAnyRoleResponse, borrower: &String) -> (
        res: Result<u128, ContractError>)
        requires
            old(self).wf(),
        ensures
            final(self).wf(),
            !auth.has_role ==> res == Err::<u128, ContractError>(ContractError::Unauthorized)
                && *final(self) == *old(self),
            auth.has_role ==> res == Ok::<u128, ContractError>(
                old(self).trove_owners@.len() as u128,
            ) && final(self).trove_owners@ == old(self).trove_owners@.push(*borrower) && final(self).troves == old(self).troves && final(self).params == old(self).params && final(self).admin == old(self).admin && final(self).role_provider == old(self).role_provider,
    {
        if !auth.has_role {
            return Err(ContractError::Unauthorized);
        }
        let index = self.trove_owners.len() as u128;
        self.trove_owners.push(borrower.clone());
        Ok(index)
    }

    /// Trove-manager-only single liquidation: close `borrower`'s position
    /// when its current ICR at `price` is at or below the minimum
    /// collateral ratio, zero its collateral and debt, and route the
    /// seized collateral to the surplus ledger through the returned
    /// receipt.  A position above the threshold is left untouched.
    pub fn liquidate(&mut self, auth: &HasAnyRoleResponse, borrower: &String, price: u128) -> (res:
        Result<LiquidationReceipt, ContractError>)
        requires
            old(self).wf(),
        ensures
            final(self).wf(),
            same_except_troves(*old(self), *final(self)),
            !auth.has_role ==> res == Err::<LiquidationReceipt, ContractError>(
                ContractError::Unauthorized,
            ) && *final(self) == *old(self),
            auth.has_role && !old(self).troves.spec_contains(borrower@) ==> res == Err::<
                LiquidationReceipt,
                ContractError,
            >(ContractError::TroveNotFound) && *final(self) == *old(self),
            auth.has_role && old(self).troves.spec_contains(borrower@) ==> ({
                let t = old(self).troves.contents()[borrower@];
                &&& t.ultra_debt != 0 && t.juno * price > u128::MAX ==> res == Err::<
                    LiquidationReceipt,
                    ContractError,
                >(ContractError::Overflow) && *final(self) == *old(self)
                &&& (t.ultra_debt == 0 || (t.juno * price <= u128::MAX && spec_current_icr(
                    t.juno,
                    t.ultra_debt,
                    price,
                ) > MCR)) ==> res == Err::<LiquidationReceipt, ContractError>(
                    ContractError::IcrAboveMcr,
                ) && *final(self) == *old(self)
                &&& t.ultra_debt != 0 && t.juno * price <= u128::MAX && spec_current_icr(
                    t.juno,
                    t.ultra_debt,
                    price,
                ) <= MCR ==> res is Ok && res->Ok_0.account@ == borrower@ && res->Ok_0.surplus_juno
                    == t.juno && final(self).troves.contents() == old(self).troves.contents().insert(borrower@, spec_liquidated(t))
            }),
    {
        if !auth.has_role {
            return Err(ContractError::Unauthorized);
        }
        let t = match self.troves.get(borrower) {
            Some(t) => t,
            None => {
                return Err(ContractError::TroveNotFound);
            },
        };
        let icr = match current_icr(t.juno, t.ultra_debt, price) {
            Ok(v) => v,
            Err(e) => {
                return Err(e);
            },
        };
        proof {
            if t.ultra_debt != 0 && t.juno * price <= u128::MAX {
                lemma_ratio_in_range(t.juno, price, t.ultra_debt);
            }
        }
        if icr > MCR {
            return Err(ContractError::IcrAboveMcr);
        }
        let seized = t.juno;
        let closed = Trove {
            juno: 0,
            ultra_debt: 0,
            stake: t.stake,
            status: Status::Closed,
            owner: t.owner,
        };
        self.troves.set(borrower, closed);
        Ok(LiquidationReceipt { account: borrower.clone(), surplus_juno: seized })
    }

    /// The stored status of `borrower`'s position; absence is the implicit
    /// `NonExistent` state.
    pub fn get_trove_status(&self, borrower: &String) -> (res: Status)
        requires
            self.wf(),
        ensures
            match self.troves.spec_get(borrower@) {
                Some(t) => res == t.status,
                None => res == Status::NonExistent,
            },
    {
        match self.troves.get(borrower) {
            Some(t) => t.status,
            None => Status::NonExistent,
        }
    }

    /// The collateral of `borrower`'s position; zero when none is stored.
    pub fn get_trove_coll(&self, borrower: &String) -> (res: u128)
        requires
            self.wf(),
        ensures
            match self.troves.spec_get(borrower@) {
                Some(t) => res == t.juno,
                None => res == 0,
            },
    {
        match self.troves.get(borrower) {
            Some(t) => t.juno,
            None => 0,
        }
    }

    /// The debt of `borrower`'s position; zero when none is stored.
    pub fn get_trove_debt(&self, borrower: &String) -> (res: u128)
        requires
            self.wf(),
        ensures
            match self.troves.spec_get(borrower@) {
                Some(t) => res == t.ultra_debt,
                None => res == 0,
            },
    {
        match self.troves.get(borrower) {
            Some(t) => t.ultra_debt,
            None => 0,
        }
    }

    /// The nominal ICR of `borrower`'s position, computed on the stored
    /// collateral and debt (both zero when no record exists), or an
    /// arithmetic fault when the scaled collateral is not representable.
    pub fn get_nominal_icr(&self, borrower: &String) -> (res: Result<u128, ContractError>)
        requires
            self.wf(),
        ensures
            ({
                let cd = spec_trove_coll_debt(self.troves.spec_get(borrower@));
                &&& cd.1 != 0 && cd.0 * NICR_PRECISION > u128::MAX ==> res == Err::<
                    u128,
                    ContractError,
                >(ContractError::Overflow)
                &&& (cd.1 == 0 || cd.0 * NICR_PRECISION <= u128::MAX) ==> res == Ok::<
                    u128,
                    ContractError,
                >(spec_nominal_icr(cd.0, cd.1) as u128)
            }),
    {
        let (coll, debt) = match self.troves.get(borrower) {
            Some(t) => (t.juno, t.ultra_debt),
            None => (0, 0),
        };
        nominal_icr(coll, debt)
    }

    /// The current ICR of `borrower`'s position at the given oracle price,
    /// on the stored collateral and debt (both zero when no record
    /// exists), or an arithmetic fault when the product is not
    /// representable.
    pub fn get_current_icr(&self, borrower: &String, price: u128) -> (res: Result<
        u128,
        ContractError,
    >)
        requires
            self.wf(),
        ensures
            ({
                let cd = spec_trove_coll_debt(self.troves.spec_get(borrower@));
                &&& cd.1 != 0 && cd.0 * price > u128::MAX ==> res == Err::<u128, ContractError>(
                    ContractError::Overflow,
                )
                &&& (cd.1 == 0 || cd.0 * price <= u128::MAX) ==> res == Ok::<u128, ContractError>(
                    spec_current_icr(cd.0, cd.1, price) as u128,
                )
            }),
    {
        let (coll, debt) = match self.troves.get(borrower) {
            Some(t) => (t.juno, t.ultra_debt),
            None => (0, 0),
        };
        current_icr(coll, debt, price)
    }

    /// The stake of `borrower`'s position; zero when none is stored.
    pub fn get_trove_stake(&self, borrower: &String) -> (res: u128)
        requires
            self.wf(),
        ensures
            match self.troves.spec_get(borrower@) {
                Some(t) => res == t.stake,
                None => res == 0,
            },
    {
        match self.troves.get(borrower) {
            Some(t) => t.stake,
            None => 0,
        }
    }
}

} // verus!
