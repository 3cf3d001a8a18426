//! The surplus collateral ledger: per-account claimable collateral accrued
//! by liquidation settlement, with pool-level conservation — the sum of all
//! account balances never exceeds the pool total.

use vstd::prelude::*;
use crate::error::ContractError;
use crate::params::{ParamsResponse, SudoParams};
use crate::response::{BankTransfer, BankTransferView, Response};
use crate::role_provider::HasAnyRoleResponse;

verus! {

/// Denomination of the native collateral coin.
pub const NATIVE_JUNO_DENOM: &'static str = "ujuno";

/// The parameters the pool is initialized with.
pub struct InstantiateMsg {
    pub name: String,
    pub owner: String,
}

/// The mutating operations the pool accepts.
pub enum ExecuteMsg {
    UpdateAdmin { admin: String },
    UpdateRole { role_provider: String },
    AccountSurplus { account: String, amount: u128 },
    ClaimColl { account: String },
}

/// The read-only queries the pool answers.
pub enum QueryMsg {
    GetParams,
    GetJUNO,
    GetCollateral { account: String },
}

/// The answer to one pool query.
pub enum QueryAnswer {
    Params(ParamsResponse),
    Juno(u128),
    Collateral(u128),
}

/// One ledger row: an account and its claimable balance.
pub struct SurplusEntry {
    pub account: String,
    pub amount: u128,
}

/// The ledger and the pool total, as mathematical values.
pub ghost struct PoolState {
    pub ledger: Map<Seq<char>, u128>,
    pub total: u128,
}

/// The balance a ledger map holds for `a`: zero when `a` is absent.
pub open spec fn spec_balance_m(m: Map<Seq<char>, u128>, a: Seq<char>) -> u128 {
    if m.contains_key(a) {
        m[a]
    } else {
        0
    }
}

/// What `account_surplus` does to a pool state: add `amt` to the account's
/// balance and to the pool total.  `None` is the arithmetic fault.
pub open spec fn spec_account_surplus(st: PoolState, a: Seq<char>, amt: u128) -> Option<PoolState> {
    if spec_balance_m(st.ledger, a) + amt > u128::MAX || st.total + amt > u128::MAX {
        None
    } else {
        Some(
            PoolState {
                ledger: st.ledger.insert(a, (spec_balance_m(st.ledger, a) + amt) as u128),
                total: (st.total + amt) as u128,
            },
        )
    }
}

/// What `claim_coll` does to a pool state: zero the account's balance and
/// subtract it from the total, paying it out.  `None` is the no-funds
/// failure.
pub open spec fn spec_claim_coll(st: PoolState, a: Seq<char>) -> Option<(PoolState, u128)>
    recommends
        spec_balance_m(st.ledger, a) <= st.total,
{
    let bal = spec_balance_m(st.ledger, a);
    if bal == 0 {
        None
    } else {
        Some((PoolState { ledger: st.ledger.insert(a, 0), total: (st.total - bal) as u128 }, bal))
    }
}

/// The sum of the balances of a ledger row sequence.
pub open spec fn sum_amounts(s: Seq<SurplusEntry>) -> int
    decreases s.len(),
{
    if s.len() == 0 {
        0
    } else {
        sum_amounts(s.drop_last()) + s.last().amount
    }
}

/// A sum of unsigned balances is never negative.
pub proof fn lemma_sum_nonneg(s: Seq<SurplusEntry>)
    ensures
        0 <= sum_amounts(s),
    decreases s.len(),
{
    if s.len() > 0 {
        lemma_sum_nonneg(s.drop_last());
    }
}

/// Each single balance is at most the sum of all of them.
pub proof fn lemma_elem_le_sum(s: Seq<SurplusEntry>, i: int)
    requires
        0 <= i < s.len(),
    ensures
        s[i].amount <= sum_amounts(s),
    decreases s.len(),
{
    if i == s.len() - 1 {
        lemma_sum_nonneg(s.drop_last());
    } else {
        lemma_elem_le_sum(s.drop_last(), i);
    }
}

/// Replacing row `i` changes the sum by the difference of the amounts.
pub proof fn lemma_sum_update(s: Seq<SurplusEntry>, i: int, e: SurplusEntry)
    requires
        0 <= i < s.len(),
    ensures
        sum_amounts(s.update(i, e)) == sum_amounts(s) - s[i].amount + e.amount,
    decreases s.len(),
{
    if i == s.len() - 1 {
        assert(s.update(i, e).drop_last() =~= s.drop_last());
        assert(s.update(i, e).last() == e);
    } else {
        assert(s.update(i, e).drop_last() =~= s.drop_last().update(i, e));
        assert(s.update(i, e).last() == s.last());
        lemma_sum_update(s.drop_last(), i, e);
    }
}

/// Appending a row adds its amount to the sum.
pub proof fn lemma_sum_push(s: Seq<SurplusEntry>, e: SurplusEntry)
    ensures
        sum_amounts(s.push(e)) == sum_amounts(s) + e.amount,
{
    assert(s.push(e).drop_last() =~= s);
    assert(s.push(e).last() == e);
}

/// The surplus collateral pool contract state.
pub struct CollSurplusPool {
    /// Administrative parameters: contract name and owner address.
    pub params: SudoParams,
    /// The admin who may rebind the role provider; set at instantiation.
    pub admin: Option<String>,
    /// Address of the role capability oracle, once bound.
    pub role_provider: Option<String>,
    /// The ledger rows; accounts are pairwise distinct.
    pub accounts: Vec<SurplusEntry>,
    /// Total native collateral held by the pool.
    pub total_juno: u128,
}

impl CollSurplusPool {
    /// Whether some ledger row belongs to `a`.
    pub open spec fn spec_has_account(self, a: Seq<char>) -> bool {
        exists|i: int| 0 <= i < self.accounts@.len() && self.accounts@[i].account@ == a
    }

    /// The row index of account `a`, when one exists.
    pub open spec fn account_index(self, a: Seq<char>) -> int {
        choose|i: int| 0 <= i < self.accounts@.len() && self.accounts@[i].account@ == a
    }

    /// The ledger as a mathematical map from account to balance.
    pub open spec fn ledger(self) -> Map<Seq<char>, u128> {
        Map::new(
            |a: Seq<char>| self.spec_has_account(a),
            |a: Seq<char>| self.accounts@[self.account_index(a)].amount,
        )
    }

    /// The pool's mathematical state: its ledger and its total.
    pub open spec fn pool_state(self) -> PoolState {
        PoolState { ledger: self.ledger(), total: self.total_juno }
    }

    /// Well-formedness: accounts are pairwise distinct and the ledger is
    /// conserved — the balances sum to at most the pool total.
    pub open spec fn wf(self) -> bool {
        &&& (forall|i: int, j: int|
            0 <= i < j < self.accounts@.len() ==> self.accounts@[i].account@
                != self.accounts@[j].account@)
        &&& sum_amounts(self.accounts@) <= self.total_juno
    }

    /// Everything but the ledger and total is the same in `a` and `b`.
    pub open spec fn same_admin_state(a: CollSurplusPool, b: CollSurplusPool) -> bool {
        a.params == b.params && a.admin == b.admin && a.role_provider == b.role_provider
    }

    /// A fresh pool: the sender becomes admin, the parameters are stored,
    /// and the pool starts with a zero total and an empty ledger.
    pub fn instantiate(sender: &String, name: String, owner: String) -> (res: (
        CollSurplusPool,
        Response,
    ))
        ensures
            res.0.wf(),
            res.0.params.name@ == name@,
            res.0.params.owner@ == owner@,
            res.0.admin == Some(*sender),
            res.0.role_provider is None,
            res.0.total_juno == 0,
            res.0.ledger() =~= Map::<Seq<char>, u128>::empty(),
            res.1.spec_messages() =~= Seq::<BankTransferView>::empty(),
    {
        let pool = CollSurplusPool {
            params: SudoParams { name, owner },
            admin: Some(sender.clone()),
            role_provider: None,
            accounts: Vec::new(),
            total_juno: 0,
        };
        (pool, Response::new())
    }

    /// Admin-only: replace the stored admin address.
    pub fn execute_update_admin(&mut self, sender: &String, admin: String) -> (res: Result<
        Response,
        ContractError,
    >)
        ensures
            final(self).accounts == old(self).accounts,
            final(self).total_juno == old(self).total_juno,
            final(self).params == old(self).params,
            final(self).role_provider == old(self).role_provider,
            match old(self).admin {
                Some(a) => {
                    if a@ == sender@ {
                        res is Ok && final(self).admin == Some(admin)
                    } else {
                        res == Err::<Response, ContractError>(ContractError::UnauthorizedAdmin)
                            && final(self).admin == old(self).admin
                    }
                },
                None => res == Err::<Response, ContractError>(ContractError::UnauthorizedAdmin)
                    && final(self).admin == old(self).admin,
            },
    {
        let authorized = match &self.admin {
            Some(a) => sender.eq(a),
            None => false,
        };
        if !authorized {
            return Err(ContractError::UnauthorizedAdmin);
        }
        self.admin = Some(admin);
        Ok(Response::new())
    }

    /// Admin-only: bind the role capability oracle's address.
    pub fn execute_update_role(&mut self, sender: &String, role_provider: String) -> (res: Result<
        Response,
        ContractError,
    >)
        ensures
            final(self).accounts == old(self).accounts,
            final(self).total_juno == old(self).total_juno,
            final(self).params == old(self).params,
            final(self).admin == old(self).admin,
            match old(self).admin {
                Some(a) => {
                    if a@ == sender@ {
                        res is Ok && final(self).role_provider == Some(role_provider)
                            && res->Ok_0.spec_messages() =~= Seq::<BankTransferView>::empty()
                            && res->Ok_0.spec_attributes() =~= seq![
                            ("action"@, "update_role"@),
                            ("role_provider_addr"@, role_provider@),
                        ]
                    } else {
                        res == Err::<Response, ContractError>(ContractError::UnauthorizedAdmin)
                            && final(self).role_provider == old(self).role_provider
                    }
                },
                None => res == Err::<Response, ContractError>(ContractError::UnauthorizedAdmin)
                    && final(self).role_provider == old(self).role_provider,
            },
    {
        let authorized = match &self.admin {
            Some(a) => sender.eq(a),
            None => false,
        };
        if !authorized {
            return Err(ContractError::UnauthorizedAdmin);
        }
        let mut res = Response::new();
        res.add_attribute("action", "update_role".to_owned());
        res.add_attribute("role_provider_addr", role_provider.clone());
        self.role_provider = Some(role_provider);
        Ok(res)
    }

    /// The row index of `account`, searched linearly.
    fn find(&self, account: &String) -> (res: Option<usize>)
        ensures
            match res {
                Some(i) => i < self.accounts@.len() && self.accounts@[i as int].account@
                    == account@,
                None => !self.spec_has_account(account@),
            },
    {
        let n = self.accounts.len();
        let mut i: usize = 0;
        while i < n
            invariant
                n == self.accounts@.len(),
                i <= n,
                forall|j: int| 0 <= j < i ==> self.accounts@[j].account@ != account@,
            decreases n - i,
        {
            if self.accounts[i].account.eq(account) {
                return Some(i);
            }
            i += 1;
        }
        None
    }

    /// The claimable balance of `account`; zero when no row exists.
    pub fn query_coll_of_account(&self, account: &String) -> (res: u128)
        requires
            self.wf(),
        ensures
            res == spec_balance_m(self.ledger(), account@),
    {
        match self.find(account) {
            Some(i) => {
                proof {
                    self.lemma_index_unique(account@, i as int);
                }
                self.accounts[i].amount
            },
            None => 0,
        }
    }

    /// The pool-wide total of native collateral.
    pub fn query_juno_state(&self) -> (res: u128)
        ensures
            res == self.total_juno,
    {
        self.total_juno
    }

    /// The stored administrative parameters.
    pub fn query_params(&self) -> (res: ParamsResponse)
        ensures
            res.name@ == self.params.name@,
            res.owner@ == self.params.owner@,
    {
        ParamsResponse { name: self.params.name.clone(), owner: self.params.owner.clone() }
    }

    /// The owner check for owner-only entry points.
    pub fn only_owner(&self, sender: &String) -> (res: Result<String, ContractError>)
        ensures
            sender@ == self.params.owner@ ==> res is Ok && res->Ok_0@ == sender@,
            sender@ != self.params.owner@ ==> res == Err::<String, ContractError>(
                ContractError::UnauthorizedOwner,
            ),
    {
        self.params.only_owner(sender)
    }

    /// When row `i` is `a`'s row, it is the one `account_index` picks.
    proof fn lemma_index_unique(self, a: Seq<char>, i: int)
        requires
            forall|p: int, q: int|
                0 <= p < q < self.accounts@.len() ==> self.accounts@[p].account@
                    != self.accounts@[q].account@,
            0 <= i < self.accounts@.len(),
            self.accounts@[i].account@ == a,
        ensures
            self.spec_has_account(a),
            self.account_index(a) == i,
    {
        let j = self.account_index(a);
        assert(self.accounts@[j].account@ == a);
    }

    /// Replacing row `i` by a row for the same account rebinds only that
    /// account in the ledger.
    proof fn lemma_ledger_update(self, after: CollSurplusPool, i: int, e: SurplusEntry)
        requires
            forall|p: int, q: int|
                0 <= p < q < self.accounts@.len() ==> self.accounts@[p].account@
                    != self.accounts@[q].account@,
            0 <= i < self.accounts@.len(),
            e.account@ == self.accounts@[i].account@,
            after.accounts@ == self.accounts@.update(i, e),
        ensures
            forall|p: int, q: int|
                0 <= p < q < after.accounts@.len() ==> after.accounts@[p].account@
                    != after.accounts@[q].account@,
            after.ledger() == self.ledger().insert(e.account@, e.amount),
    {
        let key = e.account@;
        assert forall|a: Seq<char>| #[trigger] after.spec_has_account(a) == self.spec_has_account(
            a,
        ) by {
            if after.spec_has_account(a) {
                let p = choose|p: int|
                    0 <= p < after.accounts@.len() && after.accounts@[p].account@ == a;
                assert(self.accounts@[if p == i {
                    i
                } else {
                    p
                }].account@ == a);
            }
            if self.spec_has_account(a) {
                let p = choose|p: int|
                    0 <= p < self.accounts@.len() && self.accounts@[p].account@ == a;
                assert(after.accounts@[p].account@ == a);
            }
        }
        assert forall|a: Seq<char>| after.spec_has_account(a) implies after.ledger()[a]
            == self.ledger().insert(key, e.amount)[a] by {
            let p = after.account_index(a);
            assert(0 <= p < after.accounts@.len() && after.accounts@[p].account@ == a);
            if a == key {
                if p != i {
                    assert(self.accounts@[p].account@ == key);
                    assert(self.accounts@[i].account@ == key);
                }
                assert(p == i);
                assert(after.ledger()[a] == e.amount);
            } else {
                assert(p != i);
                assert(self.accounts@[p].account@ == a);
                self.lemma_index_unique(a, p);
                assert(after.ledger()[a] == after.accounts@[p].amount);
                assert(self.ledger()[a] == self.accounts@[p].amount);
            }
        }
        assert(after.ledger() =~= self.ledger().insert(key, e.amount));
    }

    /// Appending a row for a fresh account extends the ledger by exactly
    /// that binding.
    proof fn lemma_ledger_push(self, after: CollSurplusPool, e: SurplusEntry)
        requires
            forall|p: int, q: int|
                0 <= p < q < self.accounts@.len() ==> self.accounts@[p].account@
                    != self.accounts@[q].account@,
            !self.spec_has_account(e.account@),
            after.accounts@ == self.accounts@.push(e),
        ensures
            forall|p: int, q: int|
                0 <= p < q < after.accounts@.len() ==> after.accounts@[p].account@
                    != after.accounts@[q].account@,
            after.ledger() == self.ledger().insert(e.account@, e.amount),
    {
        let key = e.account@;
        let n = self.accounts@.len() as int;
        assert forall|p: int, q: int| 0 <= p < q < after.accounts@.len() implies after.accounts@[p].account@
            != after.accounts@[q].account@ by {
            if q == n {
                assert(after.accounts@[p] == self.accounts@[p]);
                if after.accounts@[p].account@ == key {
                    assert(self.spec_has_account(key));
                }
            } else {
                assert(after.accounts@[p] == self.accounts@[p]);
                assert(after.accounts@[q] == self.accounts@[q]);
            }
        }
        assert forall|a: Seq<char>| #[trigger] after.spec_has_account(a) == (self.spec_has_account(
            a,
        ) || a == key) by {
            if after.spec_has_account(a) {
                let p = choose|p: int|
                    0 <= p < after.accounts@.len() && after.accounts@[p].account@ == a;
                if p < n {
                    assert(self.accounts@[p].account@ == a);
                }
            }
            if self.spec_has_account(a) {
                let p = choose|p: int|
                    0 <= p < self.accounts@.len() && self.accounts@[p].account@ == a;
                assert(after.accounts@[p].account@ == a);
            }
            if a == key {
                assert(after.accounts@[n].account@ == key);
            }
        }
        assert forall|a: Seq<char>| after.spec_has_account(a) implies after.ledger()[a]
            == self.ledger().insert(key, e.amount)[a] by {
            let p = after.account_index(a);
            assert(0 <= p < after.accounts@.len() && after.accounts@[p].account@ == a);
            if a == key {
                if p < n {
                    assert(self.accounts@[p].account@ == key);
                    assert(self.spec_has_account(key));
                }
                assert(p == n);
                assert(after.ledger()[a] == e.amount);
            } else {
                assert(p < n);
                assert(self.accounts@[p].account@ == a);
                self.lemma_index_unique(a, p);
                assert(after.ledger()[a] == after.accounts@[p].amount);
                assert(self.ledger()[a] == self.accounts@[p].amount);
            }
        }
        assert(after.ledger() =~= self.ledger().insert(key, e.amount));
    }

    /// Trove-manager-only: add `amount` to `account`'s claimable balance
    /// and to the pool total.  `auth` is the role oracle's verdict on
    /// whether the caller holds the trove-manager role.
    pub fn execute_account_surplus(
        &mut self,
        auth: &HasAnyRoleResponse,
        account: &String,
        amount: u128,
    ) -> (res: Result<Response, ContractError>)
        requires
            old(self).wf(),
        ensures
            final(self).wf(),
            CollSurplusPool::same_admin_state(*old(self), *final(self)),
            !auth.has_role ==> res == Err::<Response, ContractError>(ContractError::Unauthorized)
                && *final(self) == *old(self),
            auth.has_role ==> match spec_account_surplus(old(self).pool_state(), account@, amount) {
                Some(st) => res is Ok && final(self).pool_state() == st
                    && res->Ok_0.spec_messages() =~= Seq::<BankTransferView>::empty()
                    && res->Ok_0.spec_attributes() =~= seq![
                    ("action"@, "account_surplus"@),
                    ("account"@, account@),
                ],
                None => res == Err::<Response, ContractError>(ContractError::Overflow)
                    && *final(self) == *old(self),
            },
    {
        if !auth.has_role {
            return Err(ContractError::Unauthorized);
        }
        let found = self.find(account);
        let bal: u128 = match found {
            Some(i) => {
                proof {
                    self.lemma_index_unique(account@, i as int);
                }
                self.accounts[i].amount
            },
            None => 0,
        };
        proof {
            assert(bal == spec_balance_m(self.ledger(), account@));
        }
        let new_bal: u128 = match bal.checked_add(amount) {
            Some(b) => b,
            None => {
                return Err(ContractError::Overflow);
            },
        };
        let new_total: u128 = match self.total_juno.checked_add(amount) {
            Some(t) => t,
            None => {
                return Err(ContractError::Overflow);
            },
        };
        match found {
            Some(i) => {
                proof {
                    lemma_sum_update(
                        self.accounts@,
                        i as int,
                        SurplusEntry { account: *account, amount: new_bal },
                    );
                }
                let ghost before = *self;
                self.accounts[i] = SurplusEntry { account: account.clone(), amount: new_bal };
                self.total_juno = new_total;
                proof {
                    before.lemma_ledger_update(
                        *self,
                        i as int,
                        SurplusEntry { account: *account, amount: new_bal },
                    );
                }
            },
            None => {
                proof {
                    lemma_sum_push(
                        self.accounts@,
                        SurplusEntry { account: *account, amount: new_bal },
                    );
                }
                let ghost before = *self;
                self.accounts.push(SurplusEntry { account: account.clone(), amount: new_bal });
                self.total_juno = new_total;
                proof {
                    before.lemma_ledger_push(
                        *self,
                        SurplusEntry { account: *account, amount: new_bal },
                    );
                }
            },
        }
        let mut res = Response::new();
        res.add_attribute("action", "account_surplus".to_owned());
        res.add_attribute("account", account.clone());
        Ok(res)
    }

    /// Borrower-operations-only: pay out `account`'s whole claimable
    /// balance.  Fails with no-funds when the balance is zero; otherwise
    /// zeroes the balance, decrements the pool total by the paid amount,
    /// and emits one native-coin transfer for it.  All bookkeeping is in
    /// the returned state before the transfer instruction exists.
    pub fn execute_claim_coll(&mut self, auth: &HasAnyRoleResponse, account: &String) -> (res:
        Result<Response, ContractError>)
        requires
            old(self).wf(),
        ensures
            final(self).wf(),
            CollSurplusPool::same_admin_state(*old(self), *final(self)),
            !auth.has_role ==> res == Err::<Response, ContractError>(ContractError::Unauthorized)
                && *final(self) == *old(self),
            auth.has_role ==> match spec_claim_coll(old(self).pool_state(), account@) {
                Some((st, paid)) => res is Ok && final(self).pool_state() == st
                    && res->Ok_0.spec_messages() =~= seq![
                        (BankTransferView {
                            to_address: account@,
                            denom: NATIVE_JUNO_DENOM@,
                            amount: paid,
                        }),
                    ]
                    && res->Ok_0.spec_attributes() =~= seq![
                    ("action"@, "claim_coll"@),
                    ("account"@, account@),
                ],
                None => res == Err::<Response, ContractError>(
                    ContractError::NoCollAvailableToClaim,
                ) && *final(self) == *old(self),
            },
    {
        if !auth.has_role {
            return Err(ContractError::Unauthorized);
        }
        let found = self.find(account);
        let i = match found {
            Some(i) => i,
            None => {
                return Err(ContractError::NoCollAvailableToClaim);
            },
        };
        proof {
            self.lemma_index_unique(account@, i as int);
        }
        let bal = self.accounts[i].amount;
        if bal == 0 {
            return Err(ContractError::NoCollAvailableToClaim);
        }
        proof {
            lemma_elem_le_sum(self.accounts@, i as int);
        }
        let new_total = match self.total_juno.checked_sub(bal) {
            Some(t) => t,
            None => {
                // unreachable: conservation bounds the balance by the total
                return Err(ContractError::Underflow);
            },
        };
        proof {
            lemma_sum_update(
                self.accounts@,
                i as int,
                SurplusEntry { account: *account, amount: 0 },
            );
        }
        let ghost before = *self;
        self.accounts[i] = SurplusEntry { account: account.clone(), amount: 0 };
        self.total_juno = new_total;
        proof {
            before.lemma_ledger_update(
                *self,
                i as int,
                SurplusEntry { account: *account, amount: 0 },
            );
        }
        let mut res = Response::new();
        res.add_message(
            BankTransfer {
                to_address: account.clone(),
                denom: NATIVE_JUNO_DENOM.to_owned(),
                amount: bal,
            },
        );
        res.add_attribute("action", "claim_coll".to_owned());
        res.add_attribute("account", account.clone());
        Ok(res)
    }

    /// Entry-point dispatch over the pool's operations.  `sender` is the
    /// invoking address; `auth` is the role oracle's verdict on whether
    /// `sender` holds the role the dispatched operation requires.
    pub fn execute(&mut self, sender: &String, auth: &HasAnyRoleResponse, msg: ExecuteMsg) -> (res:
        Result<Response, ContractError>)
        requires
            old(self).wf(),
        ensures
            final(self).wf(),
            (msg matches ExecuteMsg::UpdateAdmin { .. } || msg matches ExecuteMsg::UpdateRole {
                ..
            }) ==> final(self).accounts == old(self).accounts && final(self).total_juno == old(
                self,
            ).total_juno,
            msg matches ExecuteMsg::UpdateAdmin { admin } ==> match old(self).admin {
                Some(a) => {
                    if a@ == sender@ {
                        res is Ok && final(self).admin == Some(admin)
                    } else {
                        res == Err::<Response, ContractError>(ContractError::UnauthorizedAdmin)
                            && final(self).admin == old(self).admin
                    }
                },
                None => res == Err::<Response, ContractError>(ContractError::UnauthorizedAdmin)
                    && final(self).admin == old(self).admin,
            },
            msg matches ExecuteMsg::UpdateRole { role_provider } ==> match old(self).admin {
                Some(a) => {
                    if a@ == sender@ {
                        res is Ok && final(self).role_provider == Some(role_provider)
                    } else {
                        res == Err::<Response, ContractError>(ContractError::UnauthorizedAdmin)
                            && final(self).role_provider == old(self).role_provider
                    }
                },
                None => res == Err::<Response, ContractError>(ContractError::UnauthorizedAdmin)
                    && final(self).role_provider == old(self).role_provider,
            },
            msg matches ExecuteMsg::AccountSurplus { account, amount } ==> CollSurplusPool::same_admin_state(
                *old(self),
                *final(self),
            ) && (if !auth.has_role {
                res == Err::<Response, ContractError>(ContractError::Unauthorized) && *final(self)
                    == *old(self)
            } else {
                match spec_account_surplus(old(self).pool_state(), account@, amount) {
                    Some(st) => res is Ok && final(self).pool_state() == st,
                    None => res == Err::<Response, ContractError>(ContractError::Overflow)
                        && *final(self) == *old(self),
                }
            }),
            msg matches ExecuteMsg::ClaimColl { account } ==> CollSurplusPool::same_admin_state(
                *old(self),
                *final(self),
            ) && (if !auth.has_role {
                res == Err::<Response, ContractError>(ContractError::Unauthorized) && *final(self)
                    == *old(self)
            } else {
                match spec_claim_coll(old(self).pool_state(), account@) {
                    Some((st, paid)) => res is Ok && final(self).pool_state() == st
                        && res->Ok_0.spec_messages() =~= seq![
                            (BankTransferView {
                                to_address: account@,
                                denom: NATIVE_JUNO_DENOM@,
                                amount: paid,
                            }),
                        ],
                    None => res == Err::<Response, ContractError>(
                        ContractError::NoCollAvailableToClaim,
                    ) && *final(self) == *old(self),
                }
            }),
    {
        match msg {
            ExecuteMsg::UpdateAdmin { admin } => self.execute_update_admin(sender, admin),
            ExecuteMsg::UpdateRole { role_provider } => self.execute_update_role(
                sender,
                role_provider,
            ),
            ExecuteMsg::AccountSurplus { account, amount } => self.execute_account_surplus(
                auth,
                &account,
                amount,
            ),
            ExecuteMsg::ClaimColl { account } => self.execute_claim_coll(auth, &account),
        }
    }

    /// Entry-point dispatch over the pool's read-only queries.
    pub fn query(&self, msg: &QueryMsg) -> (res: QueryAnswer)
        requires
            self.wf(),
        ensures
            msg matches QueryMsg::GetParams ==> res matches QueryAnswer::Params(p) && p.name@
                == self.params.name@ && p.owner@ == self.params.owner@,
            msg matches QueryMsg::GetJUNO ==> res == QueryAnswer::Juno(self.total_juno),
            msg matches QueryMsg::GetCollateral { account } ==> res == QueryAnswer::Collateral(
                spec_balance_m(self.ledger(), account@),
            ),
    {
        match msg {
            QueryMsg::GetParams => QueryAnswer::Params(self.query_params()),
            QueryMsg::GetJUNO => QueryAnswer::Juno(self.query_juno_state()),
            QueryMsg::GetCollateral { account } => QueryAnswer::Collateral(
                self.query_coll_of_account(account),
            ),
        }
    }
}

/// `account_surplus` followed at once by `claim_coll` for the same account
/// pays out exactly what was accrued: starting from a zero balance, the
/// intermediate balance is `amt`, the claim pays `amt`, the total returns
/// to its starting value, the balance returns to zero, and a second claim
/// with nothing accrued in between reports no funds.
pub proof fn lemma_account_surplus_then_claim(st: PoolState, a: Seq<char>, amt: u128)
    requires
        spec_balance_m(st.ledger, a) == 0,
        amt > 0,
        spec_account_surplus(st, a, amt) is Some,
    ensures
        ({
            let st1 = spec_account_surplus(st, a, amt)->Some_0;
            &&& spec_balance_m(st1.ledger, a) == amt
            &&& st1.total == st.total + amt
            &&& spec_claim_coll(st1, a) is Some
            &&& spec_claim_coll(st1, a)->Some_0.1 == amt
            &&& spec_claim_coll(st1, a)->Some_0.0.total == st.total
            &&& spec_balance_m(spec_claim_coll(st1, a)->Some_0.0.ledger, a) == 0
            &&& spec_claim_coll(spec_claim_coll(st1, a)->Some_0.0, a) is None
        }),
{
}

} // verus!
