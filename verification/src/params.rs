//! Contract-level configuration: a single record set at initialization and
//! mutated only by its owner.

use vstd::prelude::*;
use crate::error::ContractError;

verus! {

/// The administrative parameters of a contract instance.
pub struct SudoParams {
    pub name: String,
    pub owner: String,
}

impl SudoParams {
    /// The parameters as a pair of mathematical strings `(name, owner)`.
    pub open spec fn view(self) -> (Seq<char>, Seq<char>) {
        (self.name@, self.owner@)
    }

    /// Owner-only partial update: unspecified fields are left unchanged.
    /// Only the currently stored owner may call; anyone else is rejected
    /// with no change.
    pub fn update_params(
        &mut self,
        sender: &String,
        name: Option<String>,
        owner: Option<String>,
    ) -> (res: Result<(), ContractError>)
        ensures
            sender@ != old(self).owner@ ==> res == Err::<(), ContractError>(
                ContractError::UnauthorizedOwner,
            ) && *final(self) == *old(self),
            sender@ == old(self).owner@ ==> res == Ok::<(), ContractError>(())
                && final(self).name@ == (if name is Some { name->Some_0@ } else { old(self).name@ })
                && final(self).owner@ == (if owner is Some {
                    owner->Some_0@
                } else {
                    old(self).owner@
                }),
    {
        if !sender.eq(&self.owner) {
            return Err(ContractError::UnauthorizedOwner);
        }
        if let Some(n) = name {
            self.name = n;
        }
        if let Some(o) = owner {
            self.owner = o;
        }
        Ok(())
    }

    /// The owner check every owner-only entry point performs first: returns
    /// the sender exactly when the sender is the stored owner.
    pub fn only_owner(&self, sender: &String) -> (res: Result<String, ContractError>)
        ensures
            sender@ == self.owner@ ==> res is Ok && res->Ok_0@ == sender@,
            sender@ != self.owner@ ==> res == Err::<String, ContractError>(
                ContractError::UnauthorizedOwner,
            ),
    {
        if sender.eq(&self.owner) {
            Ok(sender.clone())
        } else {
            Err(ContractError::UnauthorizedOwner)
        }
    }
}

/// What a `get_params` query returns.
pub struct ParamsResponse {
    pub name: String,
    pub owner: String,
}

} // verus!
