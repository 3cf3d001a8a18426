//! Error taxonomy shared by every operation of the protocol core.

use vstd::prelude::*;

verus! {

/// Every way an invocation can abort.  All errors roll the invocation back;
/// none is retried internally.
#[derive(Clone, Copy, Debug, PartialEq, Eq, Structural)]
pub enum ContractError {
    /// The caller holds none of the roles the operation requires.
    Unauthorized,
    /// The caller is not the designated administrative owner.
    UnauthorizedOwner,
    /// The caller is not the stored admin of the contract.
    UnauthorizedAdmin,
    /// A referenced Trove record is absent where presence was required.
    TroveNotFound,
    /// A decrease was requested on a Trove that is not Active.
    TroveNotActive,
    /// An addition or multiplication would exceed the integer range.
    Overflow,
    /// A subtraction would drive an unsigned field negative.
    Underflow,
    /// A surplus claim was made while the account's balance is zero.
    NoCollAvailableToClaim,
    /// A liquidation was requested on a position above the minimum ratio.
    IcrAboveMcr,
}

impl ContractError {
    /// A stable, human-readable code for the error, for callers that
    /// surface it outside the library.
    pub fn code(&self) -> (r: &'static str)
        ensures
            r@ == self.spec_code(),
    {
        match self {
            ContractError::Unauthorized => "unauthorized",
            ContractError::UnauthorizedOwner => "unauthorized_owner",
            ContractError::UnauthorizedAdmin => "unauthorized_admin",
            ContractError::TroveNotFound => "trove_not_found",
            ContractError::TroveNotActive => "trove_not_active",
            ContractError::Overflow => "overflow",
            ContractError::Underflow => "underflow",
            ContractError::NoCollAvailableToClaim => "no_coll_available_to_claim",
            ContractError::IcrAboveMcr => "icr_above_mcr",
        }
    }

    /// What `code` returns, as a mathematical value.
    pub open spec fn spec_code(self) -> Seq<char> {
        match self {
            ContractError::Unauthorized => "unauthorized"@,
            ContractError::UnauthorizedOwner => "unauthorized_owner"@,
            ContractError::UnauthorizedAdmin => "unauthorized_admin"@,
            ContractError::TroveNotFound => "trove_not_found"@,
            ContractError::TroveNotActive => "trove_not_active"@,
            ContractError::Overflow => "overflow"@,
            ContractError::Underflow => "underflow"@,
            ContractError::NoCollAvailableToClaim => "no_coll_available_to_claim"@,
            ContractError::IcrAboveMcr => "icr_above_mcr"@,
        }
    }
}

} // verus!
