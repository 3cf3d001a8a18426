//! The borrower-operations view of a position being assembled: the scratch
//! record the open/adjust flow fills before the trove manager persists the
//! final Trove.  Ratios are fixed-point integers — `icr` is scaled by
//! `DECIMAL_PRECISION`, `nicr` by `NICR_PRECISION` — so the record carries
//! plain values only.

use vstd::prelude::*;

verus! {

/// A position under assembly: the oracle price it was computed at, the
/// borrowing fee, the net and composite debt, both collateralization
/// ratios, and the index assigned in the owners array.
pub struct Trove {
    pub price: u128,
    pub ultra_fee: u128,
    pub net_debt: u128,
    pub composite_debt: u128,
    pub icr: u128,
    pub nicr: u128,
    pub array_index: u128,
}

} // verus!
