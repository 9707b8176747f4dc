//! A project: a pool of credits registered by one owner.

use vstd::prelude::*;
use crate::address::Address;

verus! {

/// A carbon-offset project and what is left of its credits.
#[derive(Clone, Copy, Debug, PartialEq, Eq)]
pub struct Project {
    /// Who registered the project and is paid for its credits.
    pub owner: Address,
    /// The asset that stands for the project's credits.
    pub mint: Address,
    /// Whether credits can be bought. Set at creation.
    pub is_active: bool,
    /// The credits issued at creation.
    pub total_supply: u64,
    /// The credits not yet sold.
    pub remaining_supply: u64,
    /// The price of one credit, in the smallest unit of the payment asset.
    pub price_per_unit: u64,
    /// The platform's share of each payment, in basis points.
    pub fee_rate_bps: u16,
    /// The address of the ledger whose capability holds the project's vault
    /// and the right to mint its asset.
    pub issuing_authority: Address,
}

impl Project {
    /// No more is left than was issued.
    pub open spec fn wf(&self) -> bool {
        self.remaining_supply <= self.total_supply
    }

    /// The credits sold so far.
    pub open spec fn sold(&self) -> nat {
        (self.total_supply - self.remaining_supply) as nat
    }
}

} // verus!
