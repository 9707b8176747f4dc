//! A purchase: a buyer's claim on credits of one project.

use vstd::prelude::*;
use crate::address::Address;

verus! {

/// What a buyer acquired from a project, and how much of it is not yet
/// retired.
#[derive(Clone, Copy, Debug, PartialEq, Eq)]
pub struct Purchase {
    /// Who bought.
    pub buyer: Address,
    /// The address of the project bought from.
    pub project: Address,
    /// The credits acquired. Never changes.
    pub amount: u64,
    /// The credits not yet retired.
    pub remaining_amount: u64,
    /// The receipt token currently bound to this purchase.
    pub nft_mint: Address,
    /// When the purchase was made.
    pub purchase_date: i64,
}

impl Purchase {
    /// No more is left than was acquired.
    pub open spec fn wf(&self) -> bool {
        self.remaining_amount <= self.amount
    }

    /// The credits retired so far.
    pub open spec fn retired(&self) -> nat {
        (self.amount - self.remaining_amount) as nat
    }
}

} // verus!
