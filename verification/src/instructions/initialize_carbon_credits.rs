//! Setting up the global ledger.

use vstd::prelude::*;
use crate::address::Address;
use crate::assets::{Mint, PAYMENT_DECIMALS};
use crate::errors::ContractError;
use crate::state::{Capability, CarbonCredits};

verus! {

/// The accounts of the ledger's initialization.
#[derive(Clone, Copy, Debug, PartialEq, Eq)]
pub struct InitializeCarbonCreditsAccountConstraints {
    /// The administrator who sets the ledger up.
    pub admin: Address,
    /// The asset in which purchases will be paid. It must have six decimals.
    pub usdc_mint: Mint,
    /// The holding account that will collect the platform's fees.
    pub usdc_vault: Address,
    /// The ledger's own address: the one its capability signs for.
    pub carbon_credits: Address,
}

impl InitializeCarbonCreditsAccountConstraints {
    /// Why a ledger cannot be set up on these accounts, if it cannot.
    pub open spec fn rejection(&self) -> Option<ContractError> {
        if self.usdc_mint.decimals != PAYMENT_DECIMALS {
            Some(ContractError::InvalidPaymentAssetDescriptor)
        } else {
            None
        }
    }

    /// The new ledger: nothing issued, nothing retired, with a capability
    /// for the ledger's address derived with the seed `bump`.
    pub open spec fn ledger(&self, bump: u8) -> CarbonCredits {
        CarbonCredits {
            admin: self.admin,
            payment_mint: self.usdc_mint.key,
            fee_vault: self.usdc_vault,
            total_credits_issued: 0,
            total_credits_offset: 0,
            capability: Capability::spec_new(self.carbon_credits, bump),
        }
    }

    /// Sets up the ledger, with both totals at zero and a capability for
    /// the ledger's address derived with the seed `bump`.
    ///
    /// Fails with `InvalidPaymentAssetDescriptor` if the payment asset does
    /// not have six decimals.
    pub fn initialize_carbon_credits_handler(&self, bump: u8) -> (r: Result<
        CarbonCredits,
        ContractError,
    >)
        ensures
            match self.rejection() {
                Some(e) => r == Err::<CarbonCredits, ContractError>(e),
                None => r == Ok::<CarbonCredits, ContractError>(self.ledger(bump)),
            },
    {
        if self.usdc_mint.decimals != PAYMENT_DECIMALS {
            return Err(ContractError::InvalidPaymentAssetDescriptor);
        }
        let capability = Capability::new(self.carbon_credits, bump);
        Ok(CarbonCredits::initialize(self.admin, self.usdc_mint.key, self.usdc_vault, capability))
    }
}

} // verus!
