//! Buying credits from a project: the payment and its split, the receipt,
//! and the draw on the project's supply.

use vstd::prelude::*;
use crate::address::Address;
use crate::assets::{
    Authority, Intent, Mint, ReceiptDescriptor, ReceiptDescriptorView, PAYMENT_DECIMALS,
};
use crate::errors::ContractError;
use crate::pricing::{quote, quote_for, Quote};
use crate::state::{CarbonCredits, Project, Purchase};
use crate::text::{base58_text, decimal_text, with_address, with_decimal};

verus! {

/// The accounts of a purchase.
#[derive(Clone, Copy, Debug, PartialEq, Eq)]
pub struct PurchaseCarbonCredits {
    /// Who buys, and pays.
    pub buyer: Address,
    /// The address of the project bought from.
    pub project: Address,
    /// The account presented as the project's owner, who is paid.
    pub project_owner: Address,
    /// The project's vault, from which the credits come.
    pub project_token_account: Address,
    /// The token that will be the buyer's receipt.
    pub purchase_nft_mint: Address,
    /// The buyer's holding account for the receipt.
    pub buyer_nft_account: Address,
    /// The buyer's holding account for the credits.
    pub buyer_token_account: Address,
    /// Where the purchase's record is to be stored.
    pub purchase: Address,
    /// The asset presented in payment.
    pub usdc_mint: Mint,
    /// The buyer's holding account for the payment asset.
    pub buyer_usdc_account: Address,
    /// The owner's holding account for the payment asset.
    pub project_owner_usdc_account: Address,
    /// The holding account presented as the platform's fee vault.
    pub platform_usdc_vault: Address,
    /// Where the receipt's descriptor is to be stored.
    pub purchase_metadata: Address,
}

/// What a purchase gives back.
#[derive(Clone, Debug, PartialEq, Eq)]
pub struct CompletedPurchase {
    /// The new record.
    pub purchase: Purchase,
    /// What was paid, and to whom.
    pub quote: Quote,
    /// The descriptor of the receipt.
    pub descriptor: ReceiptDescriptor,
    /// The transfers to carry out, in order.
    pub intents: Vec<Intent>,
}

impl PurchaseCarbonCredits {
    /// Whether the payment asset and the fee vault presented are the ones
    /// that the ledger was set up with.
    pub open spec fn pays_as_agreed(&self, ledger: CarbonCredits) -> bool {
        self.usdc_mint.key == ledger.payment_mint && self.usdc_mint.decimals == PAYMENT_DECIMALS
            && self.platform_usdc_vault == ledger.fee_vault
    }

    /// Why `amount` credits cannot be bought from `project`, if they cannot:
    /// the first check that fails.
    pub open spec fn rejection(&self, project: Project, ledger: CarbonCredits, amount: u64) -> Option<
        ContractError,
    > {
        if self.project_owner != project.owner {
            Some(ContractError::InvalidProjectOwner)
        } else if ledger.key() != project.issuing_authority {
            Some(ContractError::InvalidPlatformAuthority)
        } else if !project.is_active {
            Some(ContractError::ProjectInactive)
        } else if amount == 0 {
            Some(ContractError::InvalidAmount)
        } else if amount > project.remaining_supply {
            Some(ContractError::InsufficientTokens)
        } else if !self.pays_as_agreed(ledger) {
            Some(ContractError::InvalidPaymentAssetDescriptor)
        } else if quote_for(amount, project.price_per_unit, project.fee_rate_bps).is_none() {
            Some(ContractError::MathOverflow)
        } else {
            None
        }
    }

    /// The project once `amount` credits are sold.
    pub open spec fn project_after(project: Project, amount: u64) -> Project {
        Project { remaining_supply: (project.remaining_supply - amount) as u64, ..project }
    }

    /// The record of the purchase: nothing of it retired, bound to the new
    /// receipt.
    pub open spec fn purchase_record(&self, amount: u64, now: i64) -> Purchase {
        Purchase {
            buyer: self.buyer,
            project: self.project,
            amount,
            remaining_amount: amount,
            nft_mint: self.purchase_nft_mint,
            purchase_date: now,
        }
    }

    /// The descriptor of the receipt: it names the amount bought and points
    /// to the receipt's page; the buyer is its signed creator.
    pub open spec fn descriptor(&self, amount: u64) -> ReceiptDescriptorView {
        ReceiptDescriptorView {
            name: "Carbon Credits Purchase - "@ + decimal_text(amount as nat),
            symbol: "CRBN"@,
            uri: "https://carbonpay.com/purchases/"@ + base58_text(self.purchase_nft_mint@),
            seller_fee_basis_points: 0,
            creator: self.buyer,
            creator_verified: true,
        }
    }

    /// The transfers of a purchase: the buyer pays the owner and the fee
    /// vault, mints and describes the receipt; the ledger's capability moves
    /// the credits from the project's vault to the buyer.
    pub open spec fn intents(&self, ledger: CarbonCredits, amount: u64, paid: Quote) -> Seq<Intent> {
        seq![
            Intent::TransferChecked {
                from: self.buyer_usdc_account,
                mint: self.usdc_mint.key,
                to: self.project_owner_usdc_account,
                authority: Authority::Caller(self.buyer),
                amount: paid.to_owner,
                decimals: self.usdc_mint.decimals,
            },
            Intent::TransferChecked {
                from: self.buyer_usdc_account,
                mint: self.usdc_mint.key,
                to: self.platform_usdc_vault,
                authority: Authority::Caller(self.buyer),
                amount: paid.fee,
                decimals: self.usdc_mint.decimals,
            },
            Intent::MintTo {
                mint: self.purchase_nft_mint,
                to: self.buyer_nft_account,
                authority: Authority::Caller(self.buyer),
                amount: 1,
            },
            Intent::CreateMetadata {
                metadata: self.purchase_metadata,
                mint: self.purchase_nft_mint,
                mint_authority: Authority::Caller(self.buyer),
                payer: self.buyer,
                update_authority: Authority::Caller(self.buyer),
            },
            Intent::Transfer {
                from: self.project_token_account,
                to: self.buyer_token_account,
                authority: Authority::Capability(ledger.key()),
                amount,
            },
        ]
    }

    /// Whether the accounts presented pass the checks on the payment asset.
    fn check_payment(&self, carbon_credits: &CarbonCredits) -> (r: bool)
        ensures
            r == self.pays_as_agreed(*carbon_credits),
    {
        self.usdc_mint.key == carbon_credits.payment_mint && self.usdc_mint.decimals
            == PAYMENT_DECIMALS
            && self.platform_usdc_vault == carbon_credits.fee_vault
    }

    /// Sells `amount` credits of `project` to the buyer at time `now`.
    ///
    /// The checks, in order: the owner presented is the project's
    /// (`InvalidProjectOwner`); the ledger is the one that issued the
    /// project's credits (`InvalidPlatformAuthority`); the project is active
    /// (`ProjectInactive`); the amount is not 0 (`InvalidAmount`) and not
    /// more than is left (`InsufficientTokens`); the payment asset and fee
    /// vault are the ledger's (`InvalidPaymentAssetDescriptor`); the price
    /// can be computed (`MathOverflow`). On failure the project is
    /// unchanged.
    pub fn purchase_carbon_credits(
        &self,
        project: &mut Project,
        carbon_credits: &CarbonCredits,
        amount: u64,
        now: i64,
    ) -> (r: Result<CompletedPurchase, ContractError>)
        ensures
            match self.rejection(*old(project), *carbon_credits, amount) {
                Some(e) => r matches Err(x) && x == e && *final(project) == *old(project),
                None => r matches Ok(out) && *final(project) == Self::project_after(
                    *old(project),
                    amount,
                ) && out.purchase == self.purchase_record(amount, now) && Some(out.quote)
                    == quote_for(amount, old(project).price_per_unit, old(project).fee_rate_bps)
                    && out.descriptor@ == self.descriptor(amount) && out.intents@ == self.intents(
                    *carbon_credits,
                    amount,
                    out.quote,
                ),
            },
    {
        if self.project_owner != project.owner {
            return Err(ContractError::InvalidProjectOwner);
        }
        let authority: Address = carbon_credits.key();
        if authority != project.issuing_authority {
            return Err(ContractError::InvalidPlatformAuthority);
        }
        if !project.is_active {
            return Err(ContractError::ProjectInactive);
        }
        if amount == 0 {
            return Err(ContractError::InvalidAmount);
        }
        if amount > project.remaining_supply {
            return Err(ContractError::InsufficientTokens);
        }
        if !self.check_payment(carbon_credits) {
            return Err(ContractError::InvalidPaymentAssetDescriptor);
        }
        let paid: Quote = match quote(amount, project.price_per_unit, project.fee_rate_bps) {
            Ok(q) => q,
            Err(e) => {
                return Err(e);
            },
        };
        let remaining: u64 = match project.remaining_supply.checked_sub(amount) {
            Some(left) => left,
            None => {
                return Err(ContractError::MathOverflow);
            },
        };
        let descriptor = ReceiptDescriptor {
            name: with_decimal("Carbon Credits Purchase - ", amount),
            symbol: String::from_str("CRBN"),
            uri: with_address("https://carbonpay.com/purchases/", &self.purchase_nft_mint),
            seller_fee_basis_points: 0,
            creator: self.buyer,
            creator_verified: true,
        };
        let mut intents: Vec<Intent> = Vec::new();
        intents.push(
            Intent::TransferChecked {
                from: self.buyer_usdc_account,
                mint: self.usdc_mint.key,
                to: self.project_owner_usdc_account,
                authority: Authority::Caller(self.buyer),
                amount: paid.to_owner,
                decimals: self.usdc_mint.decimals,
            },
        );
        intents.push(
            Intent::TransferChecked {
                from: self.buyer_usdc_account,
                mint: self.usdc_mint.key,
                to: self.platform_usdc_vault,
                authority: Authority::Caller(self.buyer),
                amount: paid.fee,
                decimals: self.usdc_mint.decimals,
            },
        );
        intents.push(
            Intent::MintTo {
                mint: self.purchase_nft_mint,
                to: self.buyer_nft_account,
                authority: Authority::Caller(self.buyer),
                amount: 1,
            },
        );
        intents.push(
            Intent::CreateMetadata {
                metadata: self.purchase_metadata,
                mint: self.purchase_nft_mint,
                mint_authority: Authority::Caller(self.buyer),
                payer: self.buyer,
                update_authority: Authority::Caller(self.buyer),
            },
        );
        intents.push(
            Intent::Transfer {
                from: self.project_token_account,
                to: self.buyer_token_account,
                authority: Authority::Capability(authority),
                amount,
            },
        );
        let purchase = Purchase {
            buyer: self.buyer,
            project: self.project,
            amount,
            remaining_amount: amount,
            nft_mint: self.purchase_nft_mint,
            purchase_date: now,
        };
        project.remaining_supply = remaining;
        Ok(CompletedPurchase { purchase, quote: paid, descriptor, intents })
    }
}

} // verus!
