//! Creating a project: registering its supply with the ledger and handing
//! its minting rights to the ledger's capability.

use vstd::prelude::*;
use crate::address::Address;
use crate::assets::{Authority, Intent, ReceiptDescriptor, ReceiptDescriptorView};
use crate::errors::ContractError;
use crate::state::{CarbonCredits, Project};

verus! {

/// The accounts of a project's creation.
#[derive(Clone, Copy, Debug, PartialEq, Eq)]
pub struct InitializeProjectAccountConstraints {
    /// Who creates the project.
    pub project_owner: Address,
    /// Where the project's record is to be stored.
    pub project: Address,
    /// The asset that will stand for the project's credits. The owner holds
    /// its minting rights until the project is created.
    pub mint: Address,
    /// The holding account that receives the provenance token and the whole
    /// supply.
    pub vault: Address,
    /// Where the provenance token's descriptor is to be stored.
    pub metadata: Address,
    /// The account that makes the provenance token unique.
    pub master_edition: Address,
}

/// What a project's creation gives back.
#[derive(Clone, Debug, PartialEq, Eq)]
pub struct InitializedProject {
    /// The new record.
    pub project: Project,
    /// The descriptor of the provenance token.
    pub descriptor: ReceiptDescriptor,
    /// The transfers to carry out, in order.
    pub intents: Vec<Intent>,
}

impl InitializeProjectAccountConstraints {
    /// Why a project with this supply cannot be created under `ledger`, if
    /// it cannot.
    pub open spec fn rejection(ledger: CarbonCredits, total_supply: u64) -> Option<ContractError> {
        if total_supply == 0 {
            Some(ContractError::InvalidAmount)
        } else if ledger.total_credits_issued + total_supply > u64::MAX {
            Some(ContractError::MathOverflow)
        } else {
            None
        }
    }

    /// The record of the new project: active, with nothing sold.
    pub open spec fn project_record(
        &self,
        ledger: CarbonCredits,
        total_supply: u64,
        price_per_unit: u64,
        fee_rate_bps: u16,
    ) -> Project {
        Project {
            owner: self.project_owner,
            mint: self.mint,
            is_active: true,
            total_supply,
            remaining_supply: total_supply,
            price_per_unit,
            fee_rate_bps,
            issuing_authority: ledger.key(),
        }
    }

    /// The ledger once the supply is registered.
    pub open spec fn ledger_after(ledger: CarbonCredits, total_supply: u64) -> CarbonCredits {
        CarbonCredits {
            total_credits_issued: (ledger.total_credits_issued + total_supply) as u64,
            ..ledger
        }
    }

    /// The descriptor of the provenance token: the caller's texts, the
    /// project's fee rate as royalty, and the ledger as unsigned creator.
    pub open spec fn descriptor(
        ledger: CarbonCredits,
        fee_rate_bps: u16,
        uri: Seq<char>,
        name: Seq<char>,
        symbol: Seq<char>,
    ) -> ReceiptDescriptorView {
        ReceiptDescriptorView {
            name,
            symbol,
            uri,
            seller_fee_basis_points: fee_rate_bps,
            creator: ledger.key(),
            creator_verified: false,
        }
    }

    /// The transfers of a project's creation: the owner mints the one
    /// provenance token and gives up the minting rights to the ledger's
    /// capability; the capability then describes the token, makes it unique
    /// and mints the whole supply into the vault.
    pub open spec fn intents(&self, ledger: CarbonCredits, total_supply: u64) -> Seq<Intent> {
        seq![
            Intent::MintTo {
                mint: self.mint,
                to: self.vault,
                authority: Authority::Caller(self.project_owner),
                amount: 1,
            },
            Intent::SetMintAuthority {
                mint: self.mint,
                current_authority: Authority::Caller(self.project_owner),
                new_authority: ledger.key(),
            },
            Intent::CreateMetadata {
                metadata: self.metadata,
                mint: self.mint,
                mint_authority: Authority::Capability(ledger.key()),
                payer: self.project_owner,
                update_authority: Authority::Capability(ledger.key()),
            },
            Intent::CreateMasterEdition {
                edition: self.master_edition,
                mint: self.mint,
                update_authority: Authority::Capability(ledger.key()),
                mint_authority: Authority::Capability(ledger.key()),
                metadata: self.metadata,
                payer: self.project_owner,
                max_supply: Some(0u64),
            },
            Intent::MintTo {
                mint: self.mint,
                to: self.vault,
                authority: Authority::Capability(ledger.key()),
                amount: total_supply,
            },
        ]
    }

    /// Creates a project of `total_supply` credits and registers the supply
    /// with the ledger.
    ///
    /// Fails with `InvalidAmount` if the supply is 0, else with
    /// `MathOverflow` if the ledger's total would not fit in 64 bits. On
    /// failure the ledger is unchanged.
    pub fn initialize_project_handler(
        &self,
        carbon_credits: &mut CarbonCredits,
        total_supply: u64,
        price_per_unit: u64,
        fee_rate_bps: u16,
        uri: String,
        name: String,
        symbol: String,
    ) -> (r: Result<InitializedProject, ContractError>)
        ensures
            match Self::rejection(*old(carbon_credits), total_supply) {
                Some(e) => r matches Err(x) && x == e && *final(carbon_credits) == *old(
                    carbon_credits,
                ),
                None => r matches Ok(out) && *final(carbon_credits) == Self::ledger_after(
                    *old(carbon_credits),
                    total_supply,
                ) && out.project == self.project_record(
                    *old(carbon_credits),
                    total_supply,
                    price_per_unit,
                    fee_rate_bps,
                ) && out.descriptor@ == Self::descriptor(
                    *old(carbon_credits),
                    fee_rate_bps,
                    uri@,
                    name@,
                    symbol@,
                ) && out.intents@ == self.intents(*old(carbon_credits), total_supply),
            },
    {
        if total_supply == 0 {
            return Err(ContractError::InvalidAmount);
        }
        let authority: Address = carbon_credits.key();
        match carbon_credits.add_project_credits(total_supply) {
            Ok(()) => {},
            Err(code) => {
                return Err(ContractError::from_ledger(code));
            },
        }
        let project = Project {
            owner: self.project_owner,
            mint: self.mint,
            is_active: true,
            total_supply,
            remaining_supply: total_supply,
            price_per_unit,
            fee_rate_bps,
            issuing_authority: authority,
        };
        let descriptor = ReceiptDescriptor {
            name,
            symbol,
            uri,
            seller_fee_basis_points: fee_rate_bps,
            creator: authority,
            creator_verified: false,
        };
        let mut intents: Vec<Intent> = Vec::new();
        intents.push(
            Intent::MintTo {
                mint: self.mint,
                to: self.vault,
                authority: Authority::Caller(self.project_owner),
                amount: 1,
            },
        );
        intents.push(
            Intent::SetMintAuthority {
                mint: self.mint,
                current_authority: Authority::Caller(self.project_owner),
                new_authority: authority,
            },
        );
        intents.push(
            Intent::CreateMetadata {
                metadata: self.metadata,
                mint: self.mint,
                mint_authority: Authority::Capability(authority),
                payer: self.project_owner,
                update_authority: Authority::Capability(authority),
            },
        );
        intents.push(
            Intent::CreateMasterEdition {
                edition: self.master_edition,
                mint: self.mint,
                update_authority: Authority::Capability(authority),
                mint_authority: Authority::Capability(authority),
                metadata: self.metadata,
                payer: self.project_owner,
                max_supply: Some(0),
            },
        );
        intents.push(
            Intent::MintTo {
                mint: self.mint,
                to: self.vault,
                authority: Authority::Capability(authority),
                amount: total_supply,
            },
        );
        Ok(InitializedProject { project, descriptor, intents })
    }
}

} // verus!
