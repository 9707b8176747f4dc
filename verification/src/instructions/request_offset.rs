//! Retiring credits of a purchase: the old receipt is burned, a new one is
//! issued for what is left, and the retirement is recorded.
//!
//! Retirement takes effect at once. The request is recorded as `Pending`
//! and stays so.

use vstd::prelude::*;
use crate::address::Address;
use crate::assets::{Authority, Intent, ReceiptDescriptor, ReceiptDescriptorView, TokenAccount};
use crate::errors::ContractError;
use crate::state::offset_request::request_id_bytes;
use crate::state::{
    CarbonCredits, OffsetRequest, OffsetRequestView, Purchase, RequestStatus, REQUEST_ID_MAX_LEN,
};
use crate::text::{base58_text, decimal_text, with_address, with_decimal};

verus! {

/// The accounts of an offset request.
#[derive(Clone, Copy, Debug, PartialEq, Eq)]
pub struct RequestOffset {
    /// Who asks for the retirement.
    pub offset_requester: Address,
    /// The address of the purchase to retire against.
    pub purchase: Address,
    /// The address presented as the purchase's project.
    pub project: Address,
    /// The token presented as the purchase's receipt.
    pub original_nft_mint: Address,
    /// The holding account in which the requester presents the receipt.
    pub original_nft_account: TokenAccount,
    /// The token that becomes the receipt for what is left.
    pub new_nft_mint: Address,
    /// The requester's holding account for the new receipt.
    pub new_nft_account: Address,
    /// Where the new receipt's descriptor is to be stored.
    pub new_nft_metadata: Address,
}

/// What an offset request gives back.
#[derive(Clone, Debug, PartialEq, Eq)]
pub struct RecordedOffset {
    /// The new record.
    pub request: OffsetRequest,
    /// The descriptor of the new receipt; none where the purchase is retired
    /// in full.
    pub descriptor: Option<ReceiptDescriptor>,
    /// The transfers to carry out, in order.
    pub intents: Vec<Intent>,
}

/// The view of a descriptor that may be absent.
pub open spec fn descriptor_view(descriptor: Option<ReceiptDescriptor>) -> Option<
    ReceiptDescriptorView,
> {
    match descriptor {
        Some(d) => Some(d@),
        None => None,
    }
}

impl RequestOffset {
    /// Whether the holding account presented holds the receipt presented,
    /// for the requester.
    pub open spec fn holds_receipt(&self) -> bool {
        self.original_nft_account.mint == self.original_nft_mint && self.original_nft_account.owner
            == self.offset_requester && self.original_nft_account.amount > 0
    }

    /// Why `amount` credits of `purchase` cannot be retired under
    /// `request_id`, if they cannot: the first check that fails.
    pub open spec fn rejection(
        &self,
        purchase: Purchase,
        ledger: CarbonCredits,
        amount: u64,
        request_id: Seq<char>,
    ) -> Option<ContractError> {
        if purchase.buyer != self.offset_requester {
            Some(ContractError::NotPurchaseOwner)
        } else if amount == 0 {
            Some(ContractError::InvalidAmount)
        } else if amount > purchase.remaining_amount {
            Some(ContractError::InsufficientRemainingTokens)
        } else if self.project != purchase.project {
            Some(ContractError::InvalidProject)
        } else if self.original_nft_mint != purchase.nft_mint {
            Some(ContractError::InvalidNFTMint)
        } else if !self.holds_receipt() {
            Some(ContractError::InvalidNFTAccount)
        } else if request_id_bytes(request_id) > REQUEST_ID_MAX_LEN {
            Some(ContractError::RequestIdTooLong)
        } else if ledger.total_credits_offset + amount > u64::MAX {
            Some(ContractError::MathOverflow)
        } else {
            None
        }
    }

    /// The purchase once `amount` of it is retired: bound to the new receipt
    /// if anything is left, else still to the old one, which is burned.
    pub open spec fn purchase_after(&self, purchase: Purchase, amount: u64) -> Purchase {
        Purchase {
            remaining_amount: (purchase.remaining_amount - amount) as u64,
            nft_mint: if purchase.remaining_amount - amount > 0 {
                self.new_nft_mint
            } else {
                purchase.nft_mint
            },
            ..purchase
        }
    }

    /// The ledger once the retirement is counted.
    pub open spec fn ledger_after(ledger: CarbonCredits, amount: u64) -> CarbonCredits {
        CarbonCredits {
            total_credits_offset: (ledger.total_credits_offset + amount) as u64,
            ..ledger
        }
    }

    /// The record of the request: pending, with nobody having processed it.
    pub open spec fn request_record(&self, amount: u64, request_id: Seq<char>, now: i64) -> OffsetRequestView {
        OffsetRequestView {
            offset_requester: self.offset_requester,
            purchase: self.purchase,
            project: self.project,
            amount,
            request_id,
            status: RequestStatus::Pending,
            request_date: now,
            processed_date: 0,
            processor: None,
        }
    }

    /// The descriptor of the receipt for `remaining` credits; none where
    /// nothing is left.
    pub open spec fn descriptor(&self, remaining: u64) -> Option<ReceiptDescriptorView> {
        if remaining > 0 {
            Some(
                ReceiptDescriptorView {
                    name: "CRBN-"@ + decimal_text(remaining as nat),
                    symbol: "CRBN"@,
                    uri: "https://carbonpay.com/id/"@ + base58_text(self.new_nft_mint@),
                    seller_fee_basis_points: 0,
                    creator: self.offset_requester,
                    creator_verified: true,
                },
            )
        } else {
            None
        }
    }

    /// The burning of the old receipt.
    pub open spec fn burn_intent(&self) -> Intent {
        Intent::Burn {
            mint: self.original_nft_mint,
            from: self.original_nft_account.key,
            authority: Authority::Caller(self.offset_requester),
            amount: 1,
        }
    }

    /// The transfers of a retirement that leaves `remaining` credits: the
    /// requester burns the old receipt and, if anything is left, mints and
    /// describes the new one.
    pub open spec fn intents(&self, remaining: u64) -> Seq<Intent> {
        if remaining > 0 {
            seq![
                self.burn_intent(),
                Intent::MintTo {
                    mint: self.new_nft_mint,
                    to: self.new_nft_account,
                    authority: Authority::Caller(self.offset_requester),
                    amount: 1,
                },
                Intent::CreateMetadata {
                    metadata: self.new_nft_metadata,
                    mint: self.new_nft_mint,
                    mint_authority: Authority::Caller(self.offset_requester),
                    payer: self.offset_requester,
                    update_authority: Authority::Caller(self.offset_requester),
                },
            ]
        } else {
            seq![self.burn_intent()]
        }
    }

    /// Whether the holding account presented holds the receipt presented,
    /// for the requester.
    fn check_receipt_account(&self) -> (r: bool)
        ensures
            r == self.holds_receipt(),
    {
        self.original_nft_account.mint == self.original_nft_mint && self.original_nft_account.owner
            == self.offset_requester && self.original_nft_account.amount > 0
    }

    /// Retires `amount` credits of `purchase` at time `now`, under the
    /// requester's identifier `request_id`.
    ///
    /// The checks, in order: the requester is the buyer
    /// (`NotPurchaseOwner`); the amount is not 0 (`InvalidAmount`) and not
    /// more than is left (`InsufficientRemainingTokens`); the project
    /// presented is the purchase's (`InvalidProject`); the receipt presented
    /// is the one bound to the purchase (`InvalidNFTMint`) and the requester
    /// holds it (`InvalidNFTAccount`); the identifier takes at most 64 bytes
    /// (`RequestIdTooLong`); the ledger's total fits in 64 bits
    /// (`MathOverflow`). On failure the purchase and the ledger are
    /// unchanged.
    pub fn handler(
        &self,
        purchase: &mut Purchase,
        carbon_credits: &mut CarbonCredits,
        amount: u64,
        request_id: String,
        now: i64,
    ) -> (r: Result<RecordedOffset, ContractError>)
        ensures
            match self.rejection(*old(purchase), *old(carbon_credits), amount, request_id@) {
                Some(e) => r matches Err(x) && x == e && *final(purchase) == *old(purchase)
                    && *final(carbon_credits) == *old(carbon_credits),
                None => r matches Ok(out) && *final(purchase) == self.purchase_after(
                    *old(purchase),
                    amount,
                ) && *final(carbon_credits) == Self::ledger_after(*old(carbon_credits), amount)
                    && out.request@ == self.request_record(amount, request_id@, now)
                    && descriptor_view(out.descriptor) == self.descriptor(
                    final(purchase).remaining_amount,
                ) && out.intents@ == self.intents(final(purchase).remaining_amount),
            },
    {
        if purchase.buyer != self.offset_requester {
            return Err(ContractError::NotPurchaseOwner);
        }
        if amount == 0 {
            return Err(ContractError::InvalidAmount);
        }
        if amount > purchase.remaining_amount {
            return Err(ContractError::InsufficientRemainingTokens);
        }
        if self.project != purchase.project {
            return Err(ContractError::InvalidProject);
        }
        if self.original_nft_mint != purchase.nft_mint {
            return Err(ContractError::InvalidNFTMint);
        }
        if !self.check_receipt_account() {
            return Err(ContractError::InvalidNFTAccount);
        }
        if request_id.as_str().as_bytes().len() > REQUEST_ID_MAX_LEN {
            return Err(ContractError::RequestIdTooLong);
        }
        let remaining: u64 = match purchase.remaining_amount.checked_sub(amount) {
            Some(left) => left,
            None => {
                return Err(ContractError::MathOverflow);
            },
        };
        match carbon_credits.record_offset(amount) {
            Ok(()) => {},
            Err(code) => {
                return Err(ContractError::from_ledger(code));
            },
        }
        let mut intents: Vec<Intent> = Vec::new();
        intents.push(
            Intent::Burn {
                mint: self.original_nft_mint,
                from: self.original_nft_account.key,
                authority: Authority::Caller(self.offset_requester),
                amount: 1,
            },
        );
        let mut descriptor: Option<ReceiptDescriptor> = None;
        if remaining > 0 {
            intents.push(
                Intent::MintTo {
                    mint: self.new_nft_mint,
                    to: self.new_nft_account,
                    authority: Authority::Caller(self.offset_requester),
                    amount: 1,
                },
            );
            intents.push(
                Intent::CreateMetadata {
                    metadata: self.new_nft_metadata,
                    mint: self.new_nft_mint,
                    mint_authority: Authority::Caller(self.offset_requester),
                    payer: self.offset_requester,
                    update_authority: Authority::Caller(self.offset_requester),
                },
            );
            descriptor =
            Some(
                ReceiptDescriptor {
                    name: with_decimal("CRBN-", remaining),
                    symbol: String::from_str("CRBN"),
                    uri: with_address("https://carbonpay.com/id/", &self.new_nft_mint),
                    seller_fee_basis_points: 0,
                    creator: self.offset_requester,
                    creator_verified: true,
                },
            );
            purchase.nft_mint = self.new_nft_mint;
        }
        purchase.remaining_amount = remaining;
        let request = OffsetRequest {
            offset_requester: self.offset_requester,
            purchase: self.purchase,
            project: self.project,
            amount,
            request_id,
            status: RequestStatus::Pending,
            request_date: now,
            processed_date: 0,
            processor: None,
        };
        Ok(RecordedOffset { request, descriptor, intents })
    }
}

} // verus!
