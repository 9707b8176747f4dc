//! What the library knows of the asset-transfer service: the accounts that a
//! caller presents, and the transfers that an operation asks for.
//!
//! The library moves no assets. An operation that succeeds returns its
//! intents in the order in which they are to be carried out; the caller
//! carries out all of them, or drops the operation as a whole.

use vstd::prelude::*;
use crate::address::Address;

verus! {

/// The number of decimals that the payment asset must have.
pub const PAYMENT_DECIMALS: u8 = 6;

/// An asset as presented by a caller.
#[derive(Clone, Copy, Debug, PartialEq, Eq)]
pub struct Mint {
    /// The address of the asset.
    pub key: Address,
    /// The number of decimals in which amounts of it are stated.
    pub decimals: u8,
}

/// A holding account as presented by a caller.
#[derive(Clone, Copy, Debug, PartialEq, Eq)]
pub struct TokenAccount {
    /// The address of the holding account.
    pub key: Address,
    /// The asset that it holds.
    pub mint: Address,
    /// Who may move what it holds.
    pub owner: Address,
    /// How much it holds.
    pub amount: u64,
}

/// Who authorizes a transfer.
#[derive(Clone, Copy, Debug, PartialEq, Eq)]
pub enum Authority {
    /// A caller who signed the operation.
    Caller(Address),
    /// The ledger's capability, at the ledger's address. The transfer
    /// service signs for it with the capability's signer seeds.
    Capability(Address),
}

/// One request to the asset-transfer service.
#[derive(Clone, Copy, Debug, PartialEq, Eq)]
pub enum Intent {
    /// Create `amount` units of `mint` in the holding account `to`.
    MintTo { mint: Address, to: Address, authority: Authority, amount: u64 },
    /// Move `amount` units from one holding account to another.
    Transfer { from: Address, to: Address, authority: Authority, amount: u64 },
    /// Move `amount` units of `mint`, which has `decimals` decimals, from one
    /// holding account to another.
    TransferChecked {
        from: Address,
        mint: Address,
        to: Address,
        authority: Authority,
        amount: u64,
        decimals: u8,
    },
    /// Destroy `amount` units of `mint` held in `from`.
    Burn { mint: Address, from: Address, authority: Authority, amount: u64 },
    /// Hand the right to mint `mint` over to `new_authority`, for good.
    SetMintAuthority { mint: Address, current_authority: Authority, new_authority: Address },
    /// Store the operation's receipt descriptor in the account `metadata`,
    /// for the token `mint`.
    CreateMetadata {
        metadata: Address,
        mint: Address,
        mint_authority: Authority,
        payer: Address,
        update_authority: Authority,
    },
    /// Make the token `mint` unique: no more than `max_supply` further
    /// copies of it can be made.
    CreateMasterEdition {
        edition: Address,
        mint: Address,
        update_authority: Authority,
        mint_authority: Authority,
        metadata: Address,
        payer: Address,
        max_supply: Option<u64>,
    },
}

/// The description stored with a receipt token. The library composes it and
/// never reads it back.
#[derive(Clone, Debug, PartialEq, Eq)]
pub struct ReceiptDescriptor {
    pub name: String,
    pub symbol: String,
    pub uri: String,
    /// The royalty on resale, in basis points.
    pub seller_fee_basis_points: u16,
    /// The one creator named, who holds the whole share.
    pub creator: Address,
    /// Whether the creator has signed.
    pub creator_verified: bool,
}

/// A receipt descriptor as contracts speak of it.
pub struct ReceiptDescriptorView {
    pub name: Seq<char>,
    pub symbol: Seq<char>,
    pub uri: Seq<char>,
    pub seller_fee_basis_points: u16,
    pub creator: Address,
    pub creator_verified: bool,
}

impl View for ReceiptDescriptor {
    type V = ReceiptDescriptorView;

    open spec fn view(&self) -> ReceiptDescriptorView {
        ReceiptDescriptorView {
            name: self.name@,
            symbol: self.symbol@,
            uri: self.uri@,
            seller_fee_basis_points: self.seller_fee_basis_points,
            creator: self.creator,
            creator_verified: self.creator_verified,
        }
    }
}

} // verus!
