//! The global ledger: the platform-wide totals of credits issued and
//! retired, and the capability under which the platform holds project
//! vaults and minting rights.

use vstd::prelude::*;
use vstd::string::StringSliceAdditionalSpecFns;
use vstd::string::StrSliceExecFns;
use crate::address::Address;
use crate::errors::ErrorCode;

verus! {

/// A signing identity with no private key: an address derived from the
/// ledger's namespace and a seed. Only this module reads the seed; others
/// learn the address and, for the transfer service, the signer seeds.
#[derive(Clone, Copy, Debug, PartialEq, Eq)]
pub struct Capability {
    address: Address,
    seed: u8,
}

impl Capability {
    /// The address that this capability signs for.
    pub closed spec fn spec_address(&self) -> Address {
        self.address
    }

    /// The seed that the address was derived with.
    pub closed spec fn spec_seed(&self) -> u8 {
        self.seed
    }

    /// The capability for `address`, derived with `seed`.
    pub closed spec fn spec_new(address: Address, seed: u8) -> Capability {
        Capability { address, seed }
    }

    /// The capability for `address`, derived with `seed`.
    #[verifier::when_used_as_spec(spec_new)]
    pub fn new(address: Address, seed: u8) -> (r: Capability)
        ensures
            r == Capability::spec_new(address, seed),
            r.spec_address() == address,
            r.spec_seed() == seed,
    {
        Capability { address, seed }
    }

    /// A capability is the one made of its address and its seed.
    pub proof fn lemma_new(address: Address, seed: u8)
        ensures
            Capability::spec_new(address, seed).spec_address() == address,
            Capability::spec_new(address, seed).spec_seed() == seed,
    {
    }

    /// The address that this capability signs for.
    #[verifier::when_used_as_spec(spec_address)]
    pub fn address(&self) -> (r: Address)
        ensures
            r == self.spec_address(),
    {
        self.address
    }

    /// The seeds with which the transfer service signs for this capability:
    /// the ledger's namespace, then the one seed byte.
    pub fn signer_seeds(&self) -> (r: Vec<Vec<u8>>)
        ensures
            r@.len() == 2,
            r@[0]@ == "carbon_credits".spec_bytes(),
            r@[1]@ == seq![self.spec_seed()],
    {
        let namespace: Vec<u8> = "carbon_credits".as_bytes_vec();
        let mut seed: Vec<u8> = Vec::new();
        seed.push(self.seed);
        let mut seeds: Vec<Vec<u8>> = Vec::new();
        seeds.push(namespace);
        seeds.push(seed);
        seeds
    }
}

/// The global ledger. There is one; it is created once and never removed.
#[derive(Clone, Copy, Debug, PartialEq, Eq)]
pub struct CarbonCredits {
    /// The administrator who created the ledger.
    pub admin: Address,
    /// The asset in which purchases are paid.
    pub payment_mint: Address,
    /// The holding account that collects the platform's fees.
    pub fee_vault: Address,
    /// The credits issued by all projects together.
    pub total_credits_issued: u64,
    /// The credits retired by all offset requests together.
    pub total_credits_offset: u64,
    /// The capability that controls project vaults and minting rights.
    pub capability: Capability,
}

impl CarbonCredits {
    /// The ledger's own address: the one its capability signs for.
    pub open spec fn spec_key(&self) -> Address {
        self.capability.spec_address()
    }

    /// The ledger's own address: the one its capability signs for.
    #[verifier::when_used_as_spec(spec_key)]
    pub fn key(&self) -> (r: Address)
        ensures
            r == self.spec_key(),
    {
        self.capability.address()
    }

    /// A new ledger with both totals at zero.
    pub fn initialize(
        admin: Address,
        payment_mint: Address,
        fee_vault: Address,
        capability: Capability,
    ) -> (r: CarbonCredits)
        ensures
            r == (CarbonCredits {
                admin,
                payment_mint,
                fee_vault,
                total_credits_issued: 0,
                total_credits_offset: 0,
                capability,
            }),
    {
        CarbonCredits {
            admin,
            payment_mint,
            fee_vault,
            total_credits_issued: 0,
            total_credits_offset: 0,
            capability,
        }
    }

    /// Adds the supply of a new project to the total issued. Fails with
    /// `MathOverflow`, and changes nothing, if the total would not fit in
    /// 64 bits.
    pub fn add_project_credits(&mut self, amount: u64) -> (r: Result<(), ErrorCode>)
        ensures
            old(self).total_credits_issued + amount <= u64::MAX ==> r.is_ok() && *final(self) == (
            CarbonCredits {
                total_credits_issued: (old(self).total_credits_issued + amount) as u64,
                ..*old(self)
            }),
            old(self).total_credits_issued + amount > u64::MAX ==> r == Err::<(), ErrorCode>(
                ErrorCode::MathOverflow,
            ) && *final(self) == *old(self),
    {
        match self.total_credits_issued.checked_add(amount) {
            Some(total) => {
                self.total_credits_issued = total;
                Ok(())
            },
            None => Err(ErrorCode::MathOverflow),
        }
    }

    /// Adds a retirement to the total retired. Fails with `MathOverflow`,
    /// and changes nothing, if the total would not fit in 64 bits.
    pub fn record_offset(&mut self, amount: u64) -> (r: Result<(), ErrorCode>)
        ensures
            old(self).total_credits_offset + amount <= u64::MAX ==> r.is_ok() && *final(self) == (
            CarbonCredits {
                total_credits_offset: (old(self).total_credits_offset + amount) as u64,
                ..*old(self)
            }),
            old(self).total_credits_offset + amount > u64::MAX ==> r == Err::<(), ErrorCode>(
                ErrorCode::MathOverflow,
            ) && *final(self) == *old(self),
    {
        match self.total_credits_offset.checked_add(amount) {
            Some(total) => {
                self.total_credits_offset = total;
                Ok(())
            },
            None => Err(ErrorCode::MathOverflow),
        }
    }
}

} // verus!
