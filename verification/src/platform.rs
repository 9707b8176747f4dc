//! The platform in memory: the ledger and every record, and the four
//! operations on them.
//!
//! An operation first looks for a record already stored under the new
//! record's identifier, then finds the records it touches, then runs the
//! operation's own checks. It changes the records only when every check has
//! passed, so an operation that fails leaves the platform as it was.

use vstd::prelude::*;
use crate::address::Address;
use crate::errors::ContractError;
use crate::instructions::request_offset::descriptor_view;
use crate::instructions::{
    CompletedPurchase, InitializeCarbonCreditsAccountConstraints,
    InitializeProjectAccountConstraints, InitializedProject, PurchaseCarbonCredits, RecordedOffset,
    RequestOffset,
};
use crate::laws::{
    lemma_apply_reachable, lemma_create_project_preserves, lemma_empty_reachable,
    lemma_initialize_ledger_preserves, lemma_offset_request_index, lemma_project_index,
    lemma_purchase_index, lemma_purchase_preserves, lemma_request_offset_preserves,
};
use crate::model::{Operation, PlatformState, ProjectAccount, PurchaseAccount};
use crate::pricing::quote_for;
use crate::state::{CarbonCredits, OffsetRequest, Project, Purchase};

verus! {

/// The ledger and every project, purchase and offset request on record.
#[derive(Clone, Debug, PartialEq, Eq)]
pub struct Platform {
    ledger: Option<CarbonCredits>,
    projects: Vec<ProjectAccount>,
    purchases: Vec<PurchaseAccount>,
    offset_requests: Vec<OffsetRequest>,
}

impl View for Platform {
    type V = PlatformState;

    closed spec fn view(&self) -> PlatformState {
        PlatformState {
            ledger: self.ledger,
            projects: self.projects@,
            purchases: self.purchases@,
            offset_requests: self.offset_requests@.map_values(|r: OffsetRequest| r@),
        }
    }
}

impl Platform {
    /// A platform with nothing on record.
    pub fn new() -> (r: Platform)
        ensures
            r@ == PlatformState::empty(),
            r@.inv(),
            r@.reachable(),
    {
        let r = Platform {
            ledger: None,
            projects: Vec::new(),
            purchases: Vec::new(),
            offset_requests: Vec::new(),
        };
        proof {
            lemma_empty_reachable();
            assert(r@ =~= PlatformState::empty());
        }
        r
    }

    /// The ledger, once it is initialized.
    pub fn ledger(&self) -> (r: Option<CarbonCredits>)
        ensures
            r == self@.ledger,
    {
        self.ledger
    }

    fn find_project(&self, key: &Address) -> (r: Option<usize>)
        ensures
            match r {
                Some(i) => i < self@.projects.len() && self@.projects[i as int].key == *key,
                None => !self@.has_project(*key),
            },
    {
        let mut i: usize = 0;
        while i < self.projects.len()
            invariant
                i <= self.projects.len(),
                forall|k: int| 0 <= k < i ==> (#[trigger] self.projects@[k]).key != *key,
            decreases self.projects.len() - i,
        {
            if self.projects[i].key == *key {
                return Some(i);
            }
            i = i + 1;
        }
        None
    }

    fn find_purchase(&self, key: &Address) -> (r: Option<usize>)
        ensures
            match r {
                Some(i) => i < self@.purchases.len() && self@.purchases[i as int].key == *key,
                None => !self@.has_purchase(*key),
            },
    {
        let mut i: usize = 0;
        while i < self.purchases.len()
            invariant
                i <= self.purchases.len(),
                forall|k: int| 0 <= k < i ==> (#[trigger] self.purchases@[k]).key != *key,
            decreases self.purchases.len() - i,
        {
            if self.purchases[i].key == *key {
                return Some(i);
            }
            i = i + 1;
        }
        None
    }

    fn find_offset_request(&self, requester: &Address, purchase: &Address, request_id: &String) -> (r:
        Option<usize>)
        ensures
            match r {
                Some(i) => i < self@.offset_requests.len() && self@.offset_requests[i as int].has_key(
                    *requester,
                    *purchase,
                    request_id@,
                ),
                None => !self@.has_offset_request(*requester, *purchase, request_id@),
            },
    {
        let mut i: usize = 0;
        while i < self.offset_requests.len()
            invariant
                i <= self.offset_requests.len(),
                self@.offset_requests.len() == self.offset_requests.len(),
                forall|k: int|
                    0 <= k < i ==> !(#[trigger] self@.offset_requests[k]).has_key(
                        *requester,
                        *purchase,
                        request_id@,
                    ),
            decreases self.offset_requests.len() - i,
        {
            if self.offset_requests[i].is_keyed(requester, purchase, request_id) {
                return Some(i);
            }
            i = i + 1;
        }
        None
    }

    /// The project stored under `key`, if there is one.
    pub fn project(&self, key: &Address) -> (r: Option<Project>)
        requires
            self@.inv(),
        ensures
            r == self@.project(*key),
    {
        match self.find_project(key) {
            Some(i) => {
                proof {
                    lemma_project_index(self@, i as int);
                }
                Some(self.projects[i].data)
            },
            None => None,
        }
    }

    /// The purchase stored under `key`, if there is one.
    pub fn purchase(&self, key: &Address) -> (r: Option<Purchase>)
        requires
            self@.inv(),
        ensures
            r == self@.purchase(*key),
    {
        match self.find_purchase(key) {
            Some(i) => {
                proof {
                    lemma_purchase_index(self@, i as int);
                }
                Some(self.purchases[i].data)
            },
            None => None,
        }
    }

    /// The request that `requester` made for `purchase` under `request_id`,
    /// if there is one.
    pub fn offset_request(&self, requester: &Address, purchase: &Address, request_id: &String) -> (r:
        Option<OffsetRequest>)
        requires
            self@.inv(),
        ensures
            match self@.offset_request(*requester, *purchase, request_id@) {
                Some(request) => r matches Some(found) && found@ == request,
                None => r.is_none(),
            },
    {
        match self.find_offset_request(requester, purchase, request_id) {
            Some(i) => {
                proof {
                    lemma_offset_request_index(self@, i as int);
                }
                Some(self.offset_requests[i].duplicate())
            },
            None => None,
        }
    }

    /// How many projects are on record.
    pub fn project_count(&self) -> (r: usize)
        ensures
            r == self@.projects.len(),
    {
        self.projects.len()
    }

    /// How many purchases are on record.
    pub fn purchase_count(&self) -> (r: usize)
        ensures
            r == self@.purchases.len(),
    {
        self.purchases.len()
    }

    /// How many offset requests are on record.
    pub fn offset_request_count(&self) -> (r: usize)
        ensures
            r == self@.offset_requests.len(),
    {
        self.offset_requests.len()
    }
}

/// Initializes the ledger, with both totals at zero.
///
/// Fails with `AlreadyInitialized` if the ledger exists, else with
/// `InvalidPaymentAssetDescriptor` if the payment asset does not have six
/// decimals.
pub fn initialize_carbon_credits(
    platform: &mut Platform,
    context: &InitializeCarbonCreditsAccountConstraints,
    bump: u8,
) -> (r: Result<(), ContractError>)
    requires
        old(platform)@.inv(),
    ensures
        final(platform)@.inv(),
        old(platform)@.reachable() ==> final(platform)@.reachable(),
        final(platform)@ == old(platform)@.apply(
            Operation::InitializeLedger { context: *context, bump },
        ),
        match old(platform)@.initialize_ledger_rejection(*context) {
            Some(e) => r == Err::<(), ContractError>(e) && final(platform)@ == old(platform)@,
            None => r.is_ok() && final(platform)@ == old(platform)@.after_initialize_ledger(
                *context,
                bump,
            ),
        },
{
    proof {
        lemma_apply_reachable(
            platform@,
            Operation::InitializeLedger { context: *context, bump },
        );
    }
    if platform.ledger.is_some() {
        return Err(ContractError::AlreadyInitialized);
    }
    let ledger: CarbonCredits = match context.initialize_carbon_credits_handler(bump) {
        Ok(ledger) => ledger,
        Err(e) => {
            return Err(e);
        },
    };
    platform.ledger = Some(ledger);
    proof {
        lemma_initialize_ledger_preserves(old(platform)@, *context, bump);
    }
    Ok(())
}

/// Creates a project of `total_supply` credits at `price_per_unit`, with a
/// platform fee of `fee_rate_bps` basis points, and registers its supply
/// with the ledger. `uri`, `name` and `symbol` describe the project's
/// provenance token.
///
/// Fails with `ProjectExists` if a project is stored under the address,
/// else with `InvalidPlatformAuthority` if there is no ledger, else with
/// `InvalidAmount` if the supply is 0, else with `MathOverflow` if the
/// ledger's total would not fit in 64 bits.
pub fn initialize_project(
    platform: &mut Platform,
    context: &InitializeProjectAccountConstraints,
    total_supply: u64,
    price_per_unit: u64,
    fee_rate_bps: u16,
    uri: String,
    name: String,
    symbol: String,
) -> (r: Result<InitializedProject, ContractError>)
    requires
        old(platform)@.inv(),
    ensures
        final(platform)@.inv(),
        old(platform)@.reachable() ==> final(platform)@.reachable(),
        final(platform)@ == old(platform)@.apply(
            Operation::CreateProject {
                context: *context,
                total_supply,
                price_per_unit,
                fee_rate_bps,
            },
        ),
        match old(platform)@.create_project_rejection(*context, total_supply) {
            Some(e) => r matches Err(x) && x == e && final(platform)@ == old(platform)@,
            None => r matches Ok(out) && final(platform)@ == old(platform)@.after_create_project(
                *context,
                total_supply,
                price_per_unit,
                fee_rate_bps,
            ) && out.project == context.project_record(
                old(platform)@.ledger.unwrap(),
                total_supply,
                price_per_unit,
                fee_rate_bps,
            ) && out.descriptor@ == InitializeProjectAccountConstraints::descriptor(
                old(platform)@.ledger.unwrap(),
                fee_rate_bps,
                uri@,
                name@,
                symbol@,
            ) && out.intents@ == context.intents(old(platform)@.ledger.unwrap(), total_supply),
        },
{
    proof {
        lemma_apply_reachable(
            platform@,
            Operation::CreateProject {
                context: *context,
                total_supply,
                price_per_unit,
                fee_rate_bps,
            },
        );
    }
    if platform.find_project(&context.project).is_some() {
        return Err(ContractError::ProjectExists);
    }
    let mut ledger: CarbonCredits = match platform.ledger {
        Some(ledger) => ledger,
        None => {
            return Err(ContractError::InvalidPlatformAuthority);
        },
    };
    let out: InitializedProject = match context.initialize_project_handler(
        &mut ledger,
        total_supply,
        price_per_unit,
        fee_rate_bps,
        uri,
        name,
        symbol,
    ) {
        Ok(out) => out,
        Err(e) => {
            return Err(e);
        },
    };
    platform.ledger = Some(ledger);
    platform.projects.push(ProjectAccount { key: context.project, data: out.project });
    proof {
        lemma_create_project_preserves(
            old(platform)@,
            *context,
            total_supply,
            price_per_unit,
            fee_rate_bps,
        );
    }
    Ok(out)
}

/// Sells `amount` credits of the project to the buyer at time `now`.
///
/// Fails with `PurchaseExists` if a purchase is stored under the address,
/// else with `InvalidPlatformAuthority` if there is no ledger, else with
/// `InvalidProject` if no project is stored under the address given, else
/// with the first of the purchase's own checks that fails.
pub fn purchase_carbon_credits(
    platform: &mut Platform,
    context: &PurchaseCarbonCredits,
    amount: u64,
    now: i64,
) -> (r: Result<CompletedPurchase, ContractError>)
    requires
        old(platform)@.inv(),
    ensures
        final(platform)@.inv(),
        old(platform)@.reachable() ==> final(platform)@.reachable(),
        final(platform)@ == old(platform)@.apply(
            Operation::Purchase { context: *context, amount, now },
        ),
        match old(platform)@.purchase_rejection(*context, amount) {
            Some(e) => r matches Err(x) && x == e && final(platform)@ == old(platform)@,
            None => {
                let project = old(platform)@.project(context.project).unwrap();
                r matches Ok(out) && final(platform)@ == old(platform)@.after_purchase(
                    *context,
                    amount,
                    now,
                ) && out.purchase == context.purchase_record(amount, now) && Some(out.quote)
                    == quote_for(amount, project.price_per_unit, project.fee_rate_bps)
                    && out.descriptor@ == context.descriptor(amount) && out.intents@
                    == context.intents(old(platform)@.ledger.unwrap(), amount, out.quote)
            },
        },
{
    proof {
        lemma_apply_reachable(platform@, Operation::Purchase { context: *context, amount, now });
    }
    if platform.find_purchase(&context.purchase).is_some() {
        return Err(ContractError::PurchaseExists);
    }
    let ledger: CarbonCredits = match platform.ledger {
        Some(ledger) => ledger,
        None => {
            return Err(ContractError::InvalidPlatformAuthority);
        },
    };
    let i: usize = match platform.find_project(&context.project) {
        Some(i) => i,
        None => {
            return Err(ContractError::InvalidProject);
        },
    };
    proof {
        lemma_project_index(platform@, i as int);
    }
    let mut project: Project = platform.projects[i].data;
    let out: CompletedPurchase = match context.purchase_carbon_credits(
        &mut project,
        &ledger,
        amount,
        now,
    ) {
        Ok(out) => out,
        Err(e) => {
            return Err(e);
        },
    };
    platform.projects[i] = ProjectAccount { key: context.project, data: project };
    platform.purchases.push(PurchaseAccount { key: context.purchase, data: out.purchase });
    proof {
        lemma_purchase_preserves(old(platform)@, *context, amount, now);
    }
    Ok(out)
}

/// Retires `amount` credits of the purchase at time `now`, under the
/// requester's identifier `request_id`.
///
/// Fails with `OffsetRequestExists` if the requester has used the
/// identifier for the purchase before, else with `InvalidPlatformAuthority`
/// if there is no ledger, else with `InvalidPurchase` if no purchase is
/// stored under the address given, else with the first of the request's own
/// checks that fails.
pub fn request_offset(
    platform: &mut Platform,
    context: &RequestOffset,
    amount: u64,
    request_id: String,
    now: i64,
) -> (r: Result<RecordedOffset, ContractError>)
    requires
        old(platform)@.inv(),
    ensures
        final(platform)@.inv(),
        old(platform)@.reachable() ==> final(platform)@.reachable(),
        final(platform)@ == old(platform)@.apply(
            Operation::RequestOffset { context: *context, amount, request_id: request_id@, now },
        ),
        match old(platform)@.request_offset_rejection(*context, amount, request_id@) {
            Some(e) => r matches Err(x) && x == e && final(platform)@ == old(platform)@,
            None => {
                let left = final(platform)@.purchase(context.purchase).unwrap().remaining_amount;
                r matches Ok(out) && final(platform)@ == old(platform)@.after_request_offset(
                    *context,
                    amount,
                    request_id@,
                    now,
                ) && left == old(platform)@.purchase(context.purchase).unwrap().remaining_amount
                    - amount && out.request@ == context.request_record(amount, request_id@, now)
                    && descriptor_view(out.descriptor) == context.descriptor(left) && out.intents@
                    == context.intents(left)
            },
        },
{
    proof {
        lemma_apply_reachable(
            platform@,
            Operation::RequestOffset { context: *context, amount, request_id: request_id@, now },
        );
    }
    if platform.find_offset_request(&context.offset_requester, &context.purchase, &request_id).is_some() {
        return Err(ContractError::OffsetRequestExists);
    }
    let mut ledger: CarbonCredits = match platform.ledger {
        Some(ledger) => ledger,
        None => {
            return Err(ContractError::InvalidPlatformAuthority);
        },
    };
    let i: usize = match platform.find_purchase(&context.purchase) {
        Some(i) => i,
        None => {
            return Err(ContractError::InvalidPurchase);
        },
    };
    proof {
        lemma_purchase_index(platform@, i as int);
    }
    let ghost id = request_id@;
    let mut purchase: Purchase = platform.purchases[i].data;
    let out: RecordedOffset = match context.handler(
        &mut purchase,
        &mut ledger,
        amount,
        request_id,
        now,
    ) {
        Ok(out) => out,
        Err(e) => {
            return Err(e);
        },
    };
    let stored: OffsetRequest = out.request.duplicate();
    platform.ledger = Some(ledger);
    platform.purchases[i] = PurchaseAccount { key: context.purchase, data: purchase };
    platform.offset_requests.push(stored);
    proof {
        lemma_request_offset_preserves(old(platform)@, *context, amount, id, now);
        assert(platform@ =~= old(platform)@.after_request_offset(*context, amount, id, now));
        lemma_purchase_index(platform@, i as int);
    }
    Ok(out)
}

} // verus!
