//! The platform as a whole, as contracts speak of it: the ledger and every
//! project, purchase and offset request on record, with the operations as
//! functions from one state to the next.

use vstd::prelude::*;
use crate::address::Address;
use crate::errors::ContractError;
use crate::instructions::{
    InitializeCarbonCreditsAccountConstraints, InitializeProjectAccountConstraints,
    PurchaseCarbonCredits, RequestOffset,
};
use crate::state::{CarbonCredits, OffsetRequestView, Project, Purchase};
use crate::sums::total;

verus! {

/// A project's record, with the address it is stored under.
#[derive(Clone, Copy, Debug, PartialEq, Eq)]
pub struct ProjectAccount {
    pub key: Address,
    pub data: Project,
}

/// A purchase's record, with the address it is stored under.
#[derive(Clone, Copy, Debug, PartialEq, Eq)]
pub struct PurchaseAccount {
    pub key: Address,
    pub data: Purchase,
}

/// Everything on record, in the order in which it was recorded.
#[verifier::ext_equal]
pub struct PlatformState {
    pub ledger: Option<CarbonCredits>,
    pub projects: Seq<ProjectAccount>,
    pub purchases: Seq<PurchaseAccount>,
    pub offset_requests: Seq<OffsetRequestView>,
}

/// One operation with its inputs.
#[allow(inconsistent_fields)]
pub enum Operation {
    InitializeLedger { context: InitializeCarbonCreditsAccountConstraints, bump: u8 },
    CreateProject {
        context: InitializeProjectAccountConstraints,
        total_supply: u64,
        price_per_unit: u64,
        fee_rate_bps: u16,
    },
    Purchase { context: PurchaseCarbonCredits, amount: u64, now: i64 },
    RequestOffset { context: RequestOffset, amount: u64, request_id: Seq<char>, now: i64 },
}

/// What a project issued.
pub open spec fn supply() -> spec_fn(ProjectAccount) -> nat {
    |p: ProjectAccount| p.data.total_supply as nat
}

/// What a purchase took from `project`: its amount if it was made from that
/// project, else nothing.
pub open spec fn bought_from(project: Address) -> spec_fn(PurchaseAccount) -> nat {
    |q: PurchaseAccount|
        if q.data.project == project {
            q.data.amount as nat
        } else {
            0
        }
}

/// What a request retired of `purchase`: its amount if it was made against
/// that purchase, else nothing.
pub open spec fn retired_against(purchase: Address) -> spec_fn(OffsetRequestView) -> nat {
    |r: OffsetRequestView|
        if r.purchase == purchase {
            r.amount as nat
        } else {
            0
        }
}

/// What a request retired.
pub open spec fn retired() -> spec_fn(OffsetRequestView) -> nat {
    |r: OffsetRequestView| r.amount as nat
}

impl PlatformState {
    /// Nothing on record.
    pub open spec fn empty() -> PlatformState {
        PlatformState {
            ledger: None,
            projects: Seq::empty(),
            purchases: Seq::empty(),
            offset_requests: Seq::empty(),
        }
    }

    /// The ledger's total of credits issued; zero before the ledger exists.
    pub open spec fn issued(self) -> nat {
        match self.ledger {
            Some(ledger) => ledger.total_credits_issued as nat,
            None => 0,
        }
    }

    /// The ledger's total of credits retired; zero before the ledger exists.
    pub open spec fn offset(self) -> nat {
        match self.ledger {
            Some(ledger) => ledger.total_credits_offset as nat,
            None => 0,
        }
    }

    /// Whether a project is stored under `key`.
    pub open spec fn has_project(self, key: Address) -> bool {
        exists|i: int| 0 <= i < self.projects.len() && (#[trigger] self.projects[i]).key == key
    }

    /// Where the project under `key` stands in the records.
    pub open spec fn project_index(self, key: Address) -> int {
        choose|i: int| 0 <= i < self.projects.len() && (#[trigger] self.projects[i]).key == key
    }

    /// The project stored under `key`, if there is one.
    pub open spec fn project(self, key: Address) -> Option<Project> {
        if self.has_project(key) {
            Some(self.projects[self.project_index(key)].data)
        } else {
            None
        }
    }

    /// Whether a purchase is stored under `key`.
    pub open spec fn has_purchase(self, key: Address) -> bool {
        exists|i: int| 0 <= i < self.purchases.len() && (#[trigger] self.purchases[i]).key == key
    }

    /// Where the purchase under `key` stands in the records.
    pub open spec fn purchase_index(self, key: Address) -> int {
        choose|i: int| 0 <= i < self.purchases.len() && (#[trigger] self.purchases[i]).key == key
    }

    /// The purchase stored under `key`, if there is one.
    pub open spec fn purchase(self, key: Address) -> Option<Purchase> {
        if self.has_purchase(key) {
            Some(self.purchases[self.purchase_index(key)].data)
        } else {
            None
        }
    }

    /// Whether `requester` has used `request_id` for `purchase`.
    pub open spec fn has_offset_request(
        self,
        requester: Address,
        purchase: Address,
        request_id: Seq<char>,
    ) -> bool {
        exists|i: int|
            0 <= i < self.offset_requests.len() && (#[trigger] self.offset_requests[i]).has_key(
                requester,
                purchase,
                request_id,
            )
    }

    /// The request that `requester` made for `purchase` under `request_id`,
    /// if there is one.
    pub open spec fn offset_request(
        self,
        requester: Address,
        purchase: Address,
        request_id: Seq<char>,
    ) -> Option<OffsetRequestView> {
        if self.has_offset_request(requester, purchase, request_id) {
            Some(
                self.offset_requests[choose|i: int|
                    0 <= i < self.offset_requests.len() && (
                    #[trigger] self.offset_requests[i]).has_key(requester, purchase, request_id)],
            )
        } else {
            None
        }
    }

    /// No address holds two projects or two purchases, and no requester has
    /// used an identifier twice for one purchase.
    pub open spec fn keys_distinct(self) -> bool {
        &&& forall|i: int, j: int|
            0 <= i < j < self.projects.len() ==> (#[trigger] self.projects[i]).key != (
            #[trigger] self.projects[j]).key
        &&& forall|i: int, j: int|
            0 <= i < j < self.purchases.len() ==> (#[trigger] self.purchases[i]).key != (
            #[trigger] self.purchases[j]).key
        &&& forall|i: int, j: int|
            0 <= i < j < self.offset_requests.len() ==> !(#[trigger] self.offset_requests[i]).has_key(
                (#[trigger] self.offset_requests[j]).offset_requester,
                self.offset_requests[j].purchase,
                self.offset_requests[j].request_id,
            )
    }

    /// Every purchase was made from a project on record, and every request
    /// against a purchase on record.
    pub open spec fn references_resolve(self) -> bool {
        &&& forall|i: int|
            0 <= i < self.purchases.len() ==> self.has_project(
                (#[trigger] self.purchases[i]).data.project,
            )
        &&& forall|i: int|
            0 <= i < self.offset_requests.len() ==> self.has_purchase(
                (#[trigger] self.offset_requests[i]).purchase,
            )
    }

    /// The ledger's total issued is the sum of the supplies of all projects.
    pub open spec fn issuance_conserved(self) -> bool {
        self.issued() == total(self.projects, supply())
    }

    /// What each project has sold is the sum of the purchases made from it.
    pub open spec fn projects_conserved(self) -> bool {
        forall|i: int|
            0 <= i < self.projects.len() ==> (#[trigger] self.projects[i]).data.wf()
                && self.projects[i].data.sold() == total(
                self.purchases,
                bought_from(self.projects[i].key),
            )
    }

    /// What is retired of each purchase is the sum of the requests made
    /// against it.
    pub open spec fn purchases_conserved(self) -> bool {
        forall|i: int|
            0 <= i < self.purchases.len() ==> (#[trigger] self.purchases[i]).data.wf()
                && self.purchases[i].data.retired() == total(
                self.offset_requests,
                retired_against(self.purchases[i].key),
            )
    }

    /// The ledger's total retired is the sum of all requests.
    pub open spec fn offsets_conserved(self) -> bool {
        self.offset() == total(self.offset_requests, retired())
    }

    /// What holds of every state that the operations can reach.
    pub open spec fn inv(self) -> bool {
        &&& self.keys_distinct()
        &&& self.references_resolve()
        &&& self.issuance_conserved()
        &&& self.projects_conserved()
        &&& self.purchases_conserved()
        &&& self.offsets_conserved()
    }

    /// Why the ledger cannot be initialized, if it cannot.
    pub open spec fn initialize_ledger_rejection(
        self,
        context: InitializeCarbonCreditsAccountConstraints,
    ) -> Option<ContractError> {
        if self.ledger.is_some() {
            Some(ContractError::AlreadyInitialized)
        } else {
            context.rejection()
        }
    }

    /// The state once the ledger is initialized.
    pub open spec fn after_initialize_ledger(
        self,
        context: InitializeCarbonCreditsAccountConstraints,
        bump: u8,
    ) -> PlatformState {
        PlatformState { ledger: Some(context.ledger(bump)), ..self }
    }

    /// Why the project cannot be created, if it cannot.
    pub open spec fn create_project_rejection(
        self,
        context: InitializeProjectAccountConstraints,
        total_supply: u64,
    ) -> Option<ContractError> {
        if self.has_project(context.project) {
            Some(ContractError::ProjectExists)
        } else if self.ledger.is_none() {
            Some(ContractError::InvalidPlatformAuthority)
        } else {
            InitializeProjectAccountConstraints::rejection(self.ledger.unwrap(), total_supply)
        }
    }

    /// The state once the project is created.
    pub open spec fn after_create_project(
        self,
        context: InitializeProjectAccountConstraints,
        total_supply: u64,
        price_per_unit: u64,
        fee_rate_bps: u16,
    ) -> PlatformState {
        let ledger = self.ledger.unwrap();
        PlatformState {
            ledger: Some(InitializeProjectAccountConstraints::ledger_after(ledger, total_supply)),
            projects: self.projects.push(
                ProjectAccount {
                    key: context.project,
                    data: context.project_record(ledger, total_supply, price_per_unit, fee_rate_bps),
                },
            ),
            ..self
        }
    }

    /// Why the purchase cannot be made, if it cannot.
    pub open spec fn purchase_rejection(self, context: PurchaseCarbonCredits, amount: u64) -> Option<
        ContractError,
    > {
        if self.has_purchase(context.purchase) {
            Some(ContractError::PurchaseExists)
        } else if self.ledger.is_none() {
            Some(ContractError::InvalidPlatformAuthority)
        } else if !self.has_project(context.project) {
            Some(ContractError::InvalidProject)
        } else {
            context.rejection(
                self.projects[self.project_index(context.project)].data,
                self.ledger.unwrap(),
                amount,
            )
        }
    }

    /// The state once the purchase is made.
    pub open spec fn after_purchase(self, context: PurchaseCarbonCredits, amount: u64, now: i64) -> PlatformState {
        let i = self.project_index(context.project);
        PlatformState {
            projects: self.projects.update(
                i,
                ProjectAccount {
                    key: context.project,
                    data: PurchaseCarbonCredits::project_after(self.projects[i].data, amount),
                },
            ),
            purchases: self.purchases.push(
                PurchaseAccount {
                    key: context.purchase,
                    data: context.purchase_record(amount, now),
                },
            ),
            ..self
        }
    }

    /// Why the offset cannot be recorded, if it cannot.
    pub open spec fn request_offset_rejection(
        self,
        context: RequestOffset,
        amount: u64,
        request_id: Seq<char>,
    ) -> Option<ContractError> {
        if self.has_offset_request(context.offset_requester, context.purchase, request_id) {
            Some(ContractError::OffsetRequestExists)
        } else if self.ledger.is_none() {
            Some(ContractError::InvalidPlatformAuthority)
        } else if !self.has_purchase(context.purchase) {
            Some(ContractError::InvalidPurchase)
        } else {
            context.rejection(
                self.purchases[self.purchase_index(context.purchase)].data,
                self.ledger.unwrap(),
                amount,
                request_id,
            )
        }
    }

    /// The state once the offset is recorded.
    pub open spec fn after_request_offset(
        self,
        context: RequestOffset,
        amount: u64,
        request_id: Seq<char>,
        now: i64,
    ) -> PlatformState {
        let i = self.purchase_index(context.purchase);
        PlatformState {
            ledger: Some(RequestOffset::ledger_after(self.ledger.unwrap(), amount)),
            purchases: self.purchases.update(
                i,
                PurchaseAccount {
                    key: context.purchase,
                    data: context.purchase_after(self.purchases[i].data, amount),
                },
            ),
            offset_requests: self.offset_requests.push(
                context.request_record(amount, request_id, now),
            ),
            ..self
        }
    }

    /// Why `operation` is rejected in this state, if it is.
    pub open spec fn rejection(self, operation: Operation) -> Option<ContractError> {
        match operation {
            Operation::InitializeLedger { context, bump } => self.initialize_ledger_rejection(
                context,
            ),
            Operation::CreateProject {
                context,
                total_supply,
                price_per_unit,
                fee_rate_bps,
            } => self.create_project_rejection(context, total_supply),
            Operation::Purchase { context, amount, now } => self.purchase_rejection(
                context,
                amount,
            ),
            Operation::RequestOffset {
                context,
                amount,
                request_id,
                now,
            } => self.request_offset_rejection(context, amount, request_id),
        }
    }

    /// The state after `operation`: changed as the operation says if it is
    /// accepted, the same state if it is rejected.
    pub open spec fn apply(self, operation: Operation) -> PlatformState {
        if self.rejection(operation).is_some() {
            self
        } else {
            match operation {
                Operation::InitializeLedger { context, bump } => self.after_initialize_ledger(
                    context,
                    bump,
                ),
                Operation::CreateProject {
                    context,
                    total_supply,
                    price_per_unit,
                    fee_rate_bps,
                } => self.after_create_project(context, total_supply, price_per_unit, fee_rate_bps),
                Operation::Purchase { context, amount, now } => self.after_purchase(
                    context,
                    amount,
                    now,
                ),
                Operation::RequestOffset {
                    context,
                    amount,
                    request_id,
                    now,
                } => self.after_request_offset(context, amount, request_id, now),
            }
        }
    }

    /// The state after a history of operations that starts in this state.
    pub open spec fn after(self, history: Seq<Operation>) -> PlatformState
        decreases history.len(),
    {
        if history.len() == 0 {
            self
        } else {
            self.after(history.drop_last()).apply(history.last())
        }
    }

    /// Whether some history of operations, starting with nothing on record,
    /// leads to this state.
    pub open spec fn reachable(self) -> bool {
        exists|history: Seq<Operation>| self == #[trigger] PlatformState::empty().after(history)
    }
}

} // verus!
