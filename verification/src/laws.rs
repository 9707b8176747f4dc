//! What holds of the platform in every state that the operations can reach.

use vstd::prelude::*;
use crate::address::Address;
use crate::errors::ContractError;
use crate::instructions::{
    InitializeCarbonCreditsAccountConstraints, InitializeProjectAccountConstraints,
    PurchaseCarbonCredits, RequestOffset,
};
use crate::model::{
    bought_from, retired, retired_against, supply, Operation, PlatformState, ProjectAccount,
    PurchaseAccount,
};
use crate::state::offset_request::{request_id_bytes, REQUEST_ID_MAX_LEN};
use crate::sums::{lemma_total_push, lemma_total_update, lemma_total_zero, total};

verus! {

/// With distinct keys, the project under a key stands where any project
/// with that key stands.
pub proof fn lemma_project_index(s: PlatformState, i: int)
    requires
        s.keys_distinct(),
        0 <= i < s.projects.len(),
    ensures
        s.has_project(s.projects[i].key),
        s.project_index(s.projects[i].key) == i,
        s.project(s.projects[i].key) == Some(s.projects[i].data),
{
}

/// With distinct keys, the purchase under a key stands where any purchase
/// with that key stands.
pub proof fn lemma_purchase_index(s: PlatformState, i: int)
    requires
        s.keys_distinct(),
        0 <= i < s.purchases.len(),
    ensures
        s.has_purchase(s.purchases[i].key),
        s.purchase_index(s.purchases[i].key) == i,
        s.purchase(s.purchases[i].key) == Some(s.purchases[i].data),
{
}

/// With distinct keys, the request under a requester, purchase and
/// identifier is any request made by that requester for that purchase under
/// that identifier.
pub proof fn lemma_offset_request_index(s: PlatformState, i: int)
    requires
        s.keys_distinct(),
        0 <= i < s.offset_requests.len(),
    ensures
        s.has_offset_request(
            s.offset_requests[i].offset_requester,
            s.offset_requests[i].purchase,
            s.offset_requests[i].request_id,
        ),
        s.offset_request(
            s.offset_requests[i].offset_requester,
            s.offset_requests[i].purchase,
            s.offset_requests[i].request_id,
        ) == Some(s.offset_requests[i]),
{
}

/// Projects stay on record under their addresses where the records keep
/// their places and their addresses.
pub proof fn lemma_projects_stay(s: PlatformState, t: PlatformState)
    requires
        s.projects.len() <= t.projects.len(),
        forall|k: int|
            0 <= k < s.projects.len() ==> (#[trigger] t.projects[k]).key == s.projects[k].key,
    ensures
        forall|key: Address| s.has_project(key) ==> t.has_project(key),
{
    assert forall|key: Address| s.has_project(key) implies t.has_project(key) by {
        let k = s.project_index(key);
        assert(t.projects[k].key == key);
    }
}

/// Purchases stay on record under their addresses where the records keep
/// their places and their addresses.
pub proof fn lemma_purchases_stay(s: PlatformState, t: PlatformState)
    requires
        s.purchases.len() <= t.purchases.len(),
        forall|k: int|
            0 <= k < s.purchases.len() ==> (#[trigger] t.purchases[k]).key == s.purchases[k].key,
    ensures
        forall|key: Address| s.has_purchase(key) ==> t.has_purchase(key),
{
    assert forall|key: Address| s.has_purchase(key) implies t.has_purchase(key) by {
        let k = s.purchase_index(key);
        assert(t.purchases[k].key == key);
    }
}

/// Initializing the ledger keeps the invariant.
pub proof fn lemma_initialize_ledger_preserves(
    s: PlatformState,
    context: InitializeCarbonCreditsAccountConstraints,
    bump: u8,
)
    requires
        s.inv(),
        s.initialize_ledger_rejection(context).is_none(),
    ensures
        s.after_initialize_ledger(context, bump).inv(),
{
    let t = s.after_initialize_ledger(context, bump);
    lemma_projects_stay(s, t);
    lemma_purchases_stay(s, t);
}

/// Creating a project keeps the invariant.
pub proof fn lemma_create_project_preserves(
    s: PlatformState,
    context: InitializeProjectAccountConstraints,
    total_supply: u64,
    price_per_unit: u64,
    fee_rate_bps: u16,
)
    requires
        s.inv(),
        s.create_project_rejection(context, total_supply).is_none(),
    ensures
        s.after_create_project(context, total_supply, price_per_unit, fee_rate_bps).inv(),
{
    let t = s.after_create_project(context, total_supply, price_per_unit, fee_rate_bps);
    let created = ProjectAccount {
        key: context.project,
        data: context.project_record(
            s.ledger.unwrap(),
            total_supply,
            price_per_unit,
            fee_rate_bps,
        ),
    };
    lemma_projects_stay(s, t);
    lemma_purchases_stay(s, t);
    // The ledger's total grows by the new supply.
    lemma_total_push(s.projects, created, supply());
    // No purchase was made from a project that was not on record.
    lemma_total_zero(s.purchases, bought_from(context.project));
}

/// A purchase keeps the invariant.
pub proof fn lemma_purchase_preserves(
    s: PlatformState,
    context: PurchaseCarbonCredits,
    amount: u64,
    now: i64,
)
    requires
        s.inv(),
        s.purchase_rejection(context, amount).is_none(),
    ensures
        s.after_purchase(context, amount, now).inv(),
{
    let t = s.after_purchase(context, amount, now);
    let i = s.project_index(context.project);
    let sold_from = ProjectAccount {
        key: context.project,
        data: PurchaseCarbonCredits::project_after(s.projects[i].data, amount),
    };
    let made = PurchaseAccount { key: context.purchase, data: context.purchase_record(amount, now) };
    lemma_projects_stay(s, t);
    lemma_purchases_stay(s, t);
    // The project's supply is as it was, so the ledger's total still
    // matches.
    lemma_total_update(s.projects, i, sold_from, supply());
    // Each project's sales grow by what the new purchase took from it.
    assert forall|k: int| 0 <= k < t.projects.len() implies (#[trigger] t.projects[k]).data.wf()
        && t.projects[k].data.sold() == total(t.purchases, bought_from(t.projects[k].key)) by {
        lemma_total_push(s.purchases, made, bought_from(t.projects[k].key));
    }
    // No request was made against a purchase that was not on record.
    lemma_total_zero(s.offset_requests, retired_against(context.purchase));
}

/// An offset request keeps the invariant.
pub proof fn lemma_request_offset_preserves(
    s: PlatformState,
    context: RequestOffset,
    amount: u64,
    request_id: Seq<char>,
    now: i64,
)
    requires
        s.inv(),
        s.request_offset_rejection(context, amount, request_id).is_none(),
    ensures
        s.after_request_offset(context, amount, request_id, now).inv(),
{
    let t = s.after_request_offset(context, amount, request_id, now);
    let i = s.purchase_index(context.purchase);
    let retired_from = PurchaseAccount {
        key: context.purchase,
        data: context.purchase_after(s.purchases[i].data, amount),
    };
    let recorded = context.request_record(amount, request_id, now);
    lemma_projects_stay(s, t);
    lemma_purchases_stay(s, t);
    // The purchase's amount and project are as they were, so each project's
    // sales still match.
    assert forall|k: int| 0 <= k < t.projects.len() implies (#[trigger] t.projects[k]).data.wf()
        && t.projects[k].data.sold() == total(t.purchases, bought_from(t.projects[k].key)) by {
        lemma_total_update(s.purchases, i, retired_from, bought_from(s.projects[k].key));
    }
    // Each purchase's retirements grow by what the new request retired of
    // it.
    assert forall|k: int| 0 <= k < t.purchases.len() implies (#[trigger] t.purchases[k]).data.wf()
        && t.purchases[k].data.retired() == total(
        t.offset_requests,
        retired_against(t.purchases[k].key),
    ) by {
        lemma_total_push(s.offset_requests, recorded, retired_against(t.purchases[k].key));
    }
    // The ledger's total grows by what the new request retired.
    lemma_total_push(s.offset_requests, recorded, retired());
}

/// Every operation, accepted or rejected, keeps the invariant.
pub proof fn lemma_apply_preserves(s: PlatformState, operation: Operation)
    requires
        s.inv(),
    ensures
        s.apply(operation).inv(),
{
    if s.rejection(operation).is_none() {
        match operation {
            Operation::InitializeLedger { context, bump } => {
                lemma_initialize_ledger_preserves(s, context, bump);
            },
            Operation::CreateProject { context, total_supply, price_per_unit, fee_rate_bps } => {
                lemma_create_project_preserves(
                    s,
                    context,
                    total_supply,
                    price_per_unit,
                    fee_rate_bps,
                );
            },
            Operation::Purchase { context, amount, now } => {
                lemma_purchase_preserves(s, context, amount, now);
            },
            Operation::RequestOffset { context, amount, request_id, now } => {
                lemma_request_offset_preserves(s, context, amount, request_id, now);
            },
        }
    }
}

/// Every history of operations keeps the invariant.
pub proof fn lemma_after_preserves(s: PlatformState, history: Seq<Operation>)
    requires
        s.inv(),
    ensures
        s.after(history).inv(),
    decreases history.len(),
{
    if history.len() > 0 {
        lemma_after_preserves(s, history.drop_last());
        lemma_apply_preserves(s.after(history.drop_last()), history.last());
    }
}

/// The invariant holds in every state that can be reached from nothing on
/// record.
pub proof fn lemma_reachable(s: PlatformState)
    requires
        s.reachable(),
    ensures
        s.inv(),
{
    let history = choose|history: Seq<Operation>| s == #[trigger] PlatformState::empty().after(history);
    lemma_after_preserves(PlatformState::empty(), history);
}

/// The state with nothing on record can be reached.
pub proof fn lemma_empty_reachable()
    ensures
        PlatformState::empty().reachable(),
{
    assert(PlatformState::empty() == PlatformState::empty().after(Seq::empty()));
}

/// An operation leads from a state that can be reached to one that can be
/// reached.
pub proof fn lemma_apply_reachable(s: PlatformState, operation: Operation)
    ensures
        s.reachable() ==> s.apply(operation).reachable(),
{
    if s.reachable() {
        let history = choose|history: Seq<Operation>|
            s == #[trigger] PlatformState::empty().after(history);
        assert(history.push(operation).drop_last() == history);
        assert(s.apply(operation) == PlatformState::empty().after(history.push(operation)));
    }
}

/// Issuance is conserved: in every reachable state the ledger's total of
/// credits issued is the sum of the supplies of all projects.
pub proof fn law_issuance_conservation(s: PlatformState)
    requires
        s.reachable(),
    ensures
        s.issued() == total(s.projects, supply()),
{
    lemma_reachable(s);
}

/// Projects are conserved: in every reachable state, what a project has
/// issued less what it has left is the sum of the amounts of the purchases
/// made from it.
pub proof fn law_project_conservation(s: PlatformState, i: int)
    requires
        s.reachable(),
        0 <= i < s.projects.len(),
    ensures
        s.projects[i].data.remaining_supply <= s.projects[i].data.total_supply,
        s.projects[i].data.total_supply - s.projects[i].data.remaining_supply == total(
            s.purchases,
            bought_from(s.projects[i].key),
        ),
{
    lemma_reachable(s);
}

/// Purchases are conserved: in every reachable state, what a purchase
/// acquired less what is left of it is the sum of the amounts of the offset
/// requests made against it.
pub proof fn law_purchase_conservation(s: PlatformState, i: int)
    requires
        s.reachable(),
        0 <= i < s.purchases.len(),
    ensures
        s.purchases[i].data.remaining_amount <= s.purchases[i].data.amount,
        s.purchases[i].data.amount - s.purchases[i].data.remaining_amount == total(
            s.offset_requests,
            retired_against(s.purchases[i].key),
        ),
{
    lemma_reachable(s);
}

/// Offsets are conserved: in every reachable state the ledger's total of
/// credits retired is the sum of the amounts of all offset requests.
pub proof fn law_offset_conservation(s: PlatformState)
    requires
        s.reachable(),
    ensures
        s.offset() == total(s.offset_requests, retired()),
{
    lemma_reachable(s);
}

/// No operation removes or changes an offset request on record: the
/// requests on record before are the first ones on record after.
pub proof fn lemma_requests_kept(s: PlatformState, operation: Operation)
    ensures
        s.offset_requests.len() <= s.apply(operation).offset_requests.len(),
        forall|i: int|
            0 <= i < s.offset_requests.len() ==> #[trigger] s.apply(operation).offset_requests[i]
                == s.offset_requests[i],
{
}

/// No history of operations removes or changes an offset request on record.
pub proof fn lemma_requests_kept_after(s: PlatformState, history: Seq<Operation>)
    ensures
        s.offset_requests.len() <= s.after(history).offset_requests.len(),
        forall|i: int|
            0 <= i < s.offset_requests.len() ==> #[trigger] s.after(history).offset_requests[i]
                == s.offset_requests[i],
    decreases history.len(),
{
    if history.len() > 0 {
        lemma_requests_kept_after(s, history.drop_last());
        lemma_requests_kept(s.after(history.drop_last()), history.last());
    }
}

/// Request identifiers are used once: after a requester's offset request
/// for a purchase is recorded under an identifier, and whatever operations
/// follow, a request by the same requester for the same purchase under the
/// same identifier fails with `OffsetRequestExists` whatever else it asks
/// for, the state stays as it is, and the record of the first request is
/// still the one on record.
pub proof fn law_request_id_used_once(
    s: PlatformState,
    first: RequestOffset,
    amount: u64,
    request_id: Seq<char>,
    now: i64,
    later: Seq<Operation>,
    again: RequestOffset,
    amount_again: u64,
    now_again: i64,
)
    requires
        s.inv(),
        s.request_offset_rejection(first, amount, request_id).is_none(),
        again.offset_requester == first.offset_requester,
        again.purchase == first.purchase,
    ensures
        ({
            let t = s.after_request_offset(first, amount, request_id, now).after(later);
            &&& t.request_offset_rejection(again, amount_again, request_id) == Some(
                ContractError::OffsetRequestExists,
            )
            &&& t.apply(
                Operation::RequestOffset {
                    context: again,
                    amount: amount_again,
                    request_id,
                    now: now_again,
                },
            ) == t
            &&& t.offset_request(first.offset_requester, first.purchase, request_id) == Some(
                first.request_record(amount, request_id, now),
            )
        }),
{
    let recorded = s.after_request_offset(first, amount, request_id, now);
    let t = recorded.after(later);
    let n = s.offset_requests.len() as int;
    lemma_request_offset_preserves(s, first, amount, request_id, now);
    lemma_after_preserves(recorded, later);
    lemma_requests_kept_after(recorded, later);
    lemma_offset_request_index(t, n);
}

/// A project can be sold out, and no further: a purchase of exactly what a
/// project has left leaves it with nothing; after that, every purchase of
/// one credit from it is rejected, and with `InsufficientTokens` where it is
/// to be stored under an unused address and presents the project's owner.
pub proof fn law_sold_out(
    s: PlatformState,
    context: PurchaseCarbonCredits,
    amount: u64,
    now: i64,
    next: PurchaseCarbonCredits,
)
    requires
        s.inv(),
        s.purchase_rejection(context, amount).is_none(),
        s.project(context.project).unwrap().remaining_supply == amount,
        next.project == context.project,
    ensures
        ({
            let t = s.after_purchase(context, amount, now);
            &&& t.project(context.project).is_some()
            &&& t.project(context.project).unwrap().remaining_supply == 0
            &&& t.purchase_rejection(next, 1).is_some()
            &&& !t.has_purchase(next.purchase) && next.project_owner == context.project_owner
                ==> t.purchase_rejection(next, 1) == Some(ContractError::InsufficientTokens)
        }),
{
    let t = s.after_purchase(context, amount, now);
    let i = s.project_index(context.project);
    lemma_purchase_preserves(s, context, amount, now);
    lemma_project_index(t, i);
}

/// A purchase can be retired in full, and no further. Where the buyer of a
/// purchase with something left asks to retire exactly what is left,
/// presents the purchase's project and receipt, holds the receipt, and uses
/// an identifier of at most 64 bytes, the request is accepted unless the
/// ledger's total would overflow; it leaves the purchase with nothing, and
/// asks for the old receipt to be burned and for no new receipt. Where the
/// buyer asks for more than is left, the request fails with
/// `InsufficientRemainingTokens`.
pub proof fn law_full_retirement(
    s: PlatformState,
    context: RequestOffset,
    amount: u64,
    request_id: Seq<char>,
    now: i64,
)
    requires
        s.inv(),
        s.ledger.is_some(),
        s.has_purchase(context.purchase),
        !s.has_offset_request(context.offset_requester, context.purchase, request_id),
        s.purchase(context.purchase).unwrap().buyer == context.offset_requester,
    ensures
        ({
            let purchase = s.purchase(context.purchase).unwrap();
            let t = s.after_request_offset(context, amount, request_id, now);
            &&& amount == purchase.remaining_amount && amount > 0 && context.project
                == purchase.project && context.original_nft_mint == purchase.nft_mint
                && context.holds_receipt() && request_id_bytes(request_id) <= REQUEST_ID_MAX_LEN
                && s.ledger.unwrap().total_credits_offset + amount <= u64::MAX ==> {
                &&& s.request_offset_rejection(context, amount, request_id).is_none()
                &&& t.purchase(context.purchase).is_some()
                &&& t.purchase(context.purchase).unwrap().remaining_amount == 0
                &&& context.intents(0) == seq![context.burn_intent()]
                &&& context.descriptor(0).is_none()
            }
            &&& amount > purchase.remaining_amount ==> s.request_offset_rejection(
                context,
                amount,
                request_id,
            ) == Some(ContractError::InsufficientRemainingTokens)
        }),
{
    let t = s.after_request_offset(context, amount, request_id, now);
    let i = s.purchase_index(context.purchase);
    if s.request_offset_rejection(context, amount, request_id).is_none() {
        lemma_request_offset_preserves(s, context, amount, request_id, now);
        lemma_purchase_index(t, i);
    }
}

} // verus!
