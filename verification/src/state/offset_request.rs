//! An offset request: the record of one retirement against a purchase.

use vstd::prelude::*;
use crate::address::Address;

verus! {

/// The longest request identifier that is stored, in bytes.
pub const REQUEST_ID_MAX_LEN: usize = 64;

/// Where a request stands. Retirement takes effect when the request is
/// recorded, so the status is informational: every request is recorded as
/// `Pending` and no operation moves it on.
#[derive(Clone, Copy, Debug, PartialEq, Eq, Structural)]
pub enum RequestStatus {
    Pending,
    Approved,
    Rejected,
}

/// The record of one retirement. A requester uses an identifier at most once
/// for a purchase.
#[derive(Clone, Debug, PartialEq, Eq)]
pub struct OffsetRequest {
    /// Who asked for the retirement: the buyer of the purchase.
    pub offset_requester: Address,
    /// The address of the purchase retired against.
    pub purchase: Address,
    /// The address of the project that the purchase was made from.
    pub project: Address,
    /// The credits retired.
    pub amount: u64,
    /// The requester's identifier for this request, at most 64 bytes.
    pub request_id: String,
    /// Where the request stands.
    pub status: RequestStatus,
    /// When the request was recorded.
    pub request_date: i64,
    /// When the request was processed; 0 while it is pending.
    pub processed_date: i64,
    /// Who processed the request, if anyone has.
    pub processor: Option<Address>,
}

/// An offset request as contracts speak of it: the identifier is the
/// sequence of its characters.
pub struct OffsetRequestView {
    pub offset_requester: Address,
    pub purchase: Address,
    pub project: Address,
    pub amount: u64,
    pub request_id: Seq<char>,
    pub status: RequestStatus,
    pub request_date: i64,
    pub processed_date: i64,
    pub processor: Option<Address>,
}

impl View for OffsetRequest {
    type V = OffsetRequestView;

    open spec fn view(&self) -> OffsetRequestView {
        OffsetRequestView {
            offset_requester: self.offset_requester,
            purchase: self.purchase,
            project: self.project,
            amount: self.amount,
            request_id: self.request_id@,
            status: self.status,
            request_date: self.request_date,
            processed_date: self.processed_date,
            processor: self.processor,
        }
    }
}

/// The number of bytes that an identifier takes when stored.
pub open spec fn request_id_bytes(request_id: Seq<char>) -> nat {
    vstd::utf8::encode_utf8(request_id).len()
}

impl OffsetRequestView {
    /// The request was made by `requester` for `purchase` under `request_id`.
    pub open spec fn has_key(&self, requester: Address, purchase: Address, request_id: Seq<char>) -> bool {
        self.offset_requester == requester && self.purchase == purchase && self.request_id
            == request_id
    }
}

impl OffsetRequest {
    /// A second copy of this record.
    pub fn duplicate(&self) -> (r: OffsetRequest)
        ensures
            r@ == self@,
    {
        OffsetRequest {
            offset_requester: self.offset_requester,
            purchase: self.purchase,
            project: self.project,
            amount: self.amount,
            request_id: self.request_id.clone(),
            status: self.status,
            request_date: self.request_date,
            processed_date: self.processed_date,
            processor: self.processor,
        }
    }

    /// Whether the request was made by `requester` for `purchase` under
    /// `request_id`.
    pub fn is_keyed(&self, requester: &Address, purchase: &Address, request_id: &String) -> (r:
        bool)
        ensures
            r == self@.has_key(*requester, *purchase, request_id@),
    {
        self.offset_requester == *requester && self.purchase == *purchase && self.request_id
            == *request_id
    }
}

} // verus!
