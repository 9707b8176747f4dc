//! A ledger of tokenized carbon credits: issuance by projects, sale to
//! buyers and retirement against purchases.
//!
//! The library decides and records; it moves no assets and reads no clock.
//! Each operation takes the accounts that a caller presents, the records it
//! touches and the time, and gives back the new records and the transfers
//! that the asset-transfer service is to carry out. An operation that fails
//! changes nothing.
//!
//! - [`state`] holds the four kinds of record: the global ledger, projects,
//!   purchases and offset requests.
//! - [`instructions`] holds the four operations on the records they touch.
//! - [`platform`] holds all records in memory and runs the operations on
//!   them; [`model`] says what each operation does to the records as a
//!   whole, and [`laws`] proves what holds of them after any history of
//!   operations.
//! - [`pricing`], [`assets`], [`text`], [`sums`], [`errors`] and
//!   [`address`] hold what the operations are made of.

pub mod address;
pub mod assets;
pub mod errors;
pub mod instructions;
pub mod laws;
pub mod model;
pub mod platform;
pub mod pricing;
pub mod state;
pub mod sums;
pub mod text;

pub use address::Address;
pub use assets::{Authority, Intent, Mint, ReceiptDescriptor, ReceiptDescriptorView, TokenAccount};
pub use errors::{ContractError, ErrorClass, ErrorCode};
pub use instructions::{
    CompletedPurchase, InitializeCarbonCreditsAccountConstraints,
    InitializeProjectAccountConstraints, InitializedProject, PurchaseCarbonCredits, RecordedOffset,
    RequestOffset,
};
pub use model::{Operation, PlatformState, ProjectAccount, PurchaseAccount};
pub use platform::{
    initialize_carbon_credits, initialize_project, purchase_carbon_credits, request_offset,
    Platform,
};
pub use pricing::{quote, Quote};
pub use state::{
    Capability, CarbonCredits, OffsetRequest, OffsetRequestView, Project, Purchase, RequestStatus,
    REQUEST_ID_MAX_LEN,
};
