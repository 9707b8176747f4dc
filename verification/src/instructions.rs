//! The four operations, each on the accounts that a caller presents and the
//! records that it touches.
//!
//! An operation checks before it changes anything: first who is calling,
//! then the inputs against the records, then the arithmetic. The first
//! check that fails gives the error, and the records stay as they were.

pub mod initialize_carbon_credits;
pub mod initialize_project;
pub mod purchase_carbon_credits;
pub mod request_offset;

pub use initialize_carbon_credits::InitializeCarbonCreditsAccountConstraints;
pub use initialize_project::{InitializeProjectAccountConstraints, InitializedProject};
pub use purchase_carbon_credits::{CompletedPurchase, PurchaseCarbonCredits};
pub use request_offset::{RecordedOffset, RequestOffset};
