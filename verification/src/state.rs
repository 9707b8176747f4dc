//! The four kinds of stored record.

pub mod carbon_credits;
pub mod offset_request;
pub mod project;
pub mod purchase;

pub use carbon_credits::{Capability, CarbonCredits};
pub use offset_request::{OffsetRequest, OffsetRequestView, RequestStatus, REQUEST_ID_MAX_LEN};
pub use project::Project;
pub use purchase::Purchase;
