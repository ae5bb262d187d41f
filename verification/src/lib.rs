//! Access-control core of a secure page-table monitor.
//!
//! Two decision procedures make up the security model:
//!
//! * [`dispatch`] parses a raw 64-bit call descriptor into a typed request,
//!   rejecting every descriptor with an unrecognised field;
//! * [`frames`] decides whether a domain may move a physical frame from one
//!   classification to another.
//!
//! [`data`] holds the bounded-spin ownership flag that guards shared monitor
//! state, and [`errors`] the values returned when a decision is a denial.

pub mod data;
pub mod dispatch;
pub mod errors;
pub mod frames;
