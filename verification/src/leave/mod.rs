//! Leave: the kinds of leave and the states of a request.

pub mod models;

pub use models::{LeaveRequestStatus, StandardLeaveType};
