//! Control plane for a distributed edge network, together with the
//! compliance, messaging and payroll reference data of the platform it
//! runs beside.

pub mod api;
pub mod auth;
pub mod clock;
pub mod compliance;
pub mod controller;
pub mod domain;
pub mod leave;
pub mod ops;
pub mod payroll;
pub mod sms;
pub mod table;
pub mod text;
