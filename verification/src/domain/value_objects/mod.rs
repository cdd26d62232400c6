//! Values that are what they hold: identifiers and numbers with a format.

pub mod employee_id;
pub mod tax_id;

pub use employee_id::EmployeeId;
pub use tax_id::{TaxId, TaxIdError, TaxIdType};
