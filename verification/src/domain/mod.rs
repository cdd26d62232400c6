//! The domain model of the personnel records.

pub mod value_objects;

pub use value_objects::{EmployeeId, TaxId, TaxIdError, TaxIdType};
