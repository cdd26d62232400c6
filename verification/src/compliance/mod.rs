//! Compliance: frameworks, data residency and the classification of data.

pub mod global_compliance;

pub use global_compliance::{
    ComplianceFramework, ComplianceRegistry, DataCategory, DataClassifier, DataResidencyEngine,
    DsrType,
    GdprEvaluator, LegalBasis, PolicyEngine, ResidencyRequirement, TransferMechanism,
};
