//! Who may do what.

pub mod rbac;

pub use rbac::{has_permission, AuthContext, Permission, PermissionSet, Role};
