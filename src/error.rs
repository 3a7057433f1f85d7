use vstd::prelude::*;

verus! {

/// The ways in which a mark or unmark operation can fail.
#[derive(Clone, Copy, Debug, PartialEq, Eq, Structural)]
pub enum PgmtError {
    /// The caller is not a superuser.
    PrivilegeError,
    /// The tenant strategy is unset or unknown, or its literal is missing.
    ConfigError,
    /// The schema and table do not name a table.
    LookupError,
    /// The engine refused the policy statements: the table is already marked
    /// (on mark) or is not marked (on unmark).
    PolicyConflictError,
    /// The metadata row could not be written or removed.
    StoreError,
}

impl PgmtError {
    /// A short description of the error.
    pub fn message(&self) -> (r: &'static str) {
        match self {
            PgmtError::PrivilegeError => "only superusers can mark or unmark a table for tenant isolation",
            PgmtError::ConfigError => "pgmt.tenant_strategy or pgmt.tenant_value is not set to a valid value",
            PgmtError::LookupError => "the table does not exist",
            PgmtError::PolicyConflictError => "the tenant isolation policy could not be created or dropped",
            PgmtError::StoreError => "the tenant column metadata could not be written",
        }
    }
}

} // verus!
