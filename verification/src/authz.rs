//! Authorization for the control plane. The service asks an `Authorizer`
//! for the scope of each query; `TenantOnlyAuthorizer` enforces only the
//! tenant boundary: every caller acts within its own tenant.

pub mod actions;

use vstd::prelude::*;
use crate::error::DomainError;

verus! {

/// The rows a query may touch: those of one tenant.
#[derive(Debug, Clone, Copy, PartialEq, Eq, Structural)]
pub struct AccessScope {
    pub tenant_id: u128,
}

impl AccessScope {
    /// The scope of tenant `tenant_id`.
    pub fn for_tenant(tenant_id: u128) -> (r: AccessScope)
        ensures
            r.tenant_id == tenant_id,
    {
        AccessScope { tenant_id }
    }
}

/// Resolves an access decision into the scope applied to the backing
/// query, or `DomainError::Forbidden` when access is denied.
pub trait Authorizer {
    /// Authorize `action` on a file of `gts_file_type` (optionally a
    /// specific `file_id`) for a caller of tenant `subject_tenant_id`.
    fn authorize(
        &self,
        subject_tenant_id: u128,
        action: &str,
        gts_file_type: &str,
        file_id: Option<u128>,
    ) -> Result<AccessScope, DomainError>;
}

/// Enforces only the tenant boundary: any authenticated caller may act
/// within its own tenant, and cross-tenant access is impossible because the
/// scope is always the caller's tenant.
#[derive(Debug, Clone, Copy, PartialEq, Eq, Structural)]
pub struct TenantOnlyAuthorizer;

impl Default for TenantOnlyAuthorizer {
    fn default() -> (r: TenantOnlyAuthorizer)
        ensures
            r == TenantOnlyAuthorizer,
    {
        TenantOnlyAuthorizer
    }
}

impl Authorizer for TenantOnlyAuthorizer {
    fn authorize(
        &self,
        subject_tenant_id: u128,
        action: &str,
        gts_file_type: &str,
        file_id: Option<u128>,
    ) -> (r: Result<AccessScope, DomainError>)
        ensures
            r == Ok::<AccessScope, DomainError>(AccessScope { tenant_id: subject_tenant_id }),
    {
        Ok(AccessScope::for_tenant(subject_tenant_id))
    }
}

} // verus!
