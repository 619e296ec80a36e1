//! Accepted values of the `fedauth` query-string key.
use vstd::prelude::*;

verus! {

/// Username + password credential, non-interactive.
pub const ACTIVE_DIRECTORY_PASSWORD: &'static str = "ActiveDirectoryPassword";

/// Integrated / device-flow authentication (interactive).
pub const ACTIVE_DIRECTORY_INTEGRATED: &'static str = "ActiveDirectoryIntegrated";

/// Managed Service Identity / Workload Identity.
pub const ACTIVE_DIRECTORY_MSI: &'static str = "ActiveDirectoryMSI";

/// Ambient environment credential chain.
pub const ACTIVE_DIRECTORY_ENVIRONMENT: &'static str = "ActiveDirectoryEnvironment";

} // verus!
