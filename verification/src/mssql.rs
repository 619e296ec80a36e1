//! Query-string keys accepted by the SQL Server ADBC driver in a `mssql://` URI.
//!
//! URI format: `mssql://[host[:port]][/instance][?key=value&key=value...]`;
//! credentials are supplied separately, never in the URI.
use vstd::prelude::*;

pub mod fedauth;

verus! {

/// Target database name (`?database=...`).
pub const DATABASE: &'static str = "database";

/// Connection timeout in seconds; the space is written `+` in a query string.
pub const CONNECTION_TIMEOUT: &'static str = "connection timeout";

/// Application name reported to SQL Server.
pub const APP: &'static str = "app";

/// Whether to encrypt the connection (`true` | `false`, driver default `true`).
pub const ENCRYPT: &'static str = "encrypt";

/// Whether to skip TLS server certificate validation (driver default `false`).
pub const TRUST_SERVER_CERTIFICATE: &'static str = "trustservercertificate";

/// Enables Windows Authentication via SSPI; its only accepted value is [`SSPI`].
pub const INTEGRATED_SECURITY: &'static str = "integrated security";

/// The only accepted value for [`INTEGRATED_SECURITY`].
pub const SSPI: &'static str = "sspi";

/// Selects the Entra ID federated authentication method (values in [`fedauth`]).
pub const FEDAUTH: &'static str = "fedauth";

} // verus!
