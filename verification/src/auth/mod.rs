//! `SQLServerAuth`: from the fields of a SQL Server profile to the options
//! handed to the ADBC `mssql` driver.
//!
//! 1. `parse_auth` resolves the profile into a [`SqlServerAuthIR`], checking
//!    every required field;
//! 2. [`SqlServerAuthIR::apply`] builds the `mssql://host:port[/instance]?...`
//!    URI and, for the password-based methods, the username and password,
//!    which never go into the URI.
use vstd::prelude::*;

use crate::adapter_config::AdapterConfig;
use crate::text::opt_view;

pub mod uri;
pub mod parse;
pub mod laws;

pub use parse::{parse_auth, parse_auth_spec};
pub use uri::{apply_spec, fresh_options, ConnectionOptions, ConnectionOptionsView};

verus! {

/// The authentication methods the driver supports.
#[derive(Debug, Clone, Copy, PartialEq, Eq, Structural)]
pub enum AuthMethod {
    SqlPassword,
    WindowsAuthentication,
    ActiveDirectoryPassword,
    ActiveDirectoryIntegrated,
    ActiveDirectoryMsi,
    EnvironmentCredential,
}

/// A fully resolved SQL Server connection, one variant per authentication
/// method. Executable code holds `S = String`; contracts speak of the same
/// shape over `S = Seq<char>` (its view).
#[derive(Debug)]
pub enum SqlServerAuthIR<S> {
    /// SQL Server login; credentials passed as username and password.
    SqlPassword {
        user: S,
        password: S,
        host: S,
        port: S,
        database: S,
        instance: Option<S>,
        encrypt: bool,
        trust_server_certificate: bool,
        connection_timeout: Option<S>,
    },
    /// Windows Authentication via SSPI; the driver uses the process identity.
    WindowsAuthentication { host: S, port: S, database: S, instance: Option<S> },
    /// Entra ID username + password.
    ActiveDirectoryPassword { user: S, password: S, host: S, port: S, database: S },
    /// Entra ID integrated / device flow.
    ActiveDirectoryIntegrated { host: S, port: S, database: S },
    /// Entra ID managed identity.
    ActiveDirectoryMsi { host: S, port: S, database: S },
    /// Entra ID ambient environment credential chain.
    EnvironmentCredential { host: S, port: S, database: S },
}

impl View for SqlServerAuthIR<String> {
    type V = SqlServerAuthIR<Seq<char>>;

    open spec fn view(&self) -> SqlServerAuthIR<Seq<char>> {
        match self {
            SqlServerAuthIR::SqlPassword {
                user,
                password,
                host,
                port,
                database,
                instance,
                encrypt,
                trust_server_certificate,
                connection_timeout,
            } => SqlServerAuthIR::SqlPassword {
                user: user@,
                password: password@,
                host: host@,
                port: port@,
                database: database@,
                instance: opt_view(*instance),
                encrypt: *encrypt,
                trust_server_certificate: *trust_server_certificate,
                connection_timeout: opt_view(*connection_timeout),
            },
            SqlServerAuthIR::WindowsAuthentication { host, port, database, instance } =>
                SqlServerAuthIR::WindowsAuthentication {
                host: host@,
                port: port@,
                database: database@,
                instance: opt_view(*instance),
            },
            SqlServerAuthIR::ActiveDirectoryPassword { user, password, host, port, database } =>
                SqlServerAuthIR::ActiveDirectoryPassword {
                user: user@,
                password: password@,
                host: host@,
                port: port@,
                database: database@,
            },
            SqlServerAuthIR::ActiveDirectoryIntegrated { host, port, database } =>
                SqlServerAuthIR::ActiveDirectoryIntegrated {
                host: host@,
                port: port@,
                database: database@,
            },
            SqlServerAuthIR::ActiveDirectoryMsi { host, port, database } =>
                SqlServerAuthIR::ActiveDirectoryMsi { host: host@, port: port@, database: database@ },
            SqlServerAuthIR::EnvironmentCredential { host, port, database } =>
                SqlServerAuthIR::EnvironmentCredential {
                host: host@,
                port: port@,
                database: database@,
            },
        }
    }
}

/// Why a profile cannot be turned into a SQL Server connection.
#[derive(Debug)]
pub enum AuthError<S> {
    /// No `host` field.
    MissingHost,
    /// No `database` field.
    MissingDatabase,
    /// The method needs a `user` field and there is none.
    MissingUser(AuthMethod),
    /// The method needs a `password` field and there is none.
    MissingPassword(AuthMethod),
    /// The (lower-cased) `authentication` value names no known method.
    UnrecognizedMethod(S),
}

impl View for AuthError<String> {
    type V = AuthError<Seq<char>>;

    open spec fn view(&self) -> AuthError<Seq<char>> {
        match self {
            AuthError::MissingHost => AuthError::MissingHost,
            AuthError::MissingDatabase => AuthError::MissingDatabase,
            AuthError::MissingUser(m) => AuthError::MissingUser(*m),
            AuthError::MissingPassword(m) => AuthError::MissingPassword(*m),
            AuthError::UnrecognizedMethod(s) => AuthError::UnrecognizedMethod(s@),
        }
    }
}

/// The name a message gives an authentication method that needs credentials.
pub open spec fn credential_method_name(m: AuthMethod) -> Seq<char> {
    if m == AuthMethod::ActiveDirectoryPassword {
        "ActiveDirectoryPassword"@
    } else {
        "SqlPassword"@
    }
}

/// The message of an error.
pub open spec fn error_message(e: AuthError<Seq<char>>) -> Seq<char> {
    match e {
        AuthError::MissingHost => "SQL Server requires 'host' in profile configuration"@,
        AuthError::MissingDatabase => "SQL Server requires 'database' in profile configuration"@,
        AuthError::MissingUser(m) => "SQL Server "@ + credential_method_name(m)
            + " authentication requires 'user' in profile"@,
        AuthError::MissingPassword(m) => "SQL Server "@ + credential_method_name(m)
            + " authentication requires 'password' in profile"@,
        AuthError::UnrecognizedMethod(other) => "SQL Server: unrecognized authentication method '"@
            + other
            + "'. Valid values: sql, windows, ad_password, ad_integrated, ad_msi, env"@,
    }
}

impl AuthError<String> {
    /// The error's message.
    pub fn msg(&self) -> (r: String)
        ensures
            r@ == error_message(self@),
    {
        let mut r = String::new();
        match self {
            AuthError::MissingHost => {
                r.append("SQL Server requires 'host' in profile configuration");
            },
            AuthError::MissingDatabase => {
                r.append("SQL Server requires 'database' in profile configuration");
            },
            AuthError::MissingUser(m) => {
                r.append("SQL Server ");
                append_method_name(&mut r, *m);
                r.append(" authentication requires 'user' in profile");
            },
            AuthError::MissingPassword(m) => {
                r.append("SQL Server ");
                append_method_name(&mut r, *m);
                r.append(" authentication requires 'password' in profile");
            },
            AuthError::UnrecognizedMethod(other) => {
                r.append("SQL Server: unrecognized authentication method '");
                r.append(other.as_str());
                r.append("'. Valid values: sql, windows, ad_password, ad_integrated, ad_msi, env");
            },
        }
        r
    }
}

fn append_method_name(r: &mut String, m: AuthMethod)
    ensures
        final(r)@ == old(r)@ + credential_method_name(m),
{
    if m == AuthMethod::ActiveDirectoryPassword {
        r.append("ActiveDirectoryPassword");
    } else {
        r.append("SqlPassword");
    }
}

/// The database backends a connection can be made for.
#[derive(Debug, Clone, Copy, PartialEq, Eq, Structural)]
pub enum Backend {
    SQLServer,
}

/// What a successful configuration hands over: the driver options.
#[derive(Debug)]
pub struct AuthOutcome {
    pub builder: ConnectionOptions,
}

/// The SQL Server authentication provider; it holds no state and reads
/// everything from the profile at call time.
pub struct SQLServerAuth;

/// What [`SQLServerAuth::configure`] yields for a profile: the options of a
/// fresh SQL Server builder with the resolved connection applied, or the
/// error that resolving it gave.
pub open spec fn configure_result(cfg: Seq<(Seq<char>, Seq<char>)>) -> Result<
    ConnectionOptionsView,
    AuthError<Seq<char>>,
> {
    match parse_auth_spec(cfg) {
        Ok(ir) => Ok(apply_spec(ir, fresh_options(Backend::SQLServer))),
        Err(e) => Err(e),
    }
}

impl SQLServerAuth {
    /// The backend this provider configures.
    pub fn backend(&self) -> (b: Backend)
        ensures
            b == Backend::SQLServer,
    {
        Backend::SQLServer
    }

    /// Resolves the profile and builds the driver options for it.
    pub fn configure(&self, config: &AdapterConfig) -> (r: Result<AuthOutcome, AuthError<String>>)
        ensures
            match (r, configure_result(config@)) {
                (Ok(o), Ok(v)) => o.builder@ == v,
                (Err(e), Err(v)) => e@ == v,
                _ => false,
            },
    {
        let builder = ConnectionOptions::new(self.backend());
        let ir = match parse_auth(config) {
            Ok(ir) => ir,
            Err(e) => return Err(e),
        };
        let builder = ir.apply(builder);
        let builder = apply_connection_args(config, builder);
        Ok(AuthOutcome { builder })
    }
}

/// Connection-level options beyond the URI: there are none for SQL Server,
/// so the options come back unchanged.
pub fn apply_connection_args(config: &AdapterConfig, builder: ConnectionOptions) -> (r:
    ConnectionOptions)
    ensures
        r@ == builder@,
{
    builder
}

} // verus!
