//! Resolving the profile fields into a [`SqlServerAuthIR`].
//!
//! Fields read: `host` and `database` (required), `port` (default `1433`),
//! `instance`, `authentication` (default `sql`), and for the methods that
//! take them `user`, `password`, `encrypt` (default true), `trust_cert`
//! (default false) and `connection_timeout`.
use vstd::prelude::*;

use super::{AuthError, AuthMethod, SqlServerAuthIR};
use crate::adapter_config::{config_get, AdapterConfig};
use crate::text::{all_ascii, ascii_lowercase, owned, str_eq, to_lowercase, unicode_lowercase};

verus! {

/// The port used when the profile names none.
pub const DEFAULT_PORT: &'static str = "1433";

/// The method a (lower-case) `authentication` value selects; each method has
/// a short and a long spelling.
pub open spec fn auth_method_named(name: Seq<char>) -> Option<AuthMethod> {
    if name == "sql"@ || name == "sql_password"@ {
        Some(AuthMethod::SqlPassword)
    } else if name == "windows"@ || name == "windows_authentication"@ {
        Some(AuthMethod::WindowsAuthentication)
    } else if name == "ad_password"@ || name == "active_directory_password"@ {
        Some(AuthMethod::ActiveDirectoryPassword)
    } else if name == "ad_integrated"@ || name == "active_directory_integrated"@ {
        Some(AuthMethod::ActiveDirectoryIntegrated)
    } else if name == "ad_msi"@ || name == "active_directory_msi"@ {
        Some(AuthMethod::ActiveDirectoryMsi)
    } else if name == "env"@ || name == "environment_credential"@ {
        Some(AuthMethod::EnvironmentCredential)
    } else {
        None
    }
}

/// Encryption stays on unless `encrypt` is `false`, `0` or `False`.
pub open spec fn encrypt_setting(v: Option<Seq<char>>) -> bool {
    match v {
        Some(s) => s != "false"@ && s != "0"@ && s != "False"@,
        None => true,
    }
}

/// The certificate is trusted only when `trust_cert` is `true`, `1` or `True`.
pub open spec fn trust_setting(v: Option<Seq<char>>) -> bool {
    match v {
        Some(s) => s == "true"@ || s == "1"@ || s == "True"@,
        None => false,
    }
}

/// The connection a profile resolves to when its `authentication` value,
/// lower-cased, is `method`; or the first missing or wrong field, checked in
/// the order host, database, method, user, password.
pub open spec fn resolve_auth_spec(cfg: Seq<(Seq<char>, Seq<char>)>, method: Seq<char>) -> Result<
    SqlServerAuthIR<Seq<char>>,
    AuthError<Seq<char>>,
> {
    match config_get(cfg, "host"@) {
        None => Err(AuthError::MissingHost),
        Some(host) => match config_get(cfg, "database"@) {
            None => Err(AuthError::MissingDatabase),
            Some(database) => {
                let port = match config_get(cfg, "port"@) {
                    Some(p) => p,
                    None => DEFAULT_PORT@,
                };
                let instance = config_get(cfg, "instance"@);
                let user = config_get(cfg, "user"@);
                let password = config_get(cfg, "password"@);
                match auth_method_named(method) {
                    None => Err(AuthError::UnrecognizedMethod(method)),
                    Some(AuthMethod::SqlPassword) => match (user, password) {
                        (None, _) => Err(AuthError::MissingUser(AuthMethod::SqlPassword)),
                        (Some(_), None) => Err(AuthError::MissingPassword(AuthMethod::SqlPassword)),
                        (Some(user), Some(password)) => Ok(
                            SqlServerAuthIR::SqlPassword {
                                user,
                                password,
                                host,
                                port,
                                database,
                                instance,
                                encrypt: encrypt_setting(config_get(cfg, "encrypt"@)),
                                trust_server_certificate: trust_setting(
                                    config_get(cfg, "trust_cert"@),
                                ),
                                connection_timeout: config_get(cfg, "connection_timeout"@),
                            },
                        ),
                    },
                    Some(AuthMethod::WindowsAuthentication) => Ok(
                        SqlServerAuthIR::WindowsAuthentication { host, port, database, instance },
                    ),
                    Some(AuthMethod::ActiveDirectoryPassword) => match (user, password) {
                        (None, _) => Err(
                            AuthError::MissingUser(AuthMethod::ActiveDirectoryPassword),
                        ),
                        (Some(_), None) => Err(
                            AuthError::MissingPassword(AuthMethod::ActiveDirectoryPassword),
                        ),
                        (Some(user), Some(password)) => Ok(
                            SqlServerAuthIR::ActiveDirectoryPassword {
                                user,
                                password,
                                host,
                                port,
                                database,
                            },
                        ),
                    },
                    Some(AuthMethod::ActiveDirectoryIntegrated) => Ok(
                        SqlServerAuthIR::ActiveDirectoryIntegrated { host, port, database },
                    ),
                    Some(AuthMethod::ActiveDirectoryMsi) => Ok(
                        SqlServerAuthIR::ActiveDirectoryMsi { host, port, database },
                    ),
                    Some(AuthMethod::EnvironmentCredential) => Ok(
                        SqlServerAuthIR::EnvironmentCredential { host, port, database },
                    ),
                }
            },
        },
    }
}

/// The lower-case form of an `authentication` value: character by
/// character for ASCII text, by the Unicode case mapping otherwise.
pub open spec fn lowercase_method(s: Seq<char>) -> Seq<char> {
    if all_ascii(s) {
        ascii_lowercase(s)
    } else {
        unicode_lowercase(s)
    }
}

/// The method key a profile asks for: its `authentication` value lower-cased,
/// or `sql` when it has none.
pub open spec fn method_key(cfg: Seq<(Seq<char>, Seq<char>)>) -> Seq<char> {
    match config_get(cfg, "authentication"@) {
        Some(a) => lowercase_method(a),
        None => "sql"@,
    }
}

/// What `parse_auth` gives for a profile: the resolution under its method
/// key.
pub open spec fn parse_auth_spec(cfg: Seq<(Seq<char>, Seq<char>)>) -> Result<
    SqlServerAuthIR<Seq<char>>,
    AuthError<Seq<char>>,
> {
    resolve_auth_spec(cfg, method_key(cfg))
}

/// The method a lower-case `authentication` value names, if any.
pub fn auth_method_from_name(name: &str) -> (r: Option<AuthMethod>)
    ensures
        r == auth_method_named(name@),
{
    if str_eq(name, "sql") || str_eq(name, "sql_password") {
        Some(AuthMethod::SqlPassword)
    } else if str_eq(name, "windows") || str_eq(name, "windows_authentication") {
        Some(AuthMethod::WindowsAuthentication)
    } else if str_eq(name, "ad_password") || str_eq(name, "active_directory_password") {
        Some(AuthMethod::ActiveDirectoryPassword)
    } else if str_eq(name, "ad_integrated") || str_eq(name, "active_directory_integrated") {
        Some(AuthMethod::ActiveDirectoryIntegrated)
    } else if str_eq(name, "ad_msi") || str_eq(name, "active_directory_msi") {
        Some(AuthMethod::ActiveDirectoryMsi)
    } else if str_eq(name, "env") || str_eq(name, "environment_credential") {
        Some(AuthMethod::EnvironmentCredential)
    } else {
        None
    }
}

fn encrypt_from(v: Option<&str>) -> (r: bool)
    ensures
        r == encrypt_setting(
            match v {
                Some(s) => Some(s@),
                None => None,
            },
        ),
{
    match v {
        Some(s) => !str_eq(s, "false") && !str_eq(s, "0") && !str_eq(s, "False"),
        None => true,
    }
}

fn trust_from(v: Option<&str>) -> (r: bool)
    ensures
        r == trust_setting(
            match v {
                Some(s) => Some(s@),
                None => None,
            },
        ),
{
    match v {
        Some(s) => str_eq(s, "true") || str_eq(s, "1") || str_eq(s, "True"),
        None => false,
    }
}

/// Resolves the profile into a connection given the lower-cased
/// `authentication` value `method`.
pub fn parse_auth_with_method(config: &AdapterConfig, method: &str) -> (r: Result<
    SqlServerAuthIR<String>,
    AuthError<String>,
>)
    ensures
        match (r, resolve_auth_spec(config@, method@)) {
            (Ok(ir), Ok(v)) => ir@ == v,
            (Err(e), Err(v)) => e@ == v,
            _ => false,
        },
{
    let host = match config.get_string("host") {
        Some(h) => h,
        None => return Err(AuthError::MissingHost),
    };
    let database = match config.get_string("database") {
        Some(d) => d,
        None => return Err(AuthError::MissingDatabase),
    };
    let port = match config.get_string("port") {
        Some(p) => p,
        None => owned(DEFAULT_PORT),
    };
    let instance = config.get_string("instance");
    match auth_method_from_name(method) {
        None => Err(AuthError::UnrecognizedMethod(owned(method))),
        Some(AuthMethod::SqlPassword) => {
            let user = match config.get_string("user") {
                Some(u) => u,
                None => return Err(AuthError::MissingUser(AuthMethod::SqlPassword)),
            };
            let password = match config.get_string("password") {
                Some(p) => p,
                None => return Err(AuthError::MissingPassword(AuthMethod::SqlPassword)),
            };
            let encrypt = encrypt_from(config.get_str("encrypt"));
            let trust_server_certificate = trust_from(config.get_str("trust_cert"));
            let connection_timeout = config.get_string("connection_timeout");
            Ok(
                SqlServerAuthIR::SqlPassword {
                    user,
                    password,
                    host,
                    port,
                    database,
                    instance,
                    encrypt,
                    trust_server_certificate,
                    connection_timeout,
                },
            )
        },
        Some(AuthMethod::WindowsAuthentication) => Ok(
            SqlServerAuthIR::WindowsAuthentication { host, port, database, instance },
        ),
        Some(AuthMethod::ActiveDirectoryPassword) => {
            let user = match config.get_string("user") {
                Some(u) => u,
                None => return Err(AuthError::MissingUser(AuthMethod::ActiveDirectoryPassword)),
            };
            let password = match config.get_string("password") {
                Some(p) => p,
                None => return Err(
                    AuthError::MissingPassword(AuthMethod::ActiveDirectoryPassword),
                ),
            };
            Ok(SqlServerAuthIR::ActiveDirectoryPassword { user, password, host, port, database })
        },
        Some(AuthMethod::ActiveDirectoryIntegrated) => Ok(
            SqlServerAuthIR::ActiveDirectoryIntegrated { host, port, database },
        ),
        Some(AuthMethod::ActiveDirectoryMsi) => Ok(
            SqlServerAuthIR::ActiveDirectoryMsi { host, port, database },
        ),
        Some(AuthMethod::EnvironmentCredential) => Ok(
            SqlServerAuthIR::EnvironmentCredential { host, port, database },
        ),
    }
}

/// Resolves the profile into a connection: the `authentication` value is
/// lower-cased (`sql` is taken when there is none), then the fields it needs
/// are read.
pub fn parse_auth(config: &AdapterConfig) -> (r: Result<SqlServerAuthIR<String>, AuthError<String>>)
    ensures
        match (r, parse_auth_spec(config@)) {
            (Ok(ir), Ok(v)) => ir@ == v,
            (Err(e), Err(v)) => e@ == v,
            _ => false,
        },
{
    match config.get_str("authentication") {
        Some(a) => {
            let method = to_lowercase(a);
            parse_auth_with_method(config, method.as_str())
        },
        None => parse_auth_with_method(config, "sql"),
    }
}

} // verus!
