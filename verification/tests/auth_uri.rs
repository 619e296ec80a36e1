use lib::adapter_config::AdapterConfig;
use lib::auth::parse::{auth_method_from_name, parse_auth, parse_auth_with_method};
use lib::auth::uri::{base_uri, instance_path, push_param};
use lib::auth::{
    apply_connection_args, AuthError, AuthMethod, Backend, ConnectionOptions, SQLServerAuth,
    SqlServerAuthIR,
};

fn make_config(pairs: &[(&str, &str)]) -> AdapterConfig {
    AdapterConfig::new(
        pairs
            .iter()
            .map(|(k, v)| (k.to_string(), v.to_string()))
            .collect(),
    )
}

fn configure(pairs: &[(&str, &str)]) -> ConnectionOptions {
    SQLServerAuth
        .configure(&make_config(pairs))
        .expect("configure")
        .builder
}

fn error_of(pairs: &[(&str, &str)]) -> AuthError<String> {
    match SQLServerAuth.configure(&make_config(pairs)) {
        Ok(_) => panic!("expected an error"),
        Err(e) => e,
    }
}

#[test]
fn sql_password_full_uri_and_credentials() {
    let b = configure(&[
        ("host", "h"),
        ("database", "db"),
        ("user", "u"),
        ("password", "p w"),
        ("encrypt", "false"),
        ("trust_cert", "true"),
        ("connection_timeout", "30"),
        ("instance", "INST"),
        ("port", "1500"),
    ]);
    assert_eq!(
        b.uri(),
        Some("mssql://h:1500/INST?database=db&encrypt=false&trustservercertificate=true&connection+timeout=30&app=dbt")
    );
    assert_eq!(b.username(), Some("u"));
    assert_eq!(b.password(), Some("p w"));
    assert_eq!(b.backend(), Backend::SQLServer);
}

#[test]
fn sql_password_default_uri_is_minimal() {
    let b = configure(&[("host", "h"), ("database", "db"), ("user", "u"), ("password", "p")]);
    assert_eq!(b.uri(), Some("mssql://h:1433?database=db&app=dbt"));
}

#[test]
fn password_never_in_uri() {
    let b = configure(&[
        ("host", "h"),
        ("database", "db"),
        ("user", "someone"),
        ("password", "s3cr3t-value"),
    ]);
    let uri = b.uri().unwrap();
    assert!(!uri.contains("s3cr3t-value"));
    assert!(!uri.contains("someone"));
}

#[test]
fn encrypt_and_trust_spellings() {
    for off in ["false", "0", "False"] {
        let b = configure(&[("host", "h"), ("database", "d"), ("user", "u"), ("password", "p"), ("encrypt", off)]);
        assert!(b.uri().unwrap().contains("encrypt=false"), "{off}");
    }
    for on in ["FALSE", "no", "true", ""] {
        let b = configure(&[("host", "h"), ("database", "d"), ("user", "u"), ("password", "p"), ("encrypt", on)]);
        assert!(!b.uri().unwrap().contains("encrypt="), "{on}");
    }
    for yes in ["true", "1", "True"] {
        let b = configure(&[("host", "h"), ("database", "d"), ("user", "u"), ("password", "p"), ("trust_cert", yes)]);
        assert!(b.uri().unwrap().contains("trustservercertificate=true"), "{yes}");
    }
    for no in ["TRUE", "yes", "false"] {
        let b = configure(&[("host", "h"), ("database", "d"), ("user", "u"), ("password", "p"), ("trust_cert", no)]);
        assert!(!b.uri().unwrap().contains("trustservercertificate"), "{no}");
    }
}

#[test]
fn windows_exact_uri_without_credentials() {
    let b = configure(&[
        ("host", "h"),
        ("database", "db"),
        ("authentication", "windows_authentication"),
        ("instance", "PROD"),
        ("user", "ignored"),
        ("password", "ignored"),
    ]);
    assert_eq!(b.uri(), Some("mssql://h:1433/PROD?database=db&integrated+security=sspi&app=dbt"));
    assert_eq!(b.username(), None);
    assert_eq!(b.password(), None);
}

#[test]
fn empty_instance_means_default_instance() {
    let b = configure(&[("host", "h"), ("database", "db"), ("authentication", "windows"), ("instance", "")]);
    assert_eq!(b.uri(), Some("mssql://h:1433?database=db&integrated+security=sspi&app=dbt"));
}

#[test]
fn entra_methods_ignore_instance() {
    let cases = [
        ("ad_password", "ActiveDirectoryPassword"),
        ("active_directory_password", "ActiveDirectoryPassword"),
        ("ad_integrated", "ActiveDirectoryIntegrated"),
        ("active_directory_integrated", "ActiveDirectoryIntegrated"),
        ("ad_msi", "ActiveDirectoryMSI"),
        ("active_directory_msi", "ActiveDirectoryMSI"),
        ("env", "ActiveDirectoryEnvironment"),
        ("environment_credential", "ActiveDirectoryEnvironment"),
    ];
    for (method, fedauth) in cases {
        let b = configure(&[
            ("host", "h"),
            ("database", "db"),
            ("authentication", method),
            ("instance", "PROD"),
            ("user", "u"),
            ("password", "p"),
        ]);
        let expected = format!("mssql://h:1433?database=db&fedauth={fedauth}&app=dbt");
        assert_eq!(b.uri(), Some(expected.as_str()), "{method}");
        if fedauth == "ActiveDirectoryPassword" {
            assert_eq!(b.username(), Some("u"));
            assert_eq!(b.password(), Some("p"));
        } else {
            assert_eq!(b.username(), None);
            assert_eq!(b.password(), None);
        }
    }
}

#[test]
fn method_name_is_lowercased() {
    let b = configure(&[("host", "h"), ("database", "db"), ("authentication", "WINDOWS")]);
    assert!(b.uri().unwrap().contains("integrated+security=sspi"));
    let b = configure(&[("host", "h"), ("database", "db"), ("authentication", "Ad_Msi")]);
    assert!(b.uri().unwrap().contains("fedauth=ActiveDirectoryMSI"));
}

#[test]
fn unknown_method_message_quotes_lowercased_name() {
    let e = error_of(&[("host", "h"), ("database", "db"), ("authentication", "Kerberos_Wizard")]);
    assert_eq!(
        e.msg(),
        "SQL Server: unrecognized authentication method 'kerberos_wizard'. Valid values: sql, windows, ad_password, ad_integrated, ad_msi, env"
    );
    assert!(matches!(e, AuthError::UnrecognizedMethod(ref m) if m == "kerberos_wizard"));
}

#[test]
fn error_messages_and_order() {
    assert_eq!(
        error_of(&[("authentication", "nonsense")]).msg(),
        "SQL Server requires 'host' in profile configuration"
    );
    assert_eq!(
        error_of(&[("host", "h"), ("authentication", "nonsense")]).msg(),
        "SQL Server requires 'database' in profile configuration"
    );
    assert_eq!(
        error_of(&[("host", "h"), ("database", "d")]).msg(),
        "SQL Server SqlPassword authentication requires 'user' in profile"
    );
    assert_eq!(
        error_of(&[("host", "h"), ("database", "d"), ("user", "u")]).msg(),
        "SQL Server SqlPassword authentication requires 'password' in profile"
    );
    let e = error_of(&[("host", "h"), ("database", "d"), ("authentication", "ad_password")]);
    assert!(matches!(e, AuthError::MissingUser(AuthMethod::ActiveDirectoryPassword)));
    assert_eq!(e.msg(), "SQL Server ActiveDirectoryPassword authentication requires 'user' in profile");
    let e = error_of(&[("host", "h"), ("database", "d"), ("authentication", "ad_password"), ("user", "u")]);
    assert_eq!(e.msg(), "SQL Server ActiveDirectoryPassword authentication requires 'password' in profile");
    assert!(matches!(error_of(&[("database", "d")]), AuthError::MissingHost));
    assert!(matches!(error_of(&[("host", "h")]), AuthError::MissingDatabase));
}

#[test]
fn parse_with_given_method_ignores_profile_method() {
    let config = make_config(&[("host", "h"), ("database", "d"), ("authentication", "sql")]);
    match parse_auth_with_method(&config, "windows") {
        Ok(SqlServerAuthIR::WindowsAuthentication { host, port, database, instance }) => {
            assert_eq!(host, "h");
            assert_eq!(port, "1433");
            assert_eq!(database, "d");
            assert_eq!(instance, None);
        }
        other => panic!("unexpected {other:?}"),
    }
    // The method handed over is taken as already lower-cased.
    assert!(matches!(
        parse_auth_with_method(&config, "WINDOWS"),
        Err(AuthError::UnrecognizedMethod(ref m)) if m == "WINDOWS"
    ));
}

#[test]
fn parse_auth_defaults_to_sql_login() {
    let config = make_config(&[("host", "h"), ("database", "d"), ("user", "u"), ("password", "")]);
    match parse_auth(&config) {
        Ok(SqlServerAuthIR::SqlPassword { user, password, encrypt, trust_server_certificate, connection_timeout, .. }) => {
            assert_eq!(user, "u");
            assert_eq!(password, "");
            assert!(encrypt);
            assert!(!trust_server_certificate);
            assert_eq!(connection_timeout, None);
        }
        other => panic!("unexpected {other:?}"),
    }
}

#[test]
fn auth_method_names() {
    assert_eq!(auth_method_from_name("sql"), Some(AuthMethod::SqlPassword));
    assert_eq!(auth_method_from_name("sql_password"), Some(AuthMethod::SqlPassword));
    assert_eq!(auth_method_from_name("windows"), Some(AuthMethod::WindowsAuthentication));
    assert_eq!(auth_method_from_name("env"), Some(AuthMethod::EnvironmentCredential));
    assert_eq!(auth_method_from_name("Sql"), None);
    assert_eq!(auth_method_from_name(""), None);
}

#[test]
fn later_entry_wins() {
    let b = configure(&[
        ("host", "first"),
        ("database", "db"),
        ("user", "u"),
        ("password", "p"),
        ("host", "second"),
    ]);
    assert_eq!(b.uri(), Some("mssql://second:1433?database=db&app=dbt"));
}

#[test]
fn uri_helpers() {
    assert_eq!(instance_path(None), "");
    assert_eq!(instance_path(Some("")), "");
    assert_eq!(instance_path(Some("X")), "/X");
    assert_eq!(base_uri("host", "1", Some("I")), "mssql://host:1/I");
    assert_eq!(base_uri("host", "1", None), "mssql://host:1");
    let mut q = String::new();
    push_param(&mut q, "a b c", "v w");
    assert_eq!(q, "?a+b+c=v w");
    push_param(&mut q, "k", "");
    assert_eq!(q, "?a+b+c=v w&k=");
}

#[test]
fn connection_args_leave_options_unchanged() {
    let config = make_config(&[("host", "h")]);
    let mut o = ConnectionOptions::new(Backend::SQLServer);
    o.with_parse_uri("mssql://x".to_string());
    o.with_username("u");
    let o = apply_connection_args(&config, o);
    assert_eq!(o.uri(), Some("mssql://x"));
    assert_eq!(o.username(), Some("u"));
    assert_eq!(o.password(), None);
}

#[test]
fn apply_keeps_builder_credentials_for_identity_methods() {
    let mut o = ConnectionOptions::new(Backend::SQLServer);
    o.with_username("kept");
    let ir = SqlServerAuthIR::ActiveDirectoryMsi {
        host: "h".to_string(),
        port: "1".to_string(),
        database: "d".to_string(),
    };
    let o = ir.apply(o);
    assert_eq!(o.username(), Some("kept"));
    assert_eq!(o.uri(), Some("mssql://h:1?database=d&fedauth=ActiveDirectoryMSI&app=dbt"));
}

#[test]
fn config_lookup() {
    let mut c = make_config(&[("a", "1")]);
    assert_eq!(c.get_str("a"), Some("1"));
    assert_eq!(c.get_str("b"), None);
    c.insert("a".to_string(), "2".to_string());
    assert_eq!(c.get_string("a"), Some("2".to_string()));
}

#[test]
fn missing_method_means_sql_login() {
    let config = make_config(&[("host", "h"), ("database", "d"), ("user", "u"), ("password", "p")]);
    assert!(matches!(parse_auth(&config), Ok(SqlServerAuthIR::SqlPassword { .. })));
    let config = make_config(&[("host", "h"), ("database", "d"), ("authentication", "Windows")]);
    assert!(matches!(parse_auth(&config), Ok(SqlServerAuthIR::WindowsAuthentication { .. })));
}

#[test]
fn several_params_have_one_question_mark() {
    let mut q = String::new();
    push_param(&mut q, "database", "d");
    push_param(&mut q, "integrated security", "sspi");
    push_param(&mut q, "app", "dbt");
    assert_eq!(q, "?database=d&integrated+security=sspi&app=dbt");
    assert_eq!(q.matches('?').count(), 1);
    assert_eq!(q.matches('&').count(), 2);
}
