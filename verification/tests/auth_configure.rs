use lib::adapter_config::AdapterConfig;
use lib::auth::{ConnectionOptions, SQLServerAuth};

fn make_config(pairs: &[(&str, &str)]) -> AdapterConfig {
    AdapterConfig::new(
        pairs
            .iter()
            .map(|(k, v)| (k.to_string(), v.to_string()))
            .collect(),
    )
}

fn uri_value(builder: &ConnectionOptions) -> String {
    builder.uri().expect("uri set").to_string()
}

// --- SqlPassword (default) ---

#[test]
fn test_sql_password_defaults() {
    let config = make_config(&[
        ("host", "sqlserver.prod.internal"),
        ("database", "SimulationsAnalytics"),
        ("user", "svc_dbt"),
        ("password", "hunter2"),
    ]);

    let builder = SQLServerAuth
        .configure(&config)
        .expect("configure")
        .builder;

    let uri = uri_value(&builder);
    assert!(uri.contains("mssql://sqlserver.prod.internal:1433"));
    assert!(uri.contains("database=SimulationsAnalytics"));
    assert!(uri.contains("app=dbt"));
    // encrypt=false should NOT appear — default is true (omit)
    assert!(!uri.contains("encrypt=false"), "encrypt=false should be absent by default");
    // trustservercertificate=true should NOT appear — default is false (omit)
    assert!(!uri.contains("trustservercertificate=true"));
}

#[test]
fn test_sql_password_custom_port() {
    let config = make_config(&[
        ("host", "sqlserver.prod.internal"),
        ("port", "1434"),
        ("database", "SimulationsAnalytics"),
        ("user", "svc_dbt"),
        ("password", "hunter2"),
    ]);

    let builder = SQLServerAuth
        .configure(&config)
        .expect("configure")
        .builder;

    let uri = uri_value(&builder);
    assert!(uri.contains("mssql://sqlserver.prod.internal:1434"));
}

#[test]
fn test_sql_password_encrypt_disabled() {
    let config = make_config(&[
        ("host", "dev-sql01"),
        ("database", "TestDB"),
        ("user", "sa"),
        ("password", "Password1"),
        ("encrypt", "false"),
    ]);

    let builder = SQLServerAuth
        .configure(&config)
        .expect("configure")
        .builder;

    let uri = uri_value(&builder);
    assert!(uri.contains("encrypt=false"));
}

#[test]
fn test_sql_password_trust_cert() {
    let config = make_config(&[
        ("host", "dev-sql01"),
        ("database", "TestDB"),
        ("user", "sa"),
        ("password", "Password1"),
        ("trust_cert", "true"),
    ]);

    let builder = SQLServerAuth
        .configure(&config)
        .expect("configure")
        .builder;

    let uri = uri_value(&builder);
    assert!(uri.contains("trustservercertificate=true"));
}

#[test]
fn test_sql_password_named_instance() {
    let config = make_config(&[
        ("host", "sqlserver.prod.internal"),
        ("database", "SimulationsAnalytics"),
        ("user", "svc_dbt"),
        ("password", "hunter2"),
        ("instance", "MSSQLSERVER2022"),
    ]);

    let builder = SQLServerAuth
        .configure(&config)
        .expect("configure")
        .builder;

    let uri = uri_value(&builder);
    assert!(uri.contains("mssql://sqlserver.prod.internal:1433/MSSQLSERVER2022"));
}

#[test]
fn test_sql_password_connection_timeout() {
    let config = make_config(&[
        ("host", "sqlserver.prod.internal"),
        ("database", "SimulationsAnalytics"),
        ("user", "svc_dbt"),
        ("password", "hunter2"),
        ("connection_timeout", "30"),
    ]);

    let builder = SQLServerAuth
        .configure(&config)
        .expect("configure")
        .builder;

    let uri = uri_value(&builder);
    assert!(uri.contains("connection+timeout=30"));
}

// --- Windows Authentication ---

#[test]
fn test_windows_authentication() {
    let config = make_config(&[
        ("host", "sqlserver.fsi.internal"),
        ("database", "SimulationsAnalytics"),
        ("authentication", "windows"),
    ]);

    let builder = SQLServerAuth
        .configure(&config)
        .expect("configure")
        .builder;

    let uri = uri_value(&builder);
    assert!(uri.contains("mssql://sqlserver.fsi.internal:1433"));
    assert!(uri.contains("integrated+security=sspi"));
    assert!(uri.contains("app=dbt"));
}

#[test]
fn test_windows_authentication_named_instance() {
    let config = make_config(&[
        ("host", "sqlserver.fsi.internal"),
        ("database", "SimulationsAnalytics"),
        ("authentication", "windows"),
        ("instance", "PROD"),
    ]);

    let builder = SQLServerAuth
        .configure(&config)
        .expect("configure")
        .builder;

    let uri = uri_value(&builder);
    assert!(uri.contains("mssql://sqlserver.fsi.internal:1433/PROD"));
    assert!(uri.contains("integrated+security=sspi"));
}

// --- Entra ID ---

#[test]
fn test_active_directory_password() {
    let config = make_config(&[
        ("host", "azure-sql.database.windows.net"),
        ("database", "AnalyticsDB"),
        ("user", "svc-dbt@corp.onmicrosoft.com"),
        ("password", "SecretP@ss"),
        ("authentication", "ad_password"),
    ]);

    let builder = SQLServerAuth
        .configure(&config)
        .expect("configure")
        .builder;

    let uri = uri_value(&builder);
    assert!(uri.contains("fedauth=ActiveDirectoryPassword"));
}

#[test]
fn test_active_directory_msi() {
    let config = make_config(&[
        ("host", "azure-sql.database.windows.net"),
        ("database", "AnalyticsDB"),
        ("authentication", "ad_msi"),
    ]);

    let builder = SQLServerAuth
        .configure(&config)
        .expect("configure")
        .builder;

    let uri = uri_value(&builder);
    assert!(uri.contains("fedauth=ActiveDirectoryMSI"));
}

// --- Error cases ---

#[test]
fn test_missing_host_returns_error() {
    let config = make_config(&[
        ("database", "SimulationsAnalytics"),
        ("user", "svc_dbt"),
        ("password", "hunter2"),
    ]);
    let result = SQLServerAuth.configure(&config);
    assert!(result.is_err());
    assert!(result.unwrap_err().msg().contains("host"));
}

#[test]
fn test_missing_database_returns_error() {
    let config = make_config(&[
        ("host", "sqlserver.prod.internal"),
        ("user", "svc_dbt"),
        ("password", "hunter2"),
    ]);
    let result = SQLServerAuth.configure(&config);
    assert!(result.is_err());
    assert!(result.unwrap_err().msg().contains("database"));
}

#[test]
fn test_missing_user_for_sql_password_returns_error() {
    let config = make_config(&[
        ("host", "sqlserver.prod.internal"),
        ("database", "SimulationsAnalytics"),
        ("password", "hunter2"),
    ]);
    let result = SQLServerAuth.configure(&config);
    assert!(result.is_err());
    assert!(result.unwrap_err().msg().contains("user"));
}

#[test]
fn test_missing_password_for_sql_password_returns_error() {
    let config = make_config(&[
        ("host", "sqlserver.prod.internal"),
        ("database", "SimulationsAnalytics"),
        ("user", "svc_dbt"),
    ]);
    let result = SQLServerAuth.configure(&config);
    assert!(result.is_err());
    assert!(result.unwrap_err().msg().contains("password"));
}

#[test]
fn test_unknown_auth_method_returns_error() {
    let config = make_config(&[
        ("host", "sqlserver.prod.internal"),
        ("database", "SimulationsAnalytics"),
        ("authentication", "kerberos_wizard"),
    ]);
    let result = SQLServerAuth.configure(&config);
    assert!(result.is_err());
    assert!(result.unwrap_err().msg().contains("kerberos_wizard"));
}
