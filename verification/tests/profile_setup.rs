use lib::config::fields::{get_fields, proposed_value, ConfigField, FieldKind};
use lib::config::{
    auth_index, auth_label_options, default_sqlserver_config, profile_to_process, FieldValue,
    SqlserverDbConfig,
};

fn empty_config() -> SqlserverDbConfig<String> {
    SqlserverDbConfig {
        host: None,
        port: None,
        database: None,
        schema: None,
        user: None,
        password: None,
        authentication: None,
        instance: None,
        encrypt: None,
        trust_cert: None,
        connection_timeout: None,
        threads: None,
    }
}

fn text(s: &str) -> FieldValue<String> {
    FieldValue::String(s.to_string())
}

fn get_text(c: &SqlserverDbConfig<String>, name: &str) -> Option<String> {
    match c.get_field(name) {
        Some(FieldValue::String(s)) => Some(s),
        None => None,
        Some(other) => panic!("unexpected {other:?}"),
    }
}

#[test]
fn text_fields_read_back() {
    let mut c = empty_config();
    for name in ["host", "port", "database", "schema", "threads", "user", "password", "instance"] {
        c.set_field(name, text("value"));
        assert_eq!(get_text(&c, name), Some("value".to_string()), "{name}");
        assert!(c.is_field_set(name));
    }
    assert_eq!(c.host.as_deref(), Some("value"));
    assert_eq!(c.threads.as_deref(), Some("value"));
}

#[test]
fn empty_answers() {
    let mut c = empty_config();
    // Fields that need text ignore an empty answer.
    for name in ["port", "threads", "user", "user_adpw", "instance"] {
        c.set_field(name, text(""));
        assert_eq!(c.get_field(name).is_none(), true, "{name}");
        assert!(!c.is_field_set(name));
    }
    // The others keep it.
    for name in ["host", "database", "schema", "password", "password_adpw"] {
        c.set_field(name, text(""));
        assert_eq!(get_text(&c, name), Some(String::new()), "{name}");
    }
}

#[test]
fn entra_aliases_share_storage() {
    let mut c = empty_config();
    c.set_field("user_adpw", text("me@tenant"));
    c.set_field("password_adpw", text("pw"));
    assert_eq!(c.user.as_deref(), Some("me@tenant"));
    assert_eq!(c.password.as_deref(), Some("pw"));
    assert_eq!(get_text(&c, "user"), Some("me@tenant".to_string()));
    assert_eq!(get_text(&c, "password_adpw"), Some("pw".to_string()));
}

#[test]
fn auth_method_by_position() {
    let mut c = empty_config();
    assert!(!c.is_field_set("auth_method"));
    for (i, value) in ["windows", "sql", "ad_password", "ad_integrated", "ad_msi", "env"].iter().enumerate() {
        c.set_field("auth_method", FieldValue::Integer(i as i64));
        assert_eq!(c.authentication.as_deref(), Some(*value));
        assert!(matches!(c.get_field("auth_method"), Some(FieldValue::Integer(j)) if j == i as i64));
        assert!(c.is_field_set("auth_method"));
    }
    // Out-of-range positions and answers of the wrong kind are ignored.
    c.set_field("auth_method", FieldValue::Integer(6));
    c.set_field("auth_method", FieldValue::Integer(-1));
    c.set_field("auth_method", text("sql"));
    assert_eq!(c.authentication.as_deref(), Some("env"));
}

#[test]
fn unknown_stored_method_reads_as_unset() {
    let mut c = empty_config();
    c.authentication = Some("kerberos".to_string());
    assert!(c.get_field("auth_method").is_none());
    assert!(!c.is_field_set("auth_method"));
    c.authentication = Some("SQL".to_string());
    assert!(matches!(c.get_field("auth_method"), Some(FieldValue::Integer(1))));
}

#[test]
fn flags_and_unknown_fields() {
    let mut c = empty_config();
    c.set_field("encrypt", FieldValue::Boolean(false));
    c.set_field("trust_cert", FieldValue::Boolean(true));
    c.set_field("encrypt", text("true"));
    assert!(matches!(c.get_field("encrypt"), Some(FieldValue::Boolean(false))));
    assert!(matches!(c.get_field("trust_cert"), Some(FieldValue::Boolean(true))));
    c.set_field("nonsense", text("x"));
    assert!(c.get_field("nonsense").is_none());
    assert!(!c.is_field_set("nonsense"));
    c.set_field("host", FieldValue::Integer(3));
    assert!(c.host.is_none());
}

#[test]
fn auth_index_ignores_ascii_case() {
    assert_eq!(auth_index("windows"), Some(0));
    assert_eq!(auth_index("SQL"), Some(1));
    assert_eq!(auth_index("Ad_Password"), Some(2));
    assert_eq!(auth_index("AD_MSI"), Some(4));
    assert_eq!(auth_index("env"), Some(5));
    assert_eq!(auth_index("sql_password"), None);
    assert_eq!(auth_index(""), None);
}

#[test]
fn labels_in_prompt_order() {
    let labels = auth_label_options();
    assert_eq!(labels.len(), 6);
    assert_eq!(labels[0], "Windows Authentication (Kerberos / SSPI — on-prem, gMSA)");
    assert_eq!(labels[1], "SQL Authentication (username + password)");
    assert_eq!(labels[5], "Environment Credential (DefaultAzureCredential env vars)");
}

#[test]
fn default_profile() {
    let c = default_sqlserver_config();
    assert_eq!(c.port.as_deref(), Some("1433"));
    assert_eq!(c.schema.as_deref(), Some("dbo"));
    assert_eq!(c.authentication.as_deref(), Some("windows"));
    assert_eq!(c.encrypt, Some(true));
    assert_eq!(c.trust_cert, Some(false));
    assert_eq!(c.threads.as_deref(), Some("4"));
    assert!(c.host.is_none() && c.database.is_none() && c.user.is_none());
    assert!(matches!(c.get_field("auth_method"), Some(FieldValue::Integer(0))));
}

#[test]
fn setup_starts_from_existing_or_default() {
    let mut existing = empty_config();
    existing.host = Some("db.example".to_string());
    let c = profile_to_process(Some(&existing));
    assert_eq!(c.host.as_deref(), Some("db.example"));
    assert!(c.port.is_none());
    let c = profile_to_process(None);
    assert_eq!(c.port.as_deref(), Some("1433"));
    assert!(c.host.is_none());
}

#[test]
fn setup_questions() {
    let fields = get_fields();
    let names: Vec<&str> = fields.iter().map(|f| f.name.as_str()).collect();
    assert_eq!(
        names,
        vec![
            "host", "port", "database", "schema", "threads", "auth_method", "user", "password",
            "user_adpw", "password_adpw", "instance", "encrypt", "trust_cert"
        ]
    );
    assert!(matches!(&fields[1].kind, FieldKind::OptionalInput { default: Some(d) } if d == "1433"));
    match &fields[5].kind {
        FieldKind::Select { options, default } => {
            assert_eq!(options.len(), 6);
            assert_eq!(*default, 0);
        }
        other => panic!("unexpected {other:?}"),
    }
    assert!(matches!(&fields[6].condition, Some((f, FieldValue::Integer(1))) if f == "auth_method"));
    assert!(matches!(&fields[9].condition, Some((f, FieldValue::Integer(2))) if f == "auth_method"));
    assert!(matches!(&fields[7].kind, FieldKind::Password));
    assert!(matches!(&fields[12].kind, FieldKind::Confirm { default: false }));
    assert!(fields[0].condition.is_none());
}

#[test]
fn questions_apply_by_method() {
    let fields = get_fields();
    let mut c = default_sqlserver_config();
    assert!(fields[0].applies_to(&c));
    assert!(!fields[6].applies_to(&c));
    assert!(!fields[8].applies_to(&c));
    c.set_field("auth_method", FieldValue::Integer(1));
    assert!(fields[6].applies_to(&c) && fields[7].applies_to(&c));
    assert!(!fields[8].applies_to(&c));
    c.set_field("auth_method", FieldValue::Integer(2));
    assert!(fields[8].applies_to(&c) && fields[9].applies_to(&c));
    assert!(!fields[6].applies_to(&c));
}

#[test]
fn field_builders() {
    let f = ConfigField::input("x", "X?").when_field_equals("y", FieldValue::Boolean(true));
    assert_eq!(f.name, "x");
    assert_eq!(f.prompt, "X?");
    assert!(matches!(f.condition, Some((ref n, FieldValue::Boolean(true))) if n == "y"));
    let v = text("a");
    assert!(v.same(&v.copy()));
    assert!(!v.same(&text("b")));
    assert!(!v.same(&FieldValue::Integer(0)));
}

#[test]
fn typed_answers() {
    let fields = get_fields();
    let port = &fields[1];
    let method = &fields[5];
    let encrypt = &fields[11];
    let instance = &fields[10];
    // An empty answer keeps a current value, or takes the proposed default.
    assert!(port.answer_value(true, "").is_none());
    assert!(matches!(port.answer_value(false, ""), Some(FieldValue::String(ref d)) if d == "1433"));
    assert!(instance.answer_value(false, "").is_none());
    assert!(matches!(method.answer_value(false, ""), Some(FieldValue::Integer(0))));
    assert!(matches!(encrypt.answer_value(false, ""), Some(FieldValue::Boolean(true))));
    // Text questions store the text as typed.
    assert!(matches!(port.answer_value(true, " 1500 "), Some(FieldValue::String(ref s)) if s == " 1500 "));
    // Choices by decimal position.
    assert!(matches!(method.answer_value(true, "2"), Some(FieldValue::Integer(2))));
    assert!(matches!(method.answer_value(true, "0042"), Some(FieldValue::Integer(42))));
    assert!(matches!(method.answer_value(true, "9223372036854775807"), Some(FieldValue::Integer(i64::MAX))));
    assert!(method.answer_value(true, "9223372036854775808").is_none());
    assert!(method.answer_value(true, "-1").is_none());
    assert!(method.answer_value(true, " 1").is_none());
    assert!(method.answer_value(true, "x").is_none());
    // Yes/no in any ASCII case.
    for yes in ["y", "Y", "yes", "YeS"] {
        assert!(matches!(encrypt.answer_value(true, yes), Some(FieldValue::Boolean(true))), "{yes}");
    }
    for no in ["n", "N", "no", "NO"] {
        assert!(matches!(encrypt.answer_value(true, no), Some(FieldValue::Boolean(false))), "{no}");
    }
    assert!(encrypt.answer_value(true, "maybe").is_none());
    assert!(proposed_value(&fields[0].kind).is_none());
}
