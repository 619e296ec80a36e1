//! Interactive profile setup for SQL Server: the prompts to show, and how an
//! answer is stored into (and read back from) the profile.
use vstd::prelude::*;

use crate::text::opt_view;
use crate::text::{eq_ignore_ascii_case, eq_ignore_ascii_case_spec, owned, str_eq};

pub mod fields;
pub mod laws;


verus! {

/// A value given to, or read from, one setup field.
#[derive(Debug)]
pub enum FieldValue<S> {
    String(S),
    Integer(i64),
    Boolean(bool),
}

impl View for FieldValue<String> {
    type V = FieldValue<Seq<char>>;

    open spec fn view(&self) -> FieldValue<Seq<char>> {
        match self {
            FieldValue::String(s) => FieldValue::String(s@),
            FieldValue::Integer(i) => FieldValue::Integer(*i),
            FieldValue::Boolean(b) => FieldValue::Boolean(*b),
        }
    }
}

impl FieldValue<String> {
    /// A copy of the value.
    pub fn copy(&self) -> (r: Self)
        ensures
            r@ == self@,
    {
        match self {
            FieldValue::String(s) => FieldValue::String(s.clone()),
            FieldValue::Integer(i) => FieldValue::Integer(*i),
            FieldValue::Boolean(b) => FieldValue::Boolean(*b),
        }
    }

    /// Whether two values are the same.
    pub fn same(&self, other: &Self) -> (r: bool)
        ensures
            r == (self@ == other@),
    {
        match (self, other) {
            (FieldValue::String(a), FieldValue::String(b)) => str_eq(a.as_str(), b.as_str()),
            (FieldValue::Integer(a), FieldValue::Integer(b)) => *a == *b,
            (FieldValue::Boolean(a), FieldValue::Boolean(b)) => *a == *b,
            _ => false,
        }
    }
}

/// A SQL Server profile: every field optional. Executable code holds
/// `S = String`; contracts speak of `S = Seq<char>` (its view). `port`,
/// `threads` and `connection_timeout` hold the text of their value.
#[derive(Debug)]
pub struct SqlserverDbConfig<S> {
    pub host: Option<S>,
    pub port: Option<S>,
    pub database: Option<S>,
    pub schema: Option<S>,
    pub user: Option<S>,
    pub password: Option<S>,
    pub authentication: Option<S>,
    pub instance: Option<S>,
    pub encrypt: Option<bool>,
    pub trust_cert: Option<bool>,
    pub connection_timeout: Option<S>,
    pub threads: Option<S>,
}

impl View for SqlserverDbConfig<String> {
    type V = SqlserverDbConfig<Seq<char>>;

    open spec fn view(&self) -> SqlserverDbConfig<Seq<char>> {
        SqlserverDbConfig {
            host: opt_view(self.host),
            port: opt_view(self.port),
            database: opt_view(self.database),
            schema: opt_view(self.schema),
            user: opt_view(self.user),
            password: opt_view(self.password),
            authentication: opt_view(self.authentication),
            instance: opt_view(self.instance),
            encrypt: self.encrypt,
            trust_cert: self.trust_cert,
            connection_timeout: opt_view(self.connection_timeout),
            threads: opt_view(self.threads),
        }
    }
}

/// The number of authentication methods offered at setup.
pub const AUTH_METHOD_COUNT: usize = 6;

/// The `authentication` values offered at setup, in prompt order.
pub open spec fn auth_method_values() -> Seq<Seq<char>> {
    seq!["windows"@, "sql"@, "ad_password"@, "ad_integrated"@, "ad_msi"@, "env"@]
}

/// The label shown for each offered method, in prompt order.
pub open spec fn auth_method_labels() -> Seq<Seq<char>> {
    seq![
        "Windows Authentication (Kerberos / SSPI — on-prem, gMSA)"@,
        "SQL Authentication (username + password)"@,
        "Entra ID Password (username + password + client ID)"@,
        "Entra ID Integrated (DefaultAzureCredential chain)"@,
        "Entra ID Managed Identity (MSI / workload identity)"@,
        "Environment Credential (DefaultAzureCredential env vars)"@,
    ]
}

/// The `authentication` value of the offered method at position `i`.
pub fn auth_method_value(i: usize) -> (r: &'static str)
    requires
        i < AUTH_METHOD_COUNT,
    ensures
        r@ == auth_method_values()[i as int],
{
    match i {
        0 => "windows",
        1 => "sql",
        2 => "ad_password",
        3 => "ad_integrated",
        4 => "ad_msi",
        _ => "env",
    }
}

/// The label of the offered method at position `i`.
pub fn auth_method_label(i: usize) -> (r: &'static str)
    requires
        i < AUTH_METHOD_COUNT,
    ensures
        r@ == auth_method_labels()[i as int],
{
    match i {
        0 => "Windows Authentication (Kerberos / SSPI — on-prem, gMSA)",
        1 => "SQL Authentication (username + password)",
        2 => "Entra ID Password (username + password + client ID)",
        3 => "Entra ID Integrated (DefaultAzureCredential chain)",
        4 => "Entra ID Managed Identity (MSI / workload identity)",
        _ => "Environment Credential (DefaultAzureCredential env vars)",
    }
}

/// The position, from `i` on, of the first offered method whose value equals
/// `value` ignoring ASCII case.
pub open spec fn auth_index_from(value: Seq<char>, i: int) -> Option<i64>
    decreases AUTH_METHOD_COUNT - i,
{
    if i < 0 || i >= AUTH_METHOD_COUNT {
        None
    } else if eq_ignore_ascii_case_spec(auth_method_values()[i], value) {
        Some(i as i64)
    } else {
        auth_index_from(value, i + 1)
    }
}

/// The position of the first offered method whose value equals `value`
/// ignoring ASCII case.
pub open spec fn auth_index_spec(value: Seq<char>) -> Option<i64> {
    auth_index_from(value, 0)
}

/// The position of the offered method named `value` (ASCII case ignored).
pub fn auth_index(value: &str) -> (r: Option<i64>)
    ensures
        r == auth_index_spec(value@),
{
    let mut i: usize = 0;
    while i < AUTH_METHOD_COUNT
        invariant
            i <= AUTH_METHOD_COUNT,
            auth_index_spec(value@) == auth_index_from(value@, i as int),
        decreases AUTH_METHOD_COUNT - i,
    {
        if eq_ignore_ascii_case(auth_method_value(i), value) {
            return Some(i as i64);
        }
        i = i + 1;
    }
    None
}

/// The labels of the offered methods, in prompt order.
pub fn auth_label_options() -> (r: Vec<String>)
    ensures
        r@.len() == AUTH_METHOD_COUNT,
        forall|i: int| 0 <= i < AUTH_METHOD_COUNT ==> #[trigger] r@[i]@ == auth_method_labels()[i],
{
    let mut r: Vec<String> = Vec::new();
    let mut i: usize = 0;
    while i < AUTH_METHOD_COUNT
        invariant
            i <= AUTH_METHOD_COUNT,
            r@.len() == i,
            forall|j: int| 0 <= j < i ==> #[trigger] r@[j]@ == auth_method_labels()[j],
        decreases AUTH_METHOD_COUNT - i,
    {
        r.push(owned(auth_method_label(i)));
        i = i + 1;
    }
    r
}

/// The profile proposed when there is none yet: port 1433, schema `dbo`,
/// Windows authentication, encryption on, certificate not trusted, 4 threads.
pub open spec fn default_config_spec() -> SqlserverDbConfig<Seq<char>> {
    SqlserverDbConfig {
        host: None,
        port: Some("1433"@),
        database: None,
        schema: Some("dbo"@),
        user: None,
        password: None,
        authentication: Some("windows"@),
        instance: None,
        encrypt: Some(true),
        trust_cert: Some(false),
        connection_timeout: None,
        threads: Some("4"@),
    }
}

/// The profile proposed when there is none yet.
pub fn default_sqlserver_config() -> (r: SqlserverDbConfig<String>)
    ensures
        r@ == default_config_spec(),
{
    SqlserverDbConfig {
        host: None,
        port: Some(owned("1433")),
        database: None,
        schema: Some(owned("dbo")),
        user: None,
        password: None,
        authentication: Some(owned("windows")),
        instance: None,
        encrypt: Some(true),
        trust_cert: Some(false),
        connection_timeout: None,
        threads: Some(owned("4")),
    }
}

fn copy_opt(o: &Option<String>) -> (r: Option<String>)
    ensures
        opt_view(r) == opt_view(*o),
{
    match o {
        Some(s) => Some(s.clone()),
        None => None,
    }
}

impl SqlserverDbConfig<String> {
    /// A copy of the profile.
    pub fn copy(&self) -> (r: Self)
        ensures
            r@ == self@,
    {
        SqlserverDbConfig {
            host: copy_opt(&self.host),
            port: copy_opt(&self.port),
            database: copy_opt(&self.database),
            schema: copy_opt(&self.schema),
            user: copy_opt(&self.user),
            password: copy_opt(&self.password),
            authentication: copy_opt(&self.authentication),
            instance: copy_opt(&self.instance),
            encrypt: self.encrypt,
            trust_cert: self.trust_cert,
            connection_timeout: copy_opt(&self.connection_timeout),
            threads: copy_opt(&self.threads),
        }
    }
}

/// The profile the setup starts from: the existing one if there is one,
/// else the default.
pub fn profile_to_process(existing: Option<&SqlserverDbConfig<String>>) -> (r: SqlserverDbConfig<
    String,
>)
    ensures
        r@ == match existing {
            Some(c) => c@,
            None => default_config_spec(),
        },
{
    match existing {
        Some(c) => c.copy(),
        None => default_sqlserver_config(),
    }
}

/// A text answer that is kept only when it is not empty.
pub open spec fn nonempty_text(v: FieldValue<Seq<char>>) -> Option<Seq<char>> {
    match v {
        FieldValue::String(s) => if s.len() > 0 {
            Some(s)
        } else {
            None
        },
        _ => None,
    }
}

/// A text answer, kept even when empty.
pub open spec fn any_text(v: FieldValue<Seq<char>>) -> Option<Seq<char>> {
    match v {
        FieldValue::String(s) => Some(s),
        _ => None,
    }
}

/// The profile after the setup field `name` is answered with `v`. Answers of
/// the wrong kind, empty text for the fields that need some, an unknown
/// method position or an unknown field name leave the profile unchanged.
pub open spec fn set_field_spec(
    c: SqlserverDbConfig<Seq<char>>,
    name: Seq<char>,
    v: FieldValue<Seq<char>>,
) -> SqlserverDbConfig<Seq<char>> {
    if name == "host"@ {
        match any_text(v) {
            Some(s) => SqlserverDbConfig { host: Some(s), ..c },
            None => c,
        }
    } else if name == "port"@ {
        match nonempty_text(v) {
            Some(s) => SqlserverDbConfig { port: Some(s), ..c },
            None => c,
        }
    } else if name == "database"@ {
        match any_text(v) {
            Some(s) => SqlserverDbConfig { database: Some(s), ..c },
            None => c,
        }
    } else if name == "schema"@ {
        match any_text(v) {
            Some(s) => SqlserverDbConfig { schema: Some(s), ..c },
            None => c,
        }
    } else if name == "threads"@ {
        match nonempty_text(v) {
            Some(s) => SqlserverDbConfig { threads: Some(s), ..c },
            None => c,
        }
    } else if name == "auth_method"@ {
        match v {
            FieldValue::Integer(i) => if 0 <= i < AUTH_METHOD_COUNT {
                SqlserverDbConfig { authentication: Some(auth_method_values()[i as int]), ..c }
            } else {
                c
            },
            _ => c,
        }
    } else if name == "user"@ || name == "user_adpw"@ {
        match nonempty_text(v) {
            Some(s) => SqlserverDbConfig { user: Some(s), ..c },
            None => c,
        }
    } else if name == "password"@ || name == "password_adpw"@ {
        match any_text(v) {
            Some(s) => SqlserverDbConfig { password: Some(s), ..c },
            None => c,
        }
    } else if name == "instance"@ {
        match nonempty_text(v) {
            Some(s) => SqlserverDbConfig { instance: Some(s), ..c },
            None => c,
        }
    } else if name == "encrypt"@ {
        match v {
            FieldValue::Boolean(b) => SqlserverDbConfig { encrypt: Some(b), ..c },
            _ => c,
        }
    } else if name == "trust_cert"@ {
        match v {
            FieldValue::Boolean(b) => SqlserverDbConfig { trust_cert: Some(b), ..c },
            _ => c,
        }
    } else {
        c
    }
}

/// A text field read as a setup value.
pub open spec fn text_value(o: Option<Seq<char>>) -> Option<FieldValue<Seq<char>>> {
    match o {
        Some(s) => Some(FieldValue::String(s)),
        None => None,
    }
}

/// A flag read as a setup value.
pub open spec fn flag_value(o: Option<bool>) -> Option<FieldValue<Seq<char>>> {
    match o {
        Some(b) => Some(FieldValue::Boolean(b)),
        None => None,
    }
}

/// The current value of setup field `name`; `auth_method` reads as the
/// position of the stored method, and nothing when it is not an offered one.
pub open spec fn get_field_spec(c: SqlserverDbConfig<Seq<char>>, name: Seq<char>) -> Option<
    FieldValue<Seq<char>>,
> {
    if name == "host"@ {
        text_value(c.host)
    } else if name == "port"@ {
        text_value(c.port)
    } else if name == "database"@ {
        text_value(c.database)
    } else if name == "schema"@ {
        text_value(c.schema)
    } else if name == "threads"@ {
        text_value(c.threads)
    } else if name == "auth_method"@ {
        match c.authentication {
            Some(a) => match auth_index_spec(a) {
                Some(i) => Some(FieldValue::Integer(i)),
                None => None,
            },
            None => None,
        }
    } else if name == "user"@ || name == "user_adpw"@ {
        text_value(c.user)
    } else if name == "password"@ || name == "password_adpw"@ {
        text_value(c.password)
    } else if name == "instance"@ {
        text_value(c.instance)
    } else if name == "encrypt"@ {
        flag_value(c.encrypt)
    } else if name == "trust_cert"@ {
        flag_value(c.trust_cert)
    } else {
        None
    }
}

/// Whether setup field `name` holds a value; `auth_method` counts as set
/// only when the stored method is an offered one.
pub open spec fn is_field_set_spec(c: SqlserverDbConfig<Seq<char>>, name: Seq<char>) -> bool {
    if name == "host"@ {
        c.host is Some
    } else if name == "port"@ {
        c.port is Some
    } else if name == "database"@ {
        c.database is Some
    } else if name == "schema"@ {
        c.schema is Some
    } else if name == "threads"@ {
        c.threads is Some
    } else if name == "auth_method"@ {
        match c.authentication {
            Some(a) => auth_index_spec(a) is Some,
            None => false,
        }
    } else if name == "user"@ || name == "user_adpw"@ {
        c.user is Some
    } else if name == "password"@ || name == "password_adpw"@ {
        c.password is Some
    } else if name == "instance"@ {
        c.instance is Some
    } else if name == "encrypt"@ {
        c.encrypt is Some
    } else if name == "trust_cert"@ {
        c.trust_cert is Some
    } else {
        false
    }
}

fn text_of(o: &Option<String>) -> (r: Option<FieldValue<String>>)
    ensures
        match r {
            Some(v) => text_value(opt_view(*o)) == Some(v@),
            None => text_value(opt_view(*o)) is None,
        },
{
    match o {
        Some(s) => Some(FieldValue::String(s.clone())),
        None => None,
    }
}

fn flag_of(o: Option<bool>) -> (r: Option<FieldValue<String>>)
    ensures
        match r {
            Some(v) => flag_value(o) == Some(v@),
            None => flag_value(o) is None,
        },
{
    match o {
        Some(b) => Some(FieldValue::Boolean(b)),
        None => None,
    }
}

impl SqlserverDbConfig<String> {
    /// Stores the answer `value` to setup field `field_name`.
    pub fn set_field(&mut self, field_name: &str, value: FieldValue<String>)
        ensures
            final(self)@ == set_field_spec(old(self)@, field_name@, value@),
    {
        if str_eq(field_name, "host") {
            if let FieldValue::String(s) = value {
                self.host = Some(s);
            }
        } else if str_eq(field_name, "port") {
            if let FieldValue::String(s) = value {
                if !s.as_str().is_empty() {
                    self.port = Some(s);
                }
            }
        } else if str_eq(field_name, "database") {
            if let FieldValue::String(s) = value {
                self.database = Some(s);
            }
        } else if str_eq(field_name, "schema") {
            if let FieldValue::String(s) = value {
                self.schema = Some(s);
            }
        } else if str_eq(field_name, "threads") {
            if let FieldValue::String(s) = value {
                if !s.as_str().is_empty() {
                    self.threads = Some(s);
                }
            }
        } else if str_eq(field_name, "auth_method") {
            if let FieldValue::Integer(i) = value {
                if 0 <= i && i < AUTH_METHOD_COUNT as i64 {
                    self.authentication = Some(owned(auth_method_value(i as usize)));
                }
            }
        } else if str_eq(field_name, "user") || str_eq(field_name, "user_adpw") {
            if let FieldValue::String(s) = value {
                if !s.as_str().is_empty() {
                    self.user = Some(s);
                }
            }
        } else if str_eq(field_name, "password") || str_eq(field_name, "password_adpw") {
            if let FieldValue::String(s) = value {
                self.password = Some(s);
            }
        } else if str_eq(field_name, "instance") {
            if let FieldValue::String(s) = value {
                if !s.as_str().is_empty() {
                    self.instance = Some(s);
                }
            }
        } else if str_eq(field_name, "encrypt") {
            if let FieldValue::Boolean(b) = value {
                self.encrypt = Some(b);
            }
        } else if str_eq(field_name, "trust_cert") {
            if let FieldValue::Boolean(b) = value {
                self.trust_cert = Some(b);
            }
        }
    }

    /// The current value of setup field `field_name`.
    pub fn get_field(&self, field_name: &str) -> (r: Option<FieldValue<String>>)
        ensures
            match r {
                Some(v) => get_field_spec(self@, field_name@) == Some(v@),
                None => get_field_spec(self@, field_name@) is None,
            },
    {
        if str_eq(field_name, "host") {
            text_of(&self.host)
        } else if str_eq(field_name, "port") {
            text_of(&self.port)
        } else if str_eq(field_name, "database") {
            text_of(&self.database)
        } else if str_eq(field_name, "schema") {
            text_of(&self.schema)
        } else if str_eq(field_name, "threads") {
            text_of(&self.threads)
        } else if str_eq(field_name, "auth_method") {
            match &self.authentication {
                Some(a) => match auth_index(a.as_str()) {
                    Some(i) => Some(FieldValue::Integer(i)),
                    None => None,
                },
                None => None,
            }
        } else if str_eq(field_name, "user") || str_eq(field_name, "user_adpw") {
            text_of(&self.user)
        } else if str_eq(field_name, "password") || str_eq(field_name, "password_adpw") {
            text_of(&self.password)
        } else if str_eq(field_name, "instance") {
            text_of(&self.instance)
        } else if str_eq(field_name, "encrypt") {
            flag_of(self.encrypt)
        } else if str_eq(field_name, "trust_cert") {
            flag_of(self.trust_cert)
        } else {
            None
        }
    }

    /// Whether setup field `field_name` holds a value.
    pub fn is_field_set(&self, field_name: &str) -> (r: bool)
        ensures
            r == is_field_set_spec(self@, field_name@),
    {
        if str_eq(field_name, "host") {
            self.host.is_some()
        } else if str_eq(field_name, "port") {
            self.port.is_some()
        } else if str_eq(field_name, "database") {
            self.database.is_some()
        } else if str_eq(field_name, "schema") {
            self.schema.is_some()
        } else if str_eq(field_name, "threads") {
            self.threads.is_some()
        } else if str_eq(field_name, "auth_method") {
            match &self.authentication {
                Some(a) => auth_index(a.as_str()).is_some(),
                None => false,
            }
        } else if str_eq(field_name, "user") || str_eq(field_name, "user_adpw") {
            self.user.is_some()
        } else if str_eq(field_name, "password") || str_eq(field_name, "password_adpw") {
            self.password.is_some()
        } else if str_eq(field_name, "instance") {
            self.instance.is_some()
        } else if str_eq(field_name, "encrypt") {
            self.encrypt.is_some()
        } else if str_eq(field_name, "trust_cert") {
            self.trust_cert.is_some()
        } else {
            false
        }
    }
}

} // verus!
