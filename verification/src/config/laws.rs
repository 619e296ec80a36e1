//! Properties of the setup fields that hold for every profile and answer.
use vstd::prelude::*;

use super::fields::{field_applies, method_position, setup_fields, FieldKindView};
use super::auth_method_labels;
use super::{
    auth_index_from, auth_index_spec, auth_method_values, default_config_spec, get_field_spec,
    is_field_set_spec, set_field_spec, FieldValue, SqlserverDbConfig, AUTH_METHOD_COUNT,
};
use crate::text::{ascii_fold, eq_ignore_ascii_case_spec};

verus! {

/// Each offered method is found at its own position: no two offered values
/// are equal ignoring ASCII case.
pub proof fn lemma_offered_method_position(i: int)
    requires
        0 <= i < AUTH_METHOD_COUNT,
    ensures
        auth_index_spec(auth_method_values()[i]) == Some(i as i64),
{
    reveal_strlit("windows");
    reveal_strlit("sql");
    reveal_strlit("ad_password");
    reveal_strlit("ad_integrated");
    reveal_strlit("ad_msi");
    reveal_strlit("env");
    let vs = auth_method_values();
    assert(vs[0].len() == 7);
    assert(vs[1].len() == 3);
    assert(vs[2].len() == 11);
    assert(vs[3].len() == 13);
    assert(vs[4].len() == 6);
    assert(vs[5].len() == 3);
    assert(ascii_fold(vs[1][0]) != ascii_fold(vs[5][0]));
    assert(!eq_ignore_ascii_case_spec(vs[1], vs[5]));
    assert(eq_ignore_ascii_case_spec(vs[i], vs[i]));
    reveal_with_fuel(auth_index_from, 7);
}

/// Every answer is either stored, and then read back exactly as given, or
/// ignored, leaving the profile unchanged.
pub proof fn law_answer_read_back_or_ignored(
    c: SqlserverDbConfig<Seq<char>>,
    name: Seq<char>,
    v: FieldValue<Seq<char>>,
)
    ensures
        get_field_spec(set_field_spec(c, name, v), name) == Some(v) || set_field_spec(c, name, v)
            == c,
{
    if name == "auth_method"@ {
        if let FieldValue::Integer(i) = v {
            if 0 <= i < AUTH_METHOD_COUNT {
                lemma_offered_method_position(i as int);
            }
        }
    }
}

/// A field counts as set exactly when reading it gives a value.
pub proof fn law_set_iff_readable(c: SqlserverDbConfig<Seq<char>>, name: Seq<char>)
    ensures
        is_field_set_spec(c, name) == (get_field_spec(c, name) is Some),
{
}

/// The method question proposes the default profile's method (Windows, at
/// position 0), and the default profile reads back that position.
pub proof fn law_default_method_proposed()
    ensures
        setup_fields()[5].name == "auth_method"@,
        setup_fields()[5].kind matches FieldKindView::Select { default, .. } && default == 0,
        get_field_spec(default_config_spec(), "auth_method"@) == Some(
            FieldValue::<Seq<char>>::Integer(0),
        ),
{
    lemma_offered_method_position(0);
    reveal_strlit("auth_method");
    reveal_strlit("host");
    reveal_strlit("port");
    reveal_strlit("database");
    reveal_strlit("schema");
    reveal_strlit("threads");
    assert("auth_method"@.len() == 11);
    assert("host"@.len() == 4);
    assert("port"@.len() == 4);
    assert("database"@.len() == 8);
    assert("schema"@.len() == 6);
    assert("threads"@.len() == 7);
}

/// The SQL-login credential questions are asked exactly when the `sql`
/// method is chosen, and the Entra-password ones exactly when `ad_password`
/// is.
pub proof fn law_credential_questions_follow_method(c: SqlserverDbConfig<Seq<char>>)
    ensures
        method_position("sql"@, 1) == 1,
        method_position("ad_password"@, 2) == 2,
        field_applies(setup_fields()[6], c) <==> get_field_spec(c, "auth_method"@) == Some(
            FieldValue::<Seq<char>>::Integer(1),
        ),
        field_applies(setup_fields()[7], c) <==> get_field_spec(c, "auth_method"@) == Some(
            FieldValue::<Seq<char>>::Integer(1),
        ),
        field_applies(setup_fields()[8], c) <==> get_field_spec(c, "auth_method"@) == Some(
            FieldValue::<Seq<char>>::Integer(2),
        ),
        field_applies(setup_fields()[9], c) <==> get_field_spec(c, "auth_method"@) == Some(
            FieldValue::<Seq<char>>::Integer(2),
        ),
        auth_method_values()[1] == "sql"@,
        auth_method_values()[2] == "ad_password"@,
{
    lemma_offered_method_position(1);
    lemma_offered_method_position(2);
}

proof fn lemma_field_names_distinct()
    ensures
        "host"@.len() == 4,
        "port"@.len() == 4,
        "database"@.len() == 8,
        "schema"@.len() == 6,
        "threads"@.len() == 7,
        "auth_method"@.len() == 11,
        "user"@.len() == 4,
        "user_adpw"@.len() == 9,
        "password"@.len() == 8,
        "password_adpw"@.len() == 13,
        "instance"@.len() == 8,
        "encrypt"@.len() == 7,
        "trust_cert"@.len() == 10,
        "host"@[0] != "port"@[0],
        "host"@[0] != "user"@[0],
        "port"@[0] != "user"@[0],
        "database"@[0] != "password"@[0],
        "database"@[0] != "instance"@[0],
        "password"@[0] != "instance"@[0],
        "threads"@[0] != "encrypt"@[0],
{
    reveal_strlit("host");
    assert("host"@.len() == 4);
    reveal_strlit("port");
    assert("port"@.len() == 4);
    reveal_strlit("database");
    assert("database"@.len() == 8);
    reveal_strlit("schema");
    assert("schema"@.len() == 6);
    reveal_strlit("threads");
    assert("threads"@.len() == 7);
    reveal_strlit("auth_method");
    assert("auth_method"@.len() == 11);
    reveal_strlit("user");
    assert("user"@.len() == 4);
    reveal_strlit("user_adpw");
    assert("user_adpw"@.len() == 9);
    reveal_strlit("password");
    assert("password"@.len() == 8);
    reveal_strlit("password_adpw");
    assert("password_adpw"@.len() == 13);
    reveal_strlit("instance");
    assert("instance"@.len() == 8);
    reveal_strlit("encrypt");
    assert("encrypt"@.len() == 7);
    reveal_strlit("trust_cert");
    assert("trust_cert"@.len() == 10);
    assert("host"@[0] != "port"@[0]);
    assert("host"@[0] != "user"@[0]);
    assert("port"@[0] != "user"@[0]);
    assert("database"@[0] != "password"@[0]);
    assert("database"@[0] != "instance"@[0]);
    assert("password"@[0] != "instance"@[0]);
    assert("threads"@[0] != "encrypt"@[0]);
}

/// Storing an answer sets exactly the profile field the question is about
/// to the answer given (text fields other than host, database, schema and
/// password only to a non-empty text), and leaves every other field alone.
pub proof fn law_answer_stored_in_its_field(
    c: SqlserverDbConfig<Seq<char>>,
    t: Seq<char>,
    b: bool,
    i: i64,
)
    ensures
        set_field_spec(c, "encrypt"@, FieldValue::Boolean(b)) == (SqlserverDbConfig {
            encrypt: Some(b),
            ..c
        }),
        set_field_spec(c, "trust_cert"@, FieldValue::Boolean(b)) == (SqlserverDbConfig {
            trust_cert: Some(b),
            ..c
        }),
        set_field_spec(c, "host"@, FieldValue::String(t)) == (SqlserverDbConfig {
            host: Some(t),
            ..c
        }),
        set_field_spec(c, "database"@, FieldValue::String(t)) == (SqlserverDbConfig {
            database: Some(t),
            ..c
        }),
        set_field_spec(c, "schema"@, FieldValue::String(t)) == (SqlserverDbConfig {
            schema: Some(t),
            ..c
        }),
        set_field_spec(c, "password"@, FieldValue::String(t)) == (SqlserverDbConfig {
            password: Some(t),
            ..c
        }),
        set_field_spec(c, "password_adpw"@, FieldValue::String(t)) == (SqlserverDbConfig {
            password: Some(t),
            ..c
        }),
        t.len() > 0 ==> set_field_spec(c, "port"@, FieldValue::String(t)) == (SqlserverDbConfig {
            port: Some(t),
            ..c
        }),
        t.len() > 0 ==> set_field_spec(c, "threads"@, FieldValue::String(t)) == (
        SqlserverDbConfig { threads: Some(t), ..c }),
        t.len() > 0 ==> set_field_spec(c, "user"@, FieldValue::String(t)) == (SqlserverDbConfig {
            user: Some(t),
            ..c
        }),
        t.len() > 0 ==> set_field_spec(c, "user_adpw"@, FieldValue::String(t)) == (
        SqlserverDbConfig { user: Some(t), ..c }),
        t.len() > 0 ==> set_field_spec(c, "instance"@, FieldValue::String(t)) == (
        SqlserverDbConfig { instance: Some(t), ..c }),
        t.len() == 0 ==> set_field_spec(c, "port"@, FieldValue::String(t)) == c,
        0 <= i < AUTH_METHOD_COUNT ==> set_field_spec(c, "auth_method"@, FieldValue::Integer(i))
            == (SqlserverDbConfig { authentication: Some(auth_method_values()[i as int]), ..c }),
{
    lemma_field_names_distinct();
}

/// Reading a field gives the value stored in the profile field it is about:
/// the flags as stored, the texts as stored.
pub proof fn law_field_read_from_profile(c: SqlserverDbConfig<Seq<char>>)
    ensures
        get_field_spec(c, "encrypt"@) == match c.encrypt {
            Some(x) => Some(FieldValue::<Seq<char>>::Boolean(x)),
            None => None,
        },
        get_field_spec(c, "trust_cert"@) == match c.trust_cert {
            Some(x) => Some(FieldValue::<Seq<char>>::Boolean(x)),
            None => None,
        },
        get_field_spec(c, "host"@) == match c.host {
            Some(x) => Some(FieldValue::<Seq<char>>::String(x)),
            None => None,
        },
        get_field_spec(c, "port"@) == match c.port {
            Some(x) => Some(FieldValue::<Seq<char>>::String(x)),
            None => None,
        },
        get_field_spec(c, "instance"@) == match c.instance {
            Some(x) => Some(FieldValue::<Seq<char>>::String(x)),
            None => None,
        },
        get_field_spec(c, "user_adpw"@) == get_field_spec(c, "user"@),
        get_field_spec(c, "password_adpw"@) == get_field_spec(c, "password"@),
{
    lemma_field_names_distinct();
}

/// The label shown for each `authentication` value.
pub open spec fn method_label(v: Seq<char>) -> Seq<char> {
    if v == "windows"@ {
        "Windows Authentication (Kerberos / SSPI — on-prem, gMSA)"@
    } else if v == "sql"@ {
        "SQL Authentication (username + password)"@
    } else if v == "ad_password"@ {
        "Entra ID Password (username + password + client ID)"@
    } else if v == "ad_integrated"@ {
        "Entra ID Integrated (DefaultAzureCredential chain)"@
    } else if v == "ad_msi"@ {
        "Entra ID Managed Identity (MSI / workload identity)"@
    } else if v == "env"@ {
        "Environment Credential (DefaultAzureCredential env vars)"@
    } else {
        Seq::empty()
    }
}

/// Each offered position shows the label of the method stored for it.
pub proof fn law_labels_match_methods(i: int)
    requires
        0 <= i < AUTH_METHOD_COUNT,
    ensures
        auth_method_labels()[i] == method_label(auth_method_values()[i]),
{
    reveal_strlit("windows");
    assert("windows"@.len() == 7);
    reveal_strlit("sql");
    assert("sql"@.len() == 3);
    reveal_strlit("ad_password");
    assert("ad_password"@.len() == 11);
    reveal_strlit("ad_integrated");
    assert("ad_integrated"@.len() == 13);
    reveal_strlit("ad_msi");
    assert("ad_msi"@.len() == 6);
    reveal_strlit("env");
    assert("env"@.len() == 3);
    assert("sql"@[0] != "env"@[0]);
}

/// Every question with a proposed answer proposes the default profile's
/// value: port, schema, threads, instance, the method's position, and the
/// two TLS flags.
pub proof fn law_questions_propose_default_profile()
    ensures
        setup_fields()[1].name == "port"@,
        setup_fields()[1].kind == (FieldKindView::OptionalInput {
            default: default_config_spec().port,
        }),
        setup_fields()[3].name == "schema"@,
        setup_fields()[3].kind == (FieldKindView::OptionalInput {
            default: default_config_spec().schema,
        }),
        setup_fields()[4].name == "threads"@,
        setup_fields()[4].kind == (FieldKindView::OptionalInput {
            default: default_config_spec().threads,
        }),
        setup_fields()[10].name == "instance"@,
        setup_fields()[10].kind == (FieldKindView::OptionalInput {
            default: default_config_spec().instance,
        }),
        setup_fields()[5].kind matches FieldKindView::Select { default, .. } && Some(
            default as i64,
        ) == auth_index_spec(default_config_spec().authentication.unwrap()),
        setup_fields()[11].name == "encrypt"@,
        setup_fields()[11].kind == (FieldKindView::Confirm {
            default: default_config_spec().encrypt.unwrap(),
        }),
        setup_fields()[12].name == "trust_cert"@,
        setup_fields()[12].kind == (FieldKindView::Confirm {
            default: default_config_spec().trust_cert.unwrap(),
        }),
{
    lemma_offered_method_position(0);
}

} // verus!
