//! Properties of profile resolution and of the connection URI that hold for
//! every profile and every connection.
use vstd::prelude::*;

use super::parse::{
    auth_method_named, encrypt_setting, method_key, parse_auth_spec, resolve_auth_spec,
    trust_setting, DEFAULT_PORT,
};
use super::AuthMethod;
use super::uri::{
    apply_spec, base_uri_spec, lemma_render_query_push, params_of, render_query, uri_spec,
    ConnectionOptionsView,
};
use super::{error_message, AuthError, SqlServerAuthIR};
use crate::adapter_config::config_get;
use crate::mssql;
use crate::text::{all_ascii, ascii_lowercase, plus_for_space};

verus! {

/// The connection with its username and password replaced by `user` and
/// `password`, for the methods that carry credentials.
pub open spec fn with_credentials(
    ir: SqlServerAuthIR<Seq<char>>,
    user: Seq<char>,
    password: Seq<char>,
) -> SqlServerAuthIR<Seq<char>> {
    match ir {
        SqlServerAuthIR::SqlPassword {
            host,
            port,
            database,
            instance,
            encrypt,
            trust_server_certificate,
            connection_timeout,
            ..
        } => SqlServerAuthIR::SqlPassword {
            user,
            password,
            host,
            port,
            database,
            instance,
            encrypt,
            trust_server_certificate,
            connection_timeout,
        },
        SqlServerAuthIR::ActiveDirectoryPassword { host, port, database, .. } =>
            SqlServerAuthIR::ActiveDirectoryPassword { user, password, host, port, database },
        _ => ir,
    }
}

/// Credentials never go into the URI: two connections that differ only in
/// their username and password have the same URI.
pub proof fn law_credentials_not_in_uri(
    ir: SqlServerAuthIR<Seq<char>>,
    user: Seq<char>,
    password: Seq<char>,
)
    ensures
        uri_spec(with_credentials(ir, user, password)) == uri_spec(ir),
{
}

/// The methods without credentials leave the username and password of the
/// driver options as they were; the SQL-login and Entra-password methods set
/// them to the profile's.
pub proof fn law_credentials_only_for_password_methods(
    ir: SqlServerAuthIR<Seq<char>>,
    opts: ConnectionOptionsView,
)
    ensures
        match ir {
            SqlServerAuthIR::SqlPassword { user, password, .. } => apply_spec(ir, opts).username
                == Some(user) && apply_spec(ir, opts).password == Some(password),
            SqlServerAuthIR::ActiveDirectoryPassword { user, password, .. } => apply_spec(
                ir,
                opts,
            ).username == Some(user) && apply_spec(ir, opts).password == Some(password),
            _ => apply_spec(ir, opts).username == opts.username && apply_spec(ir, opts).password
                == opts.password,
        },
        apply_spec(ir, opts).uri == Some(uri_spec(ir)),
        apply_spec(ir, opts).backend == opts.backend,
{
}

/// Whether some parameter of `params` has the key `key`.
pub open spec fn has_key(params: Seq<(Seq<char>, Seq<char>)>, key: Seq<char>) -> bool {
    exists|i: int| 0 <= i < params.len() && #[trigger] params[i].0 == key
}

proof fn lemma_keys_distinct()
    ensures
        mssql::ENCRYPT@ != mssql::DATABASE@,
        mssql::ENCRYPT@ != mssql::TRUST_SERVER_CERTIFICATE@,
        mssql::ENCRYPT@ != mssql::CONNECTION_TIMEOUT@,
        mssql::ENCRYPT@ != mssql::APP@,
        mssql::ENCRYPT@ != mssql::INTEGRATED_SECURITY@,
        mssql::ENCRYPT@ != mssql::FEDAUTH@,
        mssql::TRUST_SERVER_CERTIFICATE@ != mssql::DATABASE@,
        mssql::TRUST_SERVER_CERTIFICATE@ != mssql::CONNECTION_TIMEOUT@,
        mssql::TRUST_SERVER_CERTIFICATE@ != mssql::APP@,
        mssql::TRUST_SERVER_CERTIFICATE@ != mssql::INTEGRATED_SECURITY@,
        mssql::TRUST_SERVER_CERTIFICATE@ != mssql::FEDAUTH@,
{
    reveal_strlit("encrypt");
    reveal_strlit("database");
    reveal_strlit("trustservercertificate");
    reveal_strlit("connection timeout");
    reveal_strlit("app");
    reveal_strlit("integrated security");
    reveal_strlit("fedauth");
    assert(mssql::ENCRYPT@.len() != mssql::DATABASE@.len());
    assert(mssql::ENCRYPT@.len() != mssql::TRUST_SERVER_CERTIFICATE@.len());
    assert(mssql::ENCRYPT@.len() != mssql::CONNECTION_TIMEOUT@.len());
    assert(mssql::ENCRYPT@.len() != mssql::APP@.len());
    assert(mssql::ENCRYPT@.len() != mssql::INTEGRATED_SECURITY@.len());
    assert(mssql::ENCRYPT@[0] != mssql::FEDAUTH@[0]);
    assert(mssql::TRUST_SERVER_CERTIFICATE@.len() != mssql::DATABASE@.len());
    assert(mssql::TRUST_SERVER_CERTIFICATE@.len() != mssql::CONNECTION_TIMEOUT@.len());
    assert(mssql::TRUST_SERVER_CERTIFICATE@.len() != mssql::APP@.len());
    assert(mssql::TRUST_SERVER_CERTIFICATE@.len() != mssql::INTEGRATED_SECURITY@.len());
    assert(mssql::TRUST_SERVER_CERTIFICATE@.len() != mssql::FEDAUTH@.len());
}

/// The driver encrypts by default, so `encrypt=false` is sent exactly for a
/// SQL-login connection with encryption turned off, and never otherwise.
pub proof fn law_encrypt_sent_only_when_disabled(ir: SqlServerAuthIR<Seq<char>>)
    ensures
        has_key(params_of(ir), mssql::ENCRYPT@) <==> (ir matches SqlServerAuthIR::SqlPassword {
            encrypt,
            ..
        } && !encrypt),
        has_key(params_of(ir), mssql::ENCRYPT@) ==> params_of(ir).contains(
            (mssql::ENCRYPT@, "false"@),
        ),
{
    lemma_keys_distinct();
    let ps = params_of(ir);
    match ir {
        SqlServerAuthIR::SqlPassword { encrypt, .. } => {
            if !encrypt {
                assert(ps[1] == (mssql::ENCRYPT@, "false"@));
                assert(ps[1].0 == mssql::ENCRYPT@);
                assert(has_key(ps, mssql::ENCRYPT@));
            }
        },
        _ => {},
    }
    if has_key(ps, mssql::ENCRYPT@) {
        let i = choose|i: int| 0 <= i < ps.len() && #[trigger] ps[i].0 == mssql::ENCRYPT@;
        assert(ps[i] == (mssql::ENCRYPT@, "false"@));
    }
}

/// The driver validates certificates by default, so
/// `trustservercertificate=true` is sent exactly for a SQL-login connection
/// that trusts the certificate, and never otherwise.
pub proof fn law_trust_sent_only_when_trusted(ir: SqlServerAuthIR<Seq<char>>)
    ensures
        has_key(params_of(ir), mssql::TRUST_SERVER_CERTIFICATE@) <==> (
        ir matches SqlServerAuthIR::SqlPassword { trust_server_certificate, .. }
            && trust_server_certificate),
        has_key(params_of(ir), mssql::TRUST_SERVER_CERTIFICATE@) ==> params_of(ir).contains(
            (mssql::TRUST_SERVER_CERTIFICATE@, "true"@),
        ),
{
    lemma_keys_distinct();
    let ps = params_of(ir);
    match ir {
        SqlServerAuthIR::SqlPassword { encrypt, trust_server_certificate, .. } => {
            if trust_server_certificate {
                let i: int = if encrypt {
                    1
                } else {
                    2
                };
                assert(ps[i] == (mssql::TRUST_SERVER_CERTIFICATE@, "true"@));
                assert(ps[i].0 == mssql::TRUST_SERVER_CERTIFICATE@);
                assert(has_key(ps, mssql::TRUST_SERVER_CERTIFICATE@));
            }
        },
        _ => {},
    }
    if has_key(ps, mssql::TRUST_SERVER_CERTIFICATE@) {
        let i = choose|i: int|
            0 <= i < ps.len() && #[trigger] ps[i].0 == mssql::TRUST_SERVER_CERTIFICATE@;
        assert(ps[i] == (mssql::TRUST_SERVER_CERTIFICATE@, "true"@));
    }
}

/// Each further parameter only extends the query: the query of the first `n`
/// parameters is a prefix of the query of all of them.
pub proof fn law_query_extends(params: Seq<(Seq<char>, Seq<char>)>, n: int)
    requires
        0 <= n <= params.len(),
    ensures
        render_query(params.take(n)).len() <= render_query(params).len(),
        render_query(params).subrange(0, render_query(params.take(n)).len() as int)
            == render_query(params.take(n)),
    decreases params.len() - n,
{
    if n < params.len() {
        law_query_extends(params, n + 1);
        lemma_render_query_push(params.take(n), params[n]);
        assert(params.take(n + 1) =~= params.take(n).push(params[n]));
        let a = render_query(params.take(n));
        let b = render_query(params.take(n + 1));
        let c = render_query(params);
        assert(b.subrange(0, a.len() as int) =~= a);
        assert(c.subrange(0, a.len() as int) =~= b.subrange(0, b.len() as int).subrange(
            0,
            a.len() as int,
        ));
    } else {
        assert(params.take(n) =~= params);
    }
}

/// The database of a connection.
pub open spec fn database_of(ir: SqlServerAuthIR<Seq<char>>) -> Seq<char> {
    match ir {
        SqlServerAuthIR::SqlPassword { database, .. } => database,
        SqlServerAuthIR::WindowsAuthentication { database, .. } => database,
        SqlServerAuthIR::ActiveDirectoryPassword { database, .. } => database,
        SqlServerAuthIR::ActiveDirectoryIntegrated { database, .. } => database,
        SqlServerAuthIR::ActiveDirectoryMsi { database, .. } => database,
        SqlServerAuthIR::EnvironmentCredential { database, .. } => database,
    }
}

/// The part of the URI before the query string.
pub open spec fn base_of(ir: SqlServerAuthIR<Seq<char>>) -> Seq<char> {
    let u = uri_spec(ir);
    u.subrange(0, u.len() - render_query(params_of(ir)).len())
}

/// Every query string starts with the database, `?database=DB`, and ends
/// with the application name, `&app=dbt`.
pub proof fn law_query_starts_with_database_ends_with_app(ir: SqlServerAuthIR<Seq<char>>)
    ensures
        ({
            let q = render_query(params_of(ir));
            let head = "?database="@ + database_of(ir);
            &&& head.len() <= q.len()
            &&& q.subrange(0, head.len() as int) == head
            &&& q.len() >= 8
            &&& q.subrange(q.len() - 8, q.len() as int) == "&app=dbt"@
        }),
{
    reveal_strlit("database");
    reveal_strlit("app");
    reveal_strlit("?database=");
    reveal_strlit("&app=dbt");
    reveal_strlit("?");
    reveal_strlit("&");
    reveal_strlit("=");
    reveal_strlit("dbt");
    let ps = params_of(ir);
    assert(ps.len() >= 2);
    assert(ps[0] == (mssql::DATABASE@, database_of(ir)));
    assert(plus_for_space(mssql::DATABASE@) =~= mssql::DATABASE@);
    assert(plus_for_space(mssql::APP@) =~= mssql::APP@);
    law_query_extends(ps, 1);
    assert(ps.take(1) =~= seq![].push(ps[0]));
    lemma_render_query_push(seq![], ps[0]);
    assert(render_query(ps.take(1)) =~= "?database="@ + database_of(ir));
    let init = ps.drop_last();
    assert(ps =~= init.push(ps.last()));
    assert(ps.last() == (mssql::APP@, "dbt"@));
    lemma_render_query_push(init, ps.last());
    law_query_extends(init, 1);
    assert(init.take(1) =~= seq![].push(init[0]));
    lemma_render_query_push(seq![], init[0]);
    assert(render_query(init).len() > 0);
    let q = render_query(ps);
    assert(q =~= render_query(init) + "&"@ + "app"@ + "="@ + "dbt"@);
    assert(q.subrange(q.len() - 8, q.len() as int) =~= "&app=dbt"@);
}

/// The URI is the base `mssql://host:port[/instance]` followed by the query:
/// the instance path only for the SQL-login and Windows methods, and the
/// port being the profile's.
pub proof fn law_uri_base(ir: SqlServerAuthIR<Seq<char>>)
    ensures
        uri_spec(ir) == base_of(ir) + render_query(params_of(ir)),
        match ir {
            SqlServerAuthIR::SqlPassword { host, port, instance, .. } => base_of(ir)
                == base_uri_spec(host, port, instance),
            SqlServerAuthIR::WindowsAuthentication { host, port, instance, .. } => base_of(ir)
                == base_uri_spec(host, port, instance),
            SqlServerAuthIR::ActiveDirectoryPassword { host, port, .. } => base_of(ir)
                == base_uri_spec(host, port, None),
            SqlServerAuthIR::ActiveDirectoryIntegrated { host, port, .. } => base_of(ir)
                == base_uri_spec(host, port, None),
            SqlServerAuthIR::ActiveDirectoryMsi { host, port, .. } => base_of(ir) == base_uri_spec(
                host,
                port,
                None,
            ),
            SqlServerAuthIR::EnvironmentCredential { host, port, .. } => base_of(ir)
                == base_uri_spec(host, port, None),
        },
{
    let q = render_query(params_of(ir));
    let u = uri_spec(ir);
    let b = u.subrange(0, u.len() - q.len());
    match ir {
        SqlServerAuthIR::SqlPassword { host, port, instance, .. } => {
            assert(b =~= base_uri_spec(host, port, instance));
        },
        SqlServerAuthIR::WindowsAuthentication { host, port, instance, .. } => {
            assert(b =~= base_uri_spec(host, port, instance));
        },
        SqlServerAuthIR::ActiveDirectoryPassword { host, port, .. } => {
            assert(b =~= base_uri_spec(host, port, None));
        },
        SqlServerAuthIR::ActiveDirectoryIntegrated { host, port, .. } => {
            assert(b =~= base_uri_spec(host, port, None));
        },
        SqlServerAuthIR::ActiveDirectoryMsi { host, port, .. } => {
            assert(b =~= base_uri_spec(host, port, None));
        },
        SqlServerAuthIR::EnvironmentCredential { host, port, .. } => {
            assert(b =~= base_uri_spec(host, port, None));
        },
    }
    assert(u =~= b + q);
}

/// The host, database and port of a resolved connection.
pub open spec fn endpoint_of(ir: SqlServerAuthIR<Seq<char>>) -> (Seq<char>, Seq<char>, Seq<char>) {
    match ir {
        SqlServerAuthIR::SqlPassword { host, database, port, .. } => (host, database, port),
        SqlServerAuthIR::WindowsAuthentication { host, database, port, .. } => (
            host,
            database,
            port,
        ),
        SqlServerAuthIR::ActiveDirectoryPassword { host, database, port, .. } => (
            host,
            database,
            port,
        ),
        SqlServerAuthIR::ActiveDirectoryIntegrated { host, database, port } => (
            host,
            database,
            port,
        ),
        SqlServerAuthIR::ActiveDirectoryMsi { host, database, port } => (host, database, port),
        SqlServerAuthIR::EnvironmentCredential { host, database, port } => (host, database, port),
    }
}

/// `host` and `database` are required whatever the method: without a host
/// the answer is the missing-host error, with a host but no database the
/// missing-database error; a resolved connection carries the profile's host
/// and database, and its port or 1433 when it names none.
pub proof fn law_host_and_database_required(
    cfg: Seq<(Seq<char>, Seq<char>)>,
    method: Seq<char>,
)
    ensures
        config_get(cfg, "host"@) is None ==> resolve_auth_spec(cfg, method) == Err::<
            SqlServerAuthIR<Seq<char>>,
            AuthError<Seq<char>>,
        >(AuthError::MissingHost),
        config_get(cfg, "host"@) is Some && config_get(cfg, "database"@) is None
            ==> resolve_auth_spec(cfg, method) == Err::<
            SqlServerAuthIR<Seq<char>>,
            AuthError<Seq<char>>,
        >(AuthError::MissingDatabase),
        resolve_auth_spec(cfg, method) matches Ok(ir) ==> {
            &&& config_get(cfg, "host"@) == Some(endpoint_of(ir).0)
            &&& config_get(cfg, "database"@) == Some(endpoint_of(ir).1)
            &&& endpoint_of(ir).2 == match config_get(cfg, "port"@) {
                Some(p) => p,
                None => DEFAULT_PORT@,
            }
        },
{
}

/// The short and long spelling of each method select the same method.
pub proof fn law_method_aliases()
    ensures
        auth_method_named("sql"@) == auth_method_named("sql_password"@),
        auth_method_named("windows"@) == auth_method_named("windows_authentication"@),
        auth_method_named("ad_password"@) == auth_method_named("active_directory_password"@),
        auth_method_named("ad_integrated"@) == auth_method_named(
            "active_directory_integrated"@,
        ),
        auth_method_named("ad_msi"@) == auth_method_named("active_directory_msi"@),
        auth_method_named("env"@) == auth_method_named("environment_credential"@),
        auth_method_named("env"@) is Some,
{
    reveal_strlit("sql");
    assert("sql"@.len() == 3);
    reveal_strlit("sql_password");
    assert("sql_password"@.len() == 12);
    reveal_strlit("windows");
    assert("windows"@.len() == 7);
    reveal_strlit("windows_authentication");
    assert("windows_authentication"@.len() == 22);
    reveal_strlit("ad_password");
    assert("ad_password"@.len() == 11);
    reveal_strlit("active_directory_password");
    assert("active_directory_password"@.len() == 25);
    reveal_strlit("ad_integrated");
    assert("ad_integrated"@.len() == 13);
    reveal_strlit("active_directory_integrated");
    assert("active_directory_integrated"@.len() == 27);
    reveal_strlit("ad_msi");
    assert("ad_msi"@.len() == 6);
    reveal_strlit("active_directory_msi");
    assert("active_directory_msi"@.len() == 20);
    reveal_strlit("env");
    assert("env"@.len() == 3);
    assert("env"@[0] != "sql"@[0]);
    reveal_strlit("environment_credential");
    assert("environment_credential"@.len() == 22);
    assert("environment_credential"@[0] != "windows_authentication"@[0]);
}

/// A profile with a host and a database whose method names no known one is
/// refused with an error whose message quotes that method.
pub proof fn law_unknown_method_is_named(cfg: Seq<(Seq<char>, Seq<char>)>, method: Seq<char>)
    requires
        config_get(cfg, "host"@) is Some,
        config_get(cfg, "database"@) is Some,
        auth_method_named(method) is None,
    ensures
        resolve_auth_spec(cfg, method) == Err::<SqlServerAuthIR<Seq<char>>, AuthError<Seq<char>>>(
            AuthError::UnrecognizedMethod(method),
        ),
        ({
            let m = error_message(AuthError::UnrecognizedMethod(method));
            let start = "SQL Server: unrecognized authentication method '"@.len();
            m.subrange(start as int, (start + method.len()) as int) == method
        }),
{
    let start = "SQL Server: unrecognized authentication method '"@.len();
    let m = error_message(AuthError::<Seq<char>>::UnrecognizedMethod(method));
    assert(m.subrange(start as int, (start + method.len()) as int) =~= method);
}

/// A profile without an `authentication` value resolves as a SQL login, and
/// an ASCII `authentication` value selects its method whatever the case of
/// its letters.
pub proof fn law_method_default_and_ascii_case(cfg: Seq<(Seq<char>, Seq<char>)>)
    ensures
        config_get(cfg, "authentication"@) is None ==> parse_auth_spec(cfg) == resolve_auth_spec(
            cfg,
            "sql"@,
        ) && auth_method_named(method_key(cfg)) == Some(AuthMethod::SqlPassword),
        match config_get(cfg, "authentication"@) {
            Some(a) => all_ascii(a) ==> method_key(cfg) == ascii_lowercase(a),
            None => true,
        },
{
}

/// The number of times `c` occurs in `s`.
pub open spec fn count_char(s: Seq<char>, c: char) -> nat
    decreases s.len(),
{
    if s.len() == 0 {
        0
    } else {
        count_char(s.drop_last(), c) + if s.last() == c {
            1nat
        } else {
            0nat
        }
    }
}

/// Whether `c` does not occur in `s`.
pub open spec fn free_of(s: Seq<char>, c: char) -> bool {
    forall|i: int| 0 <= i < s.len() ==> s[i] != c
}

proof fn lemma_count_concat(a: Seq<char>, b: Seq<char>, c: char)
    ensures
        count_char(a + b, c) == count_char(a, c) + count_char(b, c),
    decreases b.len(),
{
    if b.len() == 0 {
        assert(a + b =~= a);
    } else {
        lemma_count_concat(a, b.drop_last(), c);
        assert((a + b).drop_last() =~= a + b.drop_last());
    }
}

proof fn lemma_count_free(s: Seq<char>, c: char)
    requires
        free_of(s, c),
    ensures
        count_char(s, c) == 0,
    decreases s.len(),
{
    if s.len() > 0 {
        lemma_count_free(s.drop_last(), c);
    }
}

/// The text one parameter adds to a query: `?` before the first, `&` before
/// the others, the key with spaces as `+`, `=`, the value.
pub open spec fn param_text(first: bool, p: (Seq<char>, Seq<char>)) -> Seq<char> {
    (if first {
        "?"@
    } else {
        "&"@
    }) + plus_for_space(p.0) + "="@ + p.1
}

/// The texts of all parameters, one after the other.
pub open spec fn joined_params(params: Seq<(Seq<char>, Seq<char>)>) -> Seq<char>
    decreases params.len(),
{
    if params.len() == 0 {
        Seq::empty()
    } else {
        joined_params(params.drop_last()) + param_text(params.len() == 1, params.last())
    }
}

/// Whether no key or value of `params` holds `?` or `&`.
pub open spec fn plain_params(params: Seq<(Seq<char>, Seq<char>)>) -> bool {
    forall|i: int|
        0 <= i < params.len() ==> {
            &&& free_of(#[trigger] params[i].0, '?')
            &&& free_of(params[i].0, '&')
            &&& free_of(params[i].1, '?')
            &&& free_of(params[i].1, '&')
        }
}

proof fn lemma_param_text_counts(first: bool, p: (Seq<char>, Seq<char>))
    requires
        free_of(p.0, '?'),
        free_of(p.0, '&'),
        free_of(p.1, '?'),
        free_of(p.1, '&'),
    ensures
        count_char(param_text(first, p), '?') == if first {
            1nat
        } else {
            0nat
        },
        count_char(param_text(first, p), '&') == if first {
            0nat
        } else {
            1nat
        },
{
    reveal_strlit("?");
    reveal_strlit("&");
    reveal_strlit("=");
    let lead: Seq<char> = if first {
        "?"@
    } else {
        "&"@
    };
    let k = plus_for_space(p.0);
    assert(free_of(k, '?'));
    assert(free_of(k, '&'));
    assert(free_of("="@, '?'));
    assert(free_of("="@, '&'));
    lemma_count_free(k, '?');
    lemma_count_free(k, '&');
    lemma_count_free("="@, '?');
    lemma_count_free("="@, '&');
    lemma_count_free(p.1, '?');
    lemma_count_free(p.1, '&');
    assert(lead.len() == 1);
    assert(lead.drop_last() =~= Seq::<char>::empty());
    assert(count_char(Seq::<char>::empty(), '?') == 0);
    assert(count_char(Seq::<char>::empty(), '&') == 0);
    assert(lead.last() == if first {
        '?'
    } else {
        '&'
    });
    assert(count_char(lead, '?') == if first {
        1nat
    } else {
        0nat
    });
    assert(count_char(lead, '&') == if first {
        0nat
    } else {
        1nat
    });
    lemma_count_concat(lead, k, '?');
    lemma_count_concat(lead, k, '&');
    lemma_count_concat(lead + k, "="@, '?');
    lemma_count_concat(lead + k, "="@, '&');
    lemma_count_concat(lead + k + "="@, p.1, '?');
    lemma_count_concat(lead + k + "="@, p.1, '&');
}

/// A query built by successive `push_param` calls from an empty one is the
/// parameters' texts one after the other: it starts with `?`, and when no
/// key or value holds `?` or `&`, it has exactly one `?` and one `&` fewer
/// than it has parameters.
pub proof fn law_query_of_several_params(params: Seq<(Seq<char>, Seq<char>)>)
    requires
        params.len() >= 1,
    ensures
        render_query(params) == joined_params(params),
        render_query(params).len() > 0,
        render_query(params)[0] == '?',
        plain_params(params) ==> count_char(render_query(params), '?') == 1,
        plain_params(params) ==> count_char(render_query(params), '&') == params.len() - 1,
    decreases params.len(),
{
    reveal_strlit("?");
    reveal_strlit("&");
    let init = params.drop_last();
    let last = params.last();
    let q = render_query(params);
    if params.len() == 1 {
        assert(render_query(init) =~= Seq::<char>::empty());
        assert(joined_params(init) =~= Seq::<char>::empty());
        assert(q =~= param_text(true, last));
        assert(joined_params(params) =~= param_text(true, last));
        if plain_params(params) {
            assert(free_of(params[0].0, '?'));
            lemma_param_text_counts(true, last);
        }
    } else {
        law_query_of_several_params(init);
        assert(q =~= render_query(init) + param_text(false, last));
        if plain_params(params) {
            assert forall|i: int| 0 <= i < init.len() implies {
                &&& free_of(#[trigger] init[i].0, '?')
                &&& free_of(init[i].0, '&')
                &&& free_of(init[i].1, '?')
                &&& free_of(init[i].1, '&')
            } by {
                assert(init[i] == params[i]);
                assert(free_of(params[i].0, '?'));
            }
            assert(free_of(params[params.len() - 1].0, '?'));
            lemma_param_text_counts(false, last);
            lemma_count_concat(render_query(init), param_text(false, last), '?');
            lemma_count_concat(render_query(init), param_text(false, last), '&');
        }
    }
}

/// Encryption is turned off only by the spellings `false`, `0` and `False`;
/// every other value, and no value, keeps it on. In particular a value that
/// trusts the certificate (`true`, `1`, `True`) never turns encryption off,
/// and a resolved SQL-login connection encrypts exactly as its profile's
/// `encrypt` value says.
pub proof fn law_encrypt_off_only_for_false_spellings(
    s: Seq<char>,
    cfg: Seq<(Seq<char>, Seq<char>)>,
    method: Seq<char>,
)
    ensures
        encrypt_setting(Some(s)) == !(s == "false"@ || s == "0"@ || s == "False"@),
        encrypt_setting(None),
        trust_setting(Some(s)) ==> encrypt_setting(Some(s)),
        trust_setting(Some(s)) == (s == "true"@ || s == "1"@ || s == "True"@),
        !trust_setting(None),
        match resolve_auth_spec(cfg, method) {
            Ok(SqlServerAuthIR::SqlPassword { encrypt, trust_server_certificate, .. }) => {
                &&& encrypt == match config_get(cfg, "encrypt"@) {
                    Some(v) => !(v == "false"@ || v == "0"@ || v == "False"@),
                    None => true,
                }
                &&& trust_server_certificate == match config_get(cfg, "trust_cert"@) {
                    Some(v) => v == "true"@ || v == "1"@ || v == "True"@,
                    None => false,
                }
            },
            _ => true,
        },
{
    reveal_strlit("false");
    assert("false"@.len() == 5);
    reveal_strlit("0");
    assert("0"@.len() == 1);
    reveal_strlit("False");
    assert("False"@.len() == 5);
    reveal_strlit("true");
    assert("true"@.len() == 4);
    reveal_strlit("1");
    assert("1"@.len() == 1);
    reveal_strlit("True");
    assert("True"@.len() == 4);
    assert("false"@[0] != "true"@[0]);
    assert("False"@[0] != "True"@[0]);
    assert("0"@[0] != "1"@[0]);
}

} // verus!
