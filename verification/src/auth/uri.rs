//! The `mssql://` connection URI and the driver options built from a
//! resolved [`SqlServerAuthIR`].
use vstd::prelude::*;

use super::{Backend, SqlServerAuthIR};
use crate::text::opt_view;
use crate::mssql;
use crate::text::{append_plus_for_space, plus_for_space};

verus! {

/// The driver options a connection is configured with: the URI, and the
/// username and password passed beside it.
#[derive(Debug)]
pub struct ConnectionOptions {
    backend: Backend,
    uri: Option<String>,
    username: Option<String>,
    password: Option<String>,
}

/// The contents of a [`ConnectionOptions`].
pub struct ConnectionOptionsView {
    pub backend: Backend,
    pub uri: Option<Seq<char>>,
    pub username: Option<Seq<char>>,
    pub password: Option<Seq<char>>,
}

/// The options of a builder nothing has been set on yet.
pub open spec fn fresh_options(backend: Backend) -> ConnectionOptionsView {
    ConnectionOptionsView { backend, uri: None, username: None, password: None }
}

impl View for ConnectionOptions {
    type V = ConnectionOptionsView;

    closed spec fn view(&self) -> ConnectionOptionsView {
        ConnectionOptionsView {
            backend: self.backend,
            uri: opt_view(self.uri),
            username: opt_view(self.username),
            password: opt_view(self.password),
        }
    }
}

fn opt_str(o: &Option<String>) -> (r: Option<&str>)
    ensures
        r matches Some(s) ==> opt_view(*o) == Some(s@),
        r is None ==> o is None,
{
    match o {
        Some(s) => Some(s.as_str()),
        None => None,
    }
}

impl ConnectionOptions {
    /// A builder for `backend` with no option set.
    pub fn new(backend: Backend) -> (r: Self)
        ensures
            r@ == fresh_options(backend),
    {
        ConnectionOptions { backend, uri: None, username: None, password: None }
    }

    /// Records the connection URI. The driver's own builder parses the URI
    /// when the options are handed to it, and may reject it there; recording
    /// it here never fails.
    pub fn with_parse_uri(&mut self, uri: String)
        ensures
            final(self)@ == (ConnectionOptionsView { uri: Some(uri@), ..old(self)@ }),
    {
        self.uri = Some(uri);
    }

    /// Sets the username passed beside the URI.
    pub fn with_username(&mut self, user: &str)
        ensures
            final(self)@ == (ConnectionOptionsView { username: Some(user@), ..old(self)@ }),
    {
        self.username = Some(crate::text::owned(user));
    }

    /// Sets the password passed beside the URI.
    pub fn with_password(&mut self, password: &str)
        ensures
            final(self)@ == (ConnectionOptionsView { password: Some(password@), ..old(self)@ }),
    {
        self.password = Some(crate::text::owned(password));
    }

    /// The backend the options are for.
    pub fn backend(&self) -> (r: Backend)
        ensures
            r == self@.backend,
    {
        self.backend
    }

    /// The connection URI, if one was set.
    pub fn uri(&self) -> (r: Option<&str>)
        ensures
            r matches Some(s) ==> self@.uri == Some(s@),
            r is None ==> self@.uri is None,
    {
        opt_str(&self.uri)
    }

    /// The username, if one was set.
    pub fn username(&self) -> (r: Option<&str>)
        ensures
            r matches Some(s) ==> self@.username == Some(s@),
            r is None ==> self@.username is None,
    {
        opt_str(&self.username)
    }

    /// The password, if one was set.
    pub fn password(&self) -> (r: Option<&str>)
        ensures
            r matches Some(s) ==> self@.password == Some(s@),
            r is None ==> self@.password is None,
    {
        opt_str(&self.password)
    }
}

/// The path segment naming an instance: `/NAME`, or nothing for the default
/// instance (no name, or an empty one).
pub open spec fn instance_path_spec(instance: Option<Seq<char>>) -> Seq<char> {
    match instance {
        Some(i) => if i.len() > 0 {
            "/"@ + i
        } else {
            Seq::empty()
        },
        None => Seq::empty(),
    }
}

/// `mssql://host:port` followed by the instance path.
pub open spec fn base_uri_spec(host: Seq<char>, port: Seq<char>, instance: Option<Seq<char>>) -> Seq<
    char,
> {
    "mssql://"@ + host + ":"@ + port + instance_path_spec(instance)
}

/// `query` with `key=value` appended: after `?` when the query is still
/// empty, after `&` otherwise, with spaces in the key written as `+`.
pub open spec fn push_param_spec(query: Seq<char>, key: Seq<char>, value: Seq<char>) -> Seq<char> {
    query + (if query.len() == 0 {
        "?"@
    } else {
        "&"@
    }) + plus_for_space(key) + "="@ + value
}

/// The query string of a list of `(key, value)` parameters, in order.
pub open spec fn render_query(params: Seq<(Seq<char>, Seq<char>)>) -> Seq<char>
    decreases params.len(),
{
    if params.len() == 0 {
        Seq::empty()
    } else {
        push_param_spec(render_query(params.drop_last()), params.last().0, params.last().1)
    }
}

/// The query parameters of a connection, in the order they appear: the
/// database first, then the method's own parameters, then `app=dbt`.
/// `encrypt=false` appears only when encryption is off and
/// `trustservercertificate=true` only when the certificate is trusted, since
/// the driver's defaults are the other way round.
pub open spec fn params_of(ir: SqlServerAuthIR<Seq<char>>) -> Seq<(Seq<char>, Seq<char>)> {
    let app = (mssql::APP@, "dbt"@);
    match ir {
        SqlServerAuthIR::SqlPassword {
            database,
            encrypt,
            trust_server_certificate,
            connection_timeout,
            ..
        } => {
            let p0 = seq![(mssql::DATABASE@, database)];
            let p1 = if !encrypt {
                p0.push((mssql::ENCRYPT@, "false"@))
            } else {
                p0
            };
            let p2 = if trust_server_certificate {
                p1.push((mssql::TRUST_SERVER_CERTIFICATE@, "true"@))
            } else {
                p1
            };
            let p3 = match connection_timeout {
                Some(t) => p2.push((mssql::CONNECTION_TIMEOUT@, t)),
                None => p2,
            };
            p3.push(app)
        },
        SqlServerAuthIR::WindowsAuthentication { database, .. } => seq![
            (mssql::DATABASE@, database),
            (mssql::INTEGRATED_SECURITY@, mssql::SSPI@),
            app,
        ],
        SqlServerAuthIR::ActiveDirectoryPassword { database, .. } => seq![
            (mssql::DATABASE@, database),
            (mssql::FEDAUTH@, mssql::fedauth::ACTIVE_DIRECTORY_PASSWORD@),
            app,
        ],
        SqlServerAuthIR::ActiveDirectoryIntegrated { database, .. } => seq![
            (mssql::DATABASE@, database),
            (mssql::FEDAUTH@, mssql::fedauth::ACTIVE_DIRECTORY_INTEGRATED@),
            app,
        ],
        SqlServerAuthIR::ActiveDirectoryMsi { database, .. } => seq![
            (mssql::DATABASE@, database),
            (mssql::FEDAUTH@, mssql::fedauth::ACTIVE_DIRECTORY_MSI@),
            app,
        ],
        SqlServerAuthIR::EnvironmentCredential { database, .. } => seq![
            (mssql::DATABASE@, database),
            (mssql::FEDAUTH@, mssql::fedauth::ACTIVE_DIRECTORY_ENVIRONMENT@),
            app,
        ],
    }
}

/// The URI of a connection: `mssql://host:port`, the instance path for the
/// SQL-login and Windows methods (the Entra ID methods take none), then the
/// query string.
pub open spec fn uri_spec(ir: SqlServerAuthIR<Seq<char>>) -> Seq<char> {
    let base = match ir {
        SqlServerAuthIR::SqlPassword { host, port, instance, .. } => base_uri_spec(
            host,
            port,
            instance,
        ),
        SqlServerAuthIR::WindowsAuthentication { host, port, instance, .. } => base_uri_spec(
            host,
            port,
            instance,
        ),
        SqlServerAuthIR::ActiveDirectoryPassword { host, port, .. } => base_uri_spec(
            host,
            port,
            None,
        ),
        SqlServerAuthIR::ActiveDirectoryIntegrated { host, port, .. } => base_uri_spec(
            host,
            port,
            None,
        ),
        SqlServerAuthIR::ActiveDirectoryMsi { host, port, .. } => base_uri_spec(host, port, None),
        SqlServerAuthIR::EnvironmentCredential { host, port, .. } => base_uri_spec(
            host,
            port,
            None,
        ),
    };
    base + render_query(params_of(ir))
}

/// The username and password a connection passes beside the URI, for the
/// methods that take them.
pub open spec fn credentials_of(ir: SqlServerAuthIR<Seq<char>>) -> Option<(Seq<char>, Seq<char>)> {
    match ir {
        SqlServerAuthIR::SqlPassword { user, password, .. } => Some((user, password)),
        SqlServerAuthIR::ActiveDirectoryPassword { user, password, .. } => Some((user, password)),
        _ => None,
    }
}

/// The options after a connection is applied to `opts`: the URI set, and the
/// username and password set when the method takes them (left as they were
/// otherwise).
pub open spec fn apply_spec(ir: SqlServerAuthIR<Seq<char>>, opts: ConnectionOptionsView) -> ConnectionOptionsView {
    match credentials_of(ir) {
        Some((user, password)) => ConnectionOptionsView {
            uri: Some(uri_spec(ir)),
            username: Some(user),
            password: Some(password),
            ..opts
        },
        None => ConnectionOptionsView { uri: Some(uri_spec(ir)), ..opts },
    }
}

/// Appending one parameter extends the rendered query by that parameter.
pub proof fn lemma_render_query_push(params: Seq<(Seq<char>, Seq<char>)>, p: (Seq<char>, Seq<char>))
    ensures
        render_query(params.push(p)) == push_param_spec(render_query(params), p.0, p.1),
{
    assert(params.push(p).drop_last() =~= params);
}

/// The instance path segment: `/NAME` for a named instance, empty otherwise.
pub fn instance_path(instance: Option<&str>) -> (r: String)
    ensures
        r@ == instance_path_spec(match instance {
            Some(i) => Some(i@),
            None => None,
        }),
{
    let mut r = String::new();
    match instance {
        Some(i) => {
            if !i.is_empty() {
                r.append("/");
                r.append(i);
            }
        },
        None => {},
    }
    r
}

/// The base `mssql://host:port[/instance]` URI.
pub fn base_uri(host: &str, port: &str, instance: Option<&str>) -> (r: String)
    ensures
        r@ == base_uri_spec(
            host@,
            port@,
            match instance {
                Some(i) => Some(i@),
                None => None,
            },
        ),
{
    let mut r = String::new();
    r.append("mssql://");
    r.append(host);
    r.append(":");
    r.append(port);
    let path = instance_path(instance);
    r.append(path.as_str());
    r
}

/// Appends `key=value` to a query string, after `?` or `&` as the query is
/// empty or not, writing spaces in the key as `+`.
pub fn push_param(query: &mut String, key: &str, value: &str)
    ensures
        final(query)@ == push_param_spec(old(query)@, key@, value@),
{
    if query.as_str().is_empty() {
        query.append("?");
    } else {
        query.append("&");
    }
    append_plus_for_space(query, key);
    query.append("=");
    query.append(value);
}

impl SqlServerAuthIR<String> {
    /// Applies the connection to the driver options: sets the URI and, for
    /// the password-based methods, the username and password. This step cannot
    /// fail: the driver's rejection of a URI it cannot parse arises only when
    /// the options are handed to the driver's builder (see
    /// [`ConnectionOptions::with_parse_uri`]).
    pub fn apply(self, builder: ConnectionOptions) -> (r: ConnectionOptions)
        ensures
            r@ == apply_spec(self@, builder@),
    {
        let ghost ir = self@;
        let mut builder = builder;
        let ghost app = (mssql::APP@, "dbt"@);
        match self {
            SqlServerAuthIR::SqlPassword {
                user,
                password,
                host,
                port,
                database,
                instance,
                encrypt,
                trust_server_certificate,
                connection_timeout,
            } => {
                let mut query = String::new();
                let ghost mut ps: Seq<(Seq<char>, Seq<char>)> = Seq::empty();
                push_param(&mut query, mssql::DATABASE, database.as_str());
                proof {
                    lemma_render_query_push(ps, (mssql::DATABASE@, database@));
                    ps = ps.push((mssql::DATABASE@, database@));
                }
                if !encrypt {
                    push_param(&mut query, mssql::ENCRYPT, "false");
                    proof {
                        lemma_render_query_push(ps, (mssql::ENCRYPT@, "false"@));
                        ps = ps.push((mssql::ENCRYPT@, "false"@));
                    }
                }
                if trust_server_certificate {
                    push_param(&mut query, mssql::TRUST_SERVER_CERTIFICATE, "true");
                    proof {
                        lemma_render_query_push(ps, (mssql::TRUST_SERVER_CERTIFICATE@, "true"@));
                        ps = ps.push((mssql::TRUST_SERVER_CERTIFICATE@, "true"@));
                    }
                }
                if let Some(timeout) = &connection_timeout {
                    push_param(&mut query, mssql::CONNECTION_TIMEOUT, timeout.as_str());
                    proof {
                        lemma_render_query_push(ps, (mssql::CONNECTION_TIMEOUT@, timeout@));
                        ps = ps.push((mssql::CONNECTION_TIMEOUT@, timeout@));
                    }
                }
                push_param(&mut query, mssql::APP, "dbt");
                proof {
                    lemma_render_query_push(ps, app);
                    ps = ps.push(app);
                    assert(ps =~= params_of(ir));
                }
                let mut uri = base_uri(host.as_str(), port.as_str(), opt_str(&instance));
                uri.append(query.as_str());
                builder.with_parse_uri(uri);
                builder.with_username(user.as_str());
                builder.with_password(password.as_str());
            },
            SqlServerAuthIR::WindowsAuthentication { host, port, database, instance } => {
                let query = fixed_query(database.as_str(), mssql::INTEGRATED_SECURITY, mssql::SSPI);
                assert(params_of(ir) =~= seq![
                    (mssql::DATABASE@, database@),
                    (mssql::INTEGRATED_SECURITY@, mssql::SSPI@),
                    app,
                ]);
                let mut uri = base_uri(host.as_str(), port.as_str(), opt_str(&instance));
                uri.append(query.as_str());
                builder.with_parse_uri(uri);
            },
            SqlServerAuthIR::ActiveDirectoryPassword { user, password, host, port, database } => {
                let query = fixed_query(
                    database.as_str(),
                    mssql::FEDAUTH,
                    mssql::fedauth::ACTIVE_DIRECTORY_PASSWORD,
                );
                let mut uri = base_uri(host.as_str(), port.as_str(), None);
                uri.append(query.as_str());
                builder.with_parse_uri(uri);
                builder.with_username(user.as_str());
                builder.with_password(password.as_str());
            },
            SqlServerAuthIR::ActiveDirectoryIntegrated { host, port, database } => {
                let query = fixed_query(
                    database.as_str(),
                    mssql::FEDAUTH,
                    mssql::fedauth::ACTIVE_DIRECTORY_INTEGRATED,
                );
                let mut uri = base_uri(host.as_str(), port.as_str(), None);
                uri.append(query.as_str());
                builder.with_parse_uri(uri);
            },
            SqlServerAuthIR::ActiveDirectoryMsi { host, port, database } => {
                let query = fixed_query(
                    database.as_str(),
                    mssql::FEDAUTH,
                    mssql::fedauth::ACTIVE_DIRECTORY_MSI,
                );
                let mut uri = base_uri(host.as_str(), port.as_str(), None);
                uri.append(query.as_str());
                builder.with_parse_uri(uri);
            },
            SqlServerAuthIR::EnvironmentCredential { host, port, database } => {
                let query = fixed_query(
                    database.as_str(),
                    mssql::FEDAUTH,
                    mssql::fedauth::ACTIVE_DIRECTORY_ENVIRONMENT,
                );
                let mut uri = base_uri(host.as_str(), port.as_str(), None);
                uri.append(query.as_str());
                builder.with_parse_uri(uri);
            },
        }
        builder
    }
}

/// The query of a method with one parameter of its own:
/// `?database=DB&KEY=VALUE&app=dbt`.
fn fixed_query(database: &str, key: &str, value: &str) -> (r: String)
    ensures
        r@ == render_query(seq![(mssql::DATABASE@, database@), (key@, value@), (mssql::APP@, "dbt"@)]),
{
    let mut query = String::new();
    let ghost ps: Seq<(Seq<char>, Seq<char>)> = Seq::empty();
    push_param(&mut query, mssql::DATABASE, database);
    proof {
        lemma_render_query_push(ps, (mssql::DATABASE@, database@));
    }
    let ghost ps = ps.push((mssql::DATABASE@, database@));
    push_param(&mut query, key, value);
    proof {
        lemma_render_query_push(ps, (key@, value@));
    }
    let ghost ps = ps.push((key@, value@));
    push_param(&mut query, mssql::APP, "dbt");
    proof {
        lemma_render_query_push(ps, (mssql::APP@, "dbt"@));
        assert(ps.push((mssql::APP@, "dbt"@)) =~= seq![
            (mssql::DATABASE@, database@),
            (key@, value@),
            (mssql::APP@, "dbt"@),
        ]);
    }
    query
}

} // verus!
