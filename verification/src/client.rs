//! The low-level client core: request planning and response
//! classification.
//!
//! The client owns no sockets here.  It resolves a dereferenced
//! context into a TLS/authentication configuration, plans each HTTP
//! request (method, full URL, and the authentication decoration chosen
//! by a fixed precedence), and classifies the status code and decoded
//! error message of each response.  The caller performs the exchange
//! and feeds the outcome back in as plain values.

use vstd::prelude::*;
use vstd::string::StrSliceExecFns;
use crate::config::AuthInfo;
use crate::config::ClusterContext;
use crate::config::Material;
use crate::config::clone_opt_string;
use crate::config::prefixed;
use crate::errors::Error;
use crate::routes::KindRoute;
use crate::routes::ResourceRoute;
use crate::routes::route_target;
use crate::routes::query_views;
use crate::urls::join_url;
use crate::urls::joined_url;

verus! {

/// An HTTP verb, as far as this client needs them.
#[derive(Clone, Copy, Debug, PartialEq, Eq, Structural)]
pub enum HttpMethod {
    Get,
    Post,
    Put,
    Delete,
}

/// The per-request authentication decoration, chosen by this exact
/// precedence: basic credentials when a username is present, else a
/// bearer token, else a token-provider's access token (also sent as a
/// bearer token), else nothing.  Never more than one at a time.
#[derive(Debug)]
pub enum AuthStrategy {
    /// HTTP Basic authentication.
    Basic { username: String, password: Option<String> },
    /// HTTP Bearer authentication.
    Bearer { token: String },
    /// No authentication header.
    NoAuth,
}

impl Clone for AuthStrategy {
    fn clone(&self) -> (r: Self)
        ensures
            r == *self,
    {
        match self {
            AuthStrategy::Basic { username, password } => AuthStrategy::Basic {
                username: username.clone(),
                password: clone_opt_string(password),
            },
            AuthStrategy::Bearer { token } => AuthStrategy::Bearer { token: token.clone() },
            AuthStrategy::NoAuth => AuthStrategy::NoAuth,
        }
    }
}

/// The fixed credential precedence: a present username always wins,
/// then a bearer token, then a token-provider's access token, then
/// nothing.
pub open spec fn auth_strategy_spec(a: AuthInfo, r: AuthStrategy) -> bool {
    match a.username {
        Some(u) => r matches AuthStrategy::Basic { username, password } && username == u
            && password == a.password,
        None => match a.token {
            Some(t) => r matches AuthStrategy::Bearer { token } && token == t,
            None => match a.auth_provider {
                Some(p) => match p.config {
                    Some(c) => match c.access_token {
                        Some(t) => r matches AuthStrategy::Bearer { token } && token == t,
                        None => r is NoAuth,
                    },
                    None => r is NoAuth,
                },
                None => r is NoAuth,
            },
        },
    }
}

/// Choose the authentication decoration for one credential set.
pub fn auth_strategy(info: &AuthInfo) -> (r: AuthStrategy)
    ensures
        auth_strategy_spec(*info, r),
{
    match &info.username {
        Some(u) => AuthStrategy::Basic {
            username: u.clone(),
            password: clone_opt_string(&info.password),
        },
        None => match &info.token {
            Some(t) => AuthStrategy::Bearer { token: t.clone() },
            None => match &info.auth_provider {
                Some(p) => match &p.config {
                    Some(c) => match &c.access_token {
                        Some(t) => AuthStrategy::Bearer { token: t.clone() },
                        None => AuthStrategy::NoAuth,
                    },
                    None => AuthStrategy::NoAuth,
                },
                None => AuthStrategy::NoAuth,
            },
        },
    }
}

/// Law: username presence always wins.  A credential set holding both
/// basic credentials and a bearer token resolves to Basic
/// authentication, never to a Bearer header.
pub proof fn lemma_basic_wins_over_bearer(a: AuthInfo, r: AuthStrategy)
    requires
        auth_strategy_spec(a, r),
        a.username is Some,
    ensures
        r matches AuthStrategy::Basic { username, password } && username == a.username.unwrap()
            && password == a.password,
        !(r is Bearer),
{
}

/// One planned HTTP request: everything the transport needs except the
/// body, which the caller attaches.
#[derive(Debug)]
pub struct HttpRequest {
    pub method: HttpMethod,
    pub url: String,
    pub auth: AuthStrategy,
}

/// A client TLS identity: certificate material and key material.  Only
/// complete pairs exist; partial material never reaches this type.
#[derive(Debug)]
pub struct TlsIdentity {
    pub certificate: Material,
    pub key: Material,
}

/// Everything the transport layer needs to build its HTTP clients:
/// the trust anchor, the optional client identity, the authentication
/// decoration, and the base URL.  `accept_invalid_hostnames` bypasses
/// hostname verification — a deliberate compatibility concession for
/// self-signed clusters — and is set only when the cluster explicitly
/// asks for it in its configuration; off otherwise.
#[derive(Debug)]
pub struct ClientConfig {
    pub ca: Option<Material>,
    pub identity: Option<TlsIdentity>,
    pub accept_invalid_hostnames: bool,
    pub auth: AuthStrategy,
    pub base_url: String,
}

/// What resolving a dereferenced context into a client configuration
/// yields.  Undecodable inline material is a fatal configuration
/// error; a client identity exists exactly when both certificate and
/// key material are resolvable, and partial material is treated as
/// absent, never as an error.
pub open spec fn client_config_spec(ctx: ClusterContext, r: Result<ClientConfig, Error>) -> bool {
    let ca = spec_material(ctx.cluster.ca_data, ctx.cluster.ca_file);
    let cert = spec_material(ctx.user.client_certificate_data, ctx.user.client_certificate_file);
    let key = spec_material(ctx.user.client_key_data, ctx.user.client_key_file);
    match ca {
        Err(_) => r matches Err(e) && e is ParseError,
        Ok(ca) => match cert {
            Err(_) => r matches Err(e) && e is ParseError,
            Ok(cert) => match key {
                Err(_) => r matches Err(e) && e is ParseError,
                Ok(key) => r matches Ok(c) && {
                    &&& material_view_eq(c.ca, ca)
                    &&& match (cert, key) {
                        (Some(ct), Some(k)) => c.identity matches Some(id) && material_view(
                            id.certificate,
                        ) == ct && material_view(id.key) == k,
                        _ => c.identity is None,
                    }
                    &&& c.accept_invalid_hostnames == (ctx.cluster.insecure_tls == Some(
                        true,
                    ))
                    &&& auth_strategy_spec(ctx.user, c.auth)
                    &&& c.base_url == ctx.cluster.server
                },
            },
        },
    }
}

/// The view of one piece of material: which source it came from, and
/// its text.
pub enum MaterialView {
    InlineText(Seq<char>),
    FileName(Seq<char>),
}

/// The view of a [`Material`] value.
pub open spec fn material_view(m: Material) -> MaterialView {
    match m {
        Material::Inline(t) => MaterialView::InlineText(t@),
        Material::FilePath(p) => MaterialView::FileName(p@),
    }
}

/// View equality of optional material.
pub open spec fn material_view_eq(m: Option<Material>, v: Option<MaterialView>) -> bool {
    match (m, v) {
        (Option::None, Option::None) => true,
        (Option::Some(m), Option::Some(v)) => material_view(m) == v,
        _ => false,
    }
}

/// What an inline-or-file pair resolves to, at the level of views:
/// `Err` when inline data is present but does not decode.
pub open spec fn spec_material(data: Option<String>, file: Option<String>) -> Result<
    Option<MaterialView>,
    (),
> {
    match data {
        Some(d) => match crate::codec::base64_decoded(d@) {
            Some(bytes) => match crate::codec::utf8_decoded(bytes) {
                Some(text) => Ok(Some(MaterialView::InlineText(text))),
                None => Err(()),
            },
            None => Err(()),
        },
        None => match file {
            Some(f) => Ok(Some(MaterialView::FileName(f@))),
            None => Ok(None),
        },
    }
}

/// Resolve a dereferenced context into the configuration the
/// transport layer builds its clients from.
pub fn resolve_client_config(ctx: &ClusterContext) -> (r: Result<ClientConfig, Error>)
    ensures
        client_config_spec(*ctx, r),
{
    let ca = match ctx.cluster.ca_cert() {
        Ok(m) => m,
        Err(e) => {
            return Err(e);
        },
    };
    let cert = match ctx.user.client_certificate() {
        Ok(m) => m,
        Err(e) => {
            return Err(e);
        },
    };
    let key = match ctx.user.client_key() {
        Ok(m) => m,
        Err(e) => {
            return Err(e);
        },
    };
    let identity = match (cert, key) {
        (Some(ct), Some(k)) => Some(TlsIdentity { certificate: ct, key: k }),
        _ => None,
    };
    Ok(
        ClientConfig {
            ca,
            identity,
            accept_invalid_hostnames: match ctx.cluster.insecure_tls {
                Some(b) => b,
                None => false,
            },
            auth: auth_strategy(&ctx.user),
            base_url: ctx.cluster.server.clone(),
        },
    )
}

/// Law: a client identity is built exactly when both certificate and
/// key material are resolvable; partial material is treated as absent,
/// never as an error.
pub proof fn lemma_identity_needs_both(ctx: ClusterContext, r: Result<ClientConfig, Error>)
    requires
        client_config_spec(ctx, r),
        spec_material(ctx.cluster.ca_data, ctx.cluster.ca_file) is Ok,
        spec_material(ctx.user.client_certificate_data, ctx.user.client_certificate_file) is Ok,
        spec_material(ctx.user.client_key_data, ctx.user.client_key_file) is Ok,
    ensures
        r is Ok,
        r->Ok_0.identity is Some <==> {
            &&& spec_material(
                ctx.user.client_certificate_data,
                ctx.user.client_certificate_file,
            )->Ok_0 is Some
            &&& spec_material(ctx.user.client_key_data, ctx.user.client_key_file)->Ok_0 is Some
        },
{
}

/// The decision core of the low-level client: the credential set and
/// base URL that every request plan is derived from.
#[derive(Debug)]
pub struct KubeLowLevel {
    pub auth_info: AuthInfo,
    pub base_url: String,
}

/// What planning a request against a target URL yields: the request
/// with the method, the URL, and the authentication decoration, or
/// [`Error::UrlError`] when the URL could not be computed.
pub open spec fn planned_request(
    c: KubeLowLevel,
    m: HttpMethod,
    target: Option<Seq<char>>,
    r: Result<HttpRequest, Error>,
) -> bool {
    match target {
        Some(u) => r matches Ok(req) && req.method == m && req.url@ == u && auth_strategy_spec(
            c.auth_info,
            req.auth,
        ),
        None => r matches Err(e) && e is UrlError,
    }
}

impl KubeLowLevel {
    /// A client core for the given dereferenced context.
    pub fn from_context(ctx: &ClusterContext) -> (r: KubeLowLevel)
        ensures
            r.auth_info == ctx.user,
            r.base_url == ctx.cluster.server,
    {
        KubeLowLevel { auth_info: ctx.user.clone(), base_url: ctx.cluster.server.clone() }
    }

    /// Apply the authentication decoration to a request.
    pub fn auth(&self, req: HttpRequest) -> (r: HttpRequest)
        ensures
            r.method == req.method,
            r.url == req.url,
            auth_strategy_spec(self.auth_info, r.auth),
    {
        HttpRequest { method: req.method, url: req.url, auth: auth_strategy(&self.auth_info) }
    }

    fn plan(&self, method: HttpMethod, url: Result<String, Error>) -> (r: Result<
        HttpRequest,
        Error,
    >)
        ensures
            url matches Ok(u) ==> r matches Ok(req) && req.method == method && req.url == u
                && auth_strategy_spec(self.auth_info, req.auth),
            url matches Err(e) ==> r == Err::<HttpRequest, Error>(e),
    {
        match url {
            Ok(u) => Ok(
                HttpRequest { method, url: u, auth: auth_strategy(&self.auth_info) },
            ),
            Err(e) => Err(e),
        }
    }

    /// Plan the health probe: a GET of the fixed `healthz` endpoint.
    pub fn health_request(&self) -> (r: Result<HttpRequest, Error>)
        ensures
            planned_request(
                *self,
                HttpMethod::Get,
                joined_url(self.base_url@, "healthz"@),
                r,
            ),
    {
        match join_url(self.base_url.as_str(), "healthz") {
            Some(u) => self.plan(HttpMethod::Get, Ok(u)),
            None => Err(Error::UrlError("cannot join the path onto the server URL".to_owned())),
        }
    }

    /// Plan the existence check for one resource: a GET of its own URL.
    pub fn exists_request(&self, route: &ResourceRoute) -> (r: Result<HttpRequest, Error>)
        ensures
            planned_request(
                *self,
                HttpMethod::Get,
                route_target(self.base_url@, route.spec_path(), query_views(route.query)),
                r,
            ),
    {
        self.plan(HttpMethod::Get, route.build(self.base_url.as_str()))
    }

    /// Plan a list of a collection: a GET of the kind route.
    pub fn list_request(&self, route: &KindRoute) -> (r: Result<HttpRequest, Error>)
        ensures
            planned_request(
                *self,
                HttpMethod::Get,
                route_target(self.base_url@, route.spec_path(), query_views(route.query)),
                r,
            ),
    {
        self.plan(HttpMethod::Get, route.build(self.base_url.as_str()))
    }

    /// Plan a get of one resource.
    pub fn get_request(&self, route: &ResourceRoute) -> (r: Result<HttpRequest, Error>)
        ensures
            planned_request(
                *self,
                HttpMethod::Get,
                route_target(self.base_url@, route.spec_path(), query_views(route.query)),
                r,
            ),
    {
        self.plan(HttpMethod::Get, route.build(self.base_url.as_str()))
    }

    /// Plan a create: a POST of the caller's document to the
    /// collection URL.
    pub fn apply_request(&self, route: &KindRoute) -> (r: Result<HttpRequest, Error>)
        ensures
            planned_request(
                *self,
                HttpMethod::Post,
                route_target(self.base_url@, route.spec_path(), query_views(route.query)),
                r,
            ),
    {
        self.plan(HttpMethod::Post, route.build(self.base_url.as_str()))
    }

    /// Plan a delete of one resource.
    pub fn delete_request(&self, route: &ResourceRoute) -> (r: Result<HttpRequest, Error>)
        ensures
            planned_request(
                *self,
                HttpMethod::Delete,
                route_target(self.base_url@, route.spec_path(), query_views(route.query)),
                r,
            ),
    {
        self.plan(HttpMethod::Delete, route.build(self.base_url.as_str()))
    }
}

// --- response classification ---

/// A status code in the HTTP success range.
pub open spec fn is_success(status: u16) -> bool {
    200 <= status < 300
}

/// Whether the status code reports success; a health probe is healthy
/// exactly when this holds.
pub fn status_is_success(status: u16) -> (r: bool)
    ensures
        r == is_success(status),
{
    200 <= status && status < 300
}

/// What classifying a plain response yields: success passes through;
/// anything else surfaces the server's own message as
/// [`Error::ApiError`], or [`Error::DecodeError`] when the error body
/// did not decode to a status object.
pub open spec fn response_outcome_spec(
    status: u16,
    msg: Option<String>,
    r: Result<(), Error>,
) -> bool {
    if is_success(status) {
        r is Ok
    } else {
        match msg {
            Some(m) => r matches Err(e) && e is ApiError && e.spec_message()
                == "Kubernetes API error: "@ + m@,
            None => r matches Err(e) && e is DecodeError,
        }
    }
}

/// Classify a response to a plain request: `status` is the HTTP status
/// code, `status_message` the message of the decoded error body, if it
/// decoded.
pub fn response_outcome(status: u16, status_message: &Option<String>) -> (r: Result<(), Error>)
    ensures
        response_outcome_spec(status, *status_message, r),
{
    if status_is_success(status) {
        Ok(())
    } else {
        match status_message {
            Some(m) => Err(Error::ApiError(prefixed("Kubernetes API error: ", m))),
            None => Err(
                Error::DecodeError(
                    "cannot decode the error response as a status object".to_owned(),
                ),
            ),
        }
    }
}

/// What the existence check concludes from a response: 404 means the
/// resource is absent, success means present, anything else surfaces
/// the server's message verbatim.
pub open spec fn exists_outcome_spec(status: u16, msg: Option<String>, r: Result<
    bool,
    Error,
>) -> bool {
    if status == 404 {
        r == Ok::<bool, Error>(false)
    } else if is_success(status) {
        r == Ok::<bool, Error>(true)
    } else {
        match msg {
            Some(m) => r matches Err(e) && e matches Error::ApiError(s) && s == m,
            None => r matches Err(e) && e is DecodeError,
        }
    }
}

/// Conclude existence from the check's response.
pub fn exists_outcome(status: u16, status_message: Option<String>) -> (r: Result<bool, Error>)
    ensures
        exists_outcome_spec(status, status_message, r),
{
    if status == 404 {
        Ok(false)
    } else if status_is_success(status) {
        Ok(true)
    } else {
        match status_message {
            Some(m) => Err(Error::ApiError(m)),
            None => Err(
                Error::DecodeError(
                    "cannot decode the error response as a status object".to_owned(),
                ),
            ),
        }
    }
}

// --- log-line normalization ---

/// A whitespace character the log normalization strips from the end
/// of a produced line.
pub open spec fn is_line_ws(c: char) -> bool {
    c == ' ' || c == '\t' || c == '\r' || c == '\n'
}

/// A log line as the streaming surface hands it out: the decoded text
/// with its trailing whitespace removed.
pub open spec fn spec_trimmed_line(s: Seq<char>) -> Seq<char>
    decreases s.len(),
{
    if s.len() > 0 && is_line_ws(s.last()) {
        spec_trimmed_line(s.drop_last())
    } else {
        s
    }
}

/// Normalize one decoded log line: strip trailing whitespace, so that
/// each produced item is one logical line.
pub fn normalize_log_line(s: &str) -> (r: String)
    ensures
        r@ == spec_trimmed_line(s@),
{
    let n = s.unicode_len();
    let mut end: usize = n;
    let mut stop = false;
    proof {
        assert(s@.take(n as int) =~= s@);
    }
    while end > 0 && !stop
        invariant
            end <= n,
            n == s@.len(),
            spec_trimmed_line(s@) == spec_trimmed_line(s@.take(end as int)),
            stop ==> end > 0 && !is_line_ws(s@[end as int - 1]),
        decreases end + if stop { 0int } else { 1int },
    {
        let c = s.get_char(end - 1);
        if c == ' ' || c == '\t' || c == '\r' || c == '\n' {
            proof {
                assert(s@.take(end as int).last() == s@[end as int - 1]);
                assert(s@.take(end as int).drop_last() =~= s@.take(end as int - 1));
            }
            end = end - 1;
        } else {
            stop = true;
        }
    }
    proof {
        assert(spec_trimmed_line(s@) == s@.take(end as int));
    }
    let trimmed = s.substring_char(0, end);
    proof {
        assert(s@.subrange(0, end as int) =~= s@.take(end as int));
    }
    trimmed.to_owned()
}

} // verus!
