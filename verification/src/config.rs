//! The kubeconfig document model and its resolution.
//!
//! A kubeconfig document holds named clusters, named users, and named
//! contexts, plus a current-context name.  Resolving a context name
//! dereferences it into a concrete (cluster, user, namespace) triple;
//! a name that matches nothing or matches more than once is an error,
//! never silently resolved.  Certificate material may be supplied
//! inline (base64) or as a file path; inline data always takes
//! precedence over the file alternative.

use vstd::prelude::*;
use vstd::seq_lib::group_filter_ensures;
use vstd::string::StringExecFns;
use crate::codec::base64_decode;
use crate::codec::base64_decoded;
use crate::codec::utf8_decoded;
use crate::codec::utf8_string;
use crate::errors::Error;

verus! {

broadcast use group_filter_ensures;

/// A kubeconfig document: named clusters, users, and contexts, plus
/// the name of the context to use when the caller names none.
#[derive(Debug)]
pub struct KubeConfig {
    pub kind: Option<String>,
    pub api_version: Option<String>,
    pub preferences: Option<Preferences>,
    pub clusters: Vec<NamedCluster>,
    pub users: Vec<NamedAuthInfo>,
    pub contexts: Vec<NamedContext>,
    pub current_context: String,
    pub extensions: Option<Vec<NamedExtension>>,
}

#[derive(Debug)]
pub struct Preferences {
    pub colors: Option<bool>,
    pub extensions: Option<Vec<NamedExtension>>,
}

#[derive(Debug)]
pub struct NamedCluster {
    pub name: String,
    pub cluster: Cluster,
}

/// One cluster: its server URL, and an optional certificate authority
/// supplied inline (base64) or as a file path.
#[derive(Debug)]
pub struct Cluster {
    pub server: String,
    pub insecure_tls: Option<bool>,
    pub ca_file: Option<String>,
    pub ca_data: Option<String>,
    pub extensions: Option<Vec<NamedExtension>>,
}

#[derive(Debug)]
pub struct NamedAuthInfo {
    pub name: String,
    pub user: AuthInfo,
}

#[derive(Debug)]
pub struct AuthProviderConfig {
    pub access_token: Option<String>,
}

#[derive(Debug)]
pub struct AuthProvider {
    pub config: Option<AuthProviderConfig>,
    pub name: Option<String>,
}

/// One user's credential set.  The fields are mutually non-exclusive
/// in the data; which one takes effect is decided by the fixed
/// precedence in [`crate::client::auth_strategy`].
#[derive(Debug)]
pub struct AuthInfo {
    pub username: Option<String>,
    pub password: Option<String>,
    pub auth_provider: Option<AuthProvider>,
    pub token: Option<String>,
    pub token_file: Option<String>,
    pub client_certificate_file: Option<String>,
    pub client_certificate_data: Option<String>,
    pub client_key_file: Option<String>,
    pub client_key_data: Option<String>,
    pub impersonate: Option<String>,
}

#[derive(Debug)]
pub struct NamedContext {
    pub name: String,
    pub context: Context,
}

/// One context: the names of a cluster and a user, and an optional
/// namespace.
#[derive(Debug)]
pub struct Context {
    pub cluster: String,
    pub user: String,
    pub namespace: Option<String>,
    pub extensions: Option<Vec<Extension>>,
}

#[derive(Debug)]
pub struct NamedExtension {
    pub name: String,
    pub extension: Extension,
}

#[derive(Debug)]
pub struct Extension {
    pub extension: String,
}

/// A fully dereferenced context: the cluster and user the context
/// named, and the context's namespace, which falls back to `default`
/// when the context names none.  Created once per client construction
/// and immutable afterwards.
#[derive(Debug)]
pub struct ClusterContext {
    pub name: String,
    pub cluster: Cluster,
    pub user: AuthInfo,
    pub namespace: String,
    pub extensions: Option<Vec<Extension>>,
}

// --- cloning, with the fields provably kept ---

pub(crate) fn clone_opt_string(o: &Option<String>) -> (r: Option<String>)
    ensures
        r == *o,
{
    match o {
        Some(s) => Some(s.clone()),
        None => None,
    }
}

impl Clone for Extension {
    fn clone(&self) -> (r: Self)
        ensures
            r == *self,
    {
        Extension { extension: self.extension.clone() }
    }
}

impl Clone for NamedExtension {
    fn clone(&self) -> (r: Self)
        ensures
            r == *self,
    {
        NamedExtension { name: self.name.clone(), extension: self.extension.clone() }
    }
}

fn clone_named_extensions(v: &Vec<NamedExtension>) -> (r: Vec<NamedExtension>)
    ensures
        r@ == v@,
{
    let mut out: Vec<NamedExtension> = Vec::new();
    let n = v.len();
    let mut i: usize = 0;
    while i < n
        invariant
            i <= n,
            n == v@.len(),
            out@ =~= v@.take(i as int),
        decreases n - i,
    {
        out.push(v[i].clone());
        i = i + 1;
    }
    proof {
        assert(v@.take(n as int) =~= v@);
    }
    out
}

/// Equality of optional extension lists, element by element.
pub open spec fn named_extensions_eq(
    a: Option<Vec<NamedExtension>>,
    b: Option<Vec<NamedExtension>>,
) -> bool {
    match (a, b) {
        (Option::None, Option::None) => true,
        (Option::Some(x), Option::Some(y)) => x@ == y@,
        _ => false,
    }
}

/// Equality of clusters, field by field, with the extension list
/// compared element by element.
pub open spec fn cluster_eq(a: Cluster, b: Cluster) -> bool {
    &&& a.server == b.server
    &&& a.insecure_tls == b.insecure_tls
    &&& a.ca_file == b.ca_file
    &&& a.ca_data == b.ca_data
    &&& named_extensions_eq(a.extensions, b.extensions)
}

impl Clone for Cluster {
    fn clone(&self) -> (r: Self)
        ensures
            cluster_eq(r, *self),
    {
        Cluster {
            server: self.server.clone(),
            insecure_tls: self.insecure_tls,
            ca_file: clone_opt_string(&self.ca_file),
            ca_data: clone_opt_string(&self.ca_data),
            extensions: match &self.extensions {
                Some(v) => Some(clone_named_extensions(v)),
                None => None,
            },
        }
    }
}

impl Clone for AuthProviderConfig {
    fn clone(&self) -> (r: Self)
        ensures
            r == *self,
    {
        AuthProviderConfig { access_token: clone_opt_string(&self.access_token) }
    }
}

impl Clone for AuthProvider {
    fn clone(&self) -> (r: Self)
        ensures
            r == *self,
    {
        AuthProvider {
            config: match &self.config {
                Some(c) => Some(c.clone()),
                None => None,
            },
            name: clone_opt_string(&self.name),
        }
    }
}

impl Clone for AuthInfo {
    fn clone(&self) -> (r: Self)
        ensures
            r == *self,
    {
        AuthInfo {
            username: clone_opt_string(&self.username),
            password: clone_opt_string(&self.password),
            auth_provider: match &self.auth_provider {
                Some(p) => Some(p.clone()),
                None => None,
            },
            token: clone_opt_string(&self.token),
            token_file: clone_opt_string(&self.token_file),
            client_certificate_file: clone_opt_string(&self.client_certificate_file),
            client_certificate_data: clone_opt_string(&self.client_certificate_data),
            client_key_file: clone_opt_string(&self.client_key_file),
            client_key_data: clone_opt_string(&self.client_key_data),
            impersonate: clone_opt_string(&self.impersonate),
        }
    }
}

// --- certificate material: inline base64 data, or a file path ---

/// Certificate material as the configuration supplies it: either text
/// already decoded from inline base64 data, or the path of a file
/// still to be read.
#[derive(Debug)]
pub enum Material {
    /// PEM text decoded from inline base64 data.
    Inline(String),
    /// The path of a file holding the PEM text.
    FilePath(String),
}

/// What resolving an inline-or-file pair yields: inline data is
/// decoded and used if present, whatever the file alternative holds;
/// otherwise the file path is handed on; otherwise the material is
/// absent.  A present inline datum that does not decode is a fatal
/// configuration error, never silently ignored.
pub open spec fn material_spec(
    data: Option<String>,
    file: Option<String>,
    r: Result<Option<Material>, Error>,
) -> bool {
    match data {
        Some(d) => match base64_decoded(d@) {
            Some(bytes) => match utf8_decoded(bytes) {
                Some(text) => r matches Ok(Some(Material::Inline(t))) && t@ == text,
                None => r matches Err(e) && e is ParseError,
            },
            None => r matches Err(e) && e is ParseError,
        },
        None => match file {
            Some(f) => r matches Ok(Some(Material::FilePath(p))) && p@ == f@,
            None => r matches Ok(o) && o is None,
        },
    }
}

/// Given an optional inline base64 datum and an optional file path,
/// return the material from the first present, in that order.
pub fn get_from_b64data_or_file(data: &Option<String>, file: &Option<String>) -> (r: Result<
    Option<Material>,
    Error,
>)
    ensures
        material_spec(*data, *file, r),
{
    match data {
        Some(d) => match base64_decode(d.as_str()) {
            Some(bytes) => match utf8_string(bytes) {
                Some(text) => Ok(Some(Material::Inline(text))),
                None => Err(
                    Error::ParseError("inline data in kubeconfig is not UTF-8 text".to_owned()),
                ),
            },
            None => Err(Error::ParseError("inline data in kubeconfig is not base64".to_owned())),
        },
        None => match file {
            Some(f) => Ok(Some(Material::FilePath(f.clone()))),
            None => Ok(None),
        },
    }
}

/// Law: inline data takes precedence.  When inline base64 data is
/// present and decodes to text, the resolved material is exactly that
/// text, whatever the file-path alternative holds.
pub proof fn lemma_inline_data_precedence(
    data: String,
    file: Option<String>,
    r: Result<Option<Material>, Error>,
)
    requires
        material_spec(Some(data), file, r),
        base64_decoded(data@) is Some,
        utf8_decoded(base64_decoded(data@).unwrap()) is Some,
    ensures
        r matches Ok(Some(Material::Inline(t))) && t@ == utf8_decoded(
            base64_decoded(data@).unwrap(),
        ).unwrap(),
{
}

impl Cluster {
    /// The cluster's certificate-authority material, if any: inline
    /// data takes precedence over the file path.
    pub fn ca_cert(&self) -> (r: Result<Option<Material>, Error>)
        ensures
            material_spec(self.ca_data, self.ca_file, r),
    {
        get_from_b64data_or_file(&self.ca_data, &self.ca_file)
    }
}

impl AuthInfo {
    /// The user's client-certificate material, if any: inline data
    /// takes precedence over the file path.
    pub fn client_certificate(&self) -> (r: Result<Option<Material>, Error>)
        ensures
            material_spec(self.client_certificate_data, self.client_certificate_file, r),
    {
        get_from_b64data_or_file(&self.client_certificate_data, &self.client_certificate_file)
    }

    /// The user's client-key material, if any: inline data takes
    /// precedence over the file path.
    pub fn client_key(&self) -> (r: Result<Option<Material>, Error>)
        ensures
            material_spec(self.client_key_data, self.client_key_file, r),
    {
        get_from_b64data_or_file(&self.client_key_data, &self.client_key_file)
    }
}

// --- context resolution ---

/// The contexts whose name is `name`.
pub open spec fn context_pred(name: Seq<char>) -> spec_fn(NamedContext) -> bool {
    |c: NamedContext| c.name@ == name
}

pub open spec fn matching_contexts(s: Seq<NamedContext>, name: Seq<char>) -> Seq<NamedContext> {
    s.filter(context_pred(name))
}

/// The clusters whose name is `name`.
pub open spec fn cluster_pred(name: Seq<char>) -> spec_fn(NamedCluster) -> bool {
    |c: NamedCluster| c.name@ == name
}

pub open spec fn matching_clusters(s: Seq<NamedCluster>, name: Seq<char>) -> Seq<NamedCluster> {
    s.filter(cluster_pred(name))
}

/// The users whose name is `name`.
pub open spec fn user_pred(name: Seq<char>) -> spec_fn(NamedAuthInfo) -> bool {
    |u: NamedAuthInfo| u.name@ == name
}

pub open spec fn matching_users(s: Seq<NamedAuthInfo>, name: Seq<char>) -> Seq<NamedAuthInfo> {
    s.filter(user_pred(name))
}

/// The namespace a resolved context carries: the context's own, or
/// the literal `default` when the context names none.
pub open spec fn resolved_namespace(ctx: Context) -> Seq<char> {
    match ctx.namespace {
        Some(n) => n@,
        None => "default"@,
    }
}

/// What resolving `name` against the document yields.  The named
/// context must match exactly once, and so must the cluster and user
/// it names: zero matches are [`Error::NotFoundError`], several are
/// [`Error::AmbiguousError`].  On success the triple is taken from the
/// document unchanged, with the context's namespace carried over and
/// defaulted to `default` when absent.
pub open spec fn resolution_spec(
    cfg: KubeConfig,
    name: Seq<char>,
    r: Result<ClusterContext, Error>,
) -> bool {
    let cs = matching_contexts(cfg.contexts@, name);
    if cs.len() == 0 {
        r matches Err(e) && e is NotFoundError && e.spec_message() == "unknown context "@ + name
    } else if cs.len() > 1 {
        r matches Err(e) && e is AmbiguousError && e.spec_message() == "ambiguous context "@ + name
    } else {
        let ctx = cs[0].context;
        let cls = matching_clusters(cfg.clusters@, ctx.cluster@);
        if cls.len() == 0 {
            r matches Err(e) && e is NotFoundError && e.spec_message() == "unknown cluster "@
                + ctx.cluster@
        } else if cls.len() > 1 {
            r matches Err(e) && e is AmbiguousError && e.spec_message() == "ambiguous cluster "@
                + ctx.cluster@
        } else {
            let us = matching_users(cfg.users@, ctx.user@);
            if us.len() == 0 {
                r matches Err(e) && e is NotFoundError && e.spec_message() == "unknown auth-info "@
                    + ctx.user@
            } else if us.len() > 1 {
                r matches Err(e) && e is AmbiguousError && e.spec_message()
                    == "ambiguous auth-info "@ + ctx.user@
            } else {
                r matches Ok(cc) && cc.name@ == name && cluster_eq(cc.cluster, cls[0].cluster)
                    && cc.user == us[0].user && cc.namespace@ == resolved_namespace(ctx)
                    && cc.extensions is None
            }
        }
    }
}

/// Scan the contexts for `name`: how many match, and the index of the
/// first match when there is one.
fn scan_contexts(items: &Vec<NamedContext>, name: &String) -> (r: (usize, usize))
    ensures
        ({
            let f = matching_contexts(items@, name@);
            &&& r.0 == f.len()
            &&& f.len() > 0 ==> r.1 < items@.len() && items@[r.1 as int] == f[0]
        }),
{
    let mut count: usize = 0;
    let mut first: usize = 0;
    let n = items.len();
    let mut i: usize = 0;
    while i < n
        invariant
            i <= n,
            n == items@.len(),
            count == matching_contexts(items@.take(i as int), name@).len(),
            count <= i,
            count > 0 ==> first < i && items@[first as int] == matching_contexts(
                items@.take(i as int),
                name@,
            )[0],
        decreases n - i,
    {
        proof {
            assert(items@.take(i + 1) =~= items@.take(i as int).push(items@[i as int]));
            items@.take(i as int).lemma_filter_push(items@[i as int], context_pred(name@));
        }
        if items[i].name.eq(name) {
            if count == 0 {
                first = i;
            }
            count = count + 1;
        }
        i = i + 1;
    }
    proof {
        assert(items@.take(n as int) =~= items@);
    }
    (count, first)
}

/// Scan the clusters for `name`, as [`scan_contexts`] does.
fn scan_clusters(items: &Vec<NamedCluster>, name: &String) -> (r: (usize, usize))
    ensures
        ({
            let f = matching_clusters(items@, name@);
            &&& r.0 == f.len()
            &&& f.len() > 0 ==> r.1 < items@.len() && items@[r.1 as int] == f[0]
        }),
{
    let mut count: usize = 0;
    let mut first: usize = 0;
    let n = items.len();
    let mut i: usize = 0;
    while i < n
        invariant
            i <= n,
            n == items@.len(),
            count == matching_clusters(items@.take(i as int), name@).len(),
            count <= i,
            count > 0 ==> first < i && items@[first as int] == matching_clusters(
                items@.take(i as int),
                name@,
            )[0],
        decreases n - i,
    {
        proof {
            assert(items@.take(i + 1) =~= items@.take(i as int).push(items@[i as int]));
            items@.take(i as int).lemma_filter_push(items@[i as int], cluster_pred(name@));
        }
        if items[i].name.eq(name) {
            if count == 0 {
                first = i;
            }
            count = count + 1;
        }
        i = i + 1;
    }
    proof {
        assert(items@.take(n as int) =~= items@);
    }
    (count, first)
}

/// Scan the users for `name`, as [`scan_contexts`] does.
fn scan_users(items: &Vec<NamedAuthInfo>, name: &String) -> (r: (usize, usize))
    ensures
        ({
            let f = matching_users(items@, name@);
            &&& r.0 == f.len()
            &&& f.len() > 0 ==> r.1 < items@.len() && items@[r.1 as int] == f[0]
        }),
{
    let mut count: usize = 0;
    let mut first: usize = 0;
    let n = items.len();
    let mut i: usize = 0;
    while i < n
        invariant
            i <= n,
            n == items@.len(),
            count == matching_users(items@.take(i as int), name@).len(),
            count <= i,
            count > 0 ==> first < i && items@[first as int] == matching_users(
                items@.take(i as int),
                name@,
            )[0],
        decreases n - i,
    {
        proof {
            assert(items@.take(i + 1) =~= items@.take(i as int).push(items@[i as int]));
            items@.take(i as int).lemma_filter_push(items@[i as int], user_pred(name@));
        }
        if items[i].name.eq(name) {
            if count == 0 {
                first = i;
            }
            count = count + 1;
        }
        i = i + 1;
    }
    proof {
        assert(items@.take(n as int) =~= items@);
    }
    (count, first)
}

/// `prefix` followed by `name`, for error messages.
pub(crate) fn prefixed(prefix: &str, name: &String) -> (r: String)
    ensures
        r@ == prefix@ + name@,
{
    let mut s = prefix.to_owned();
    s.append(name.as_str());
    s
}

impl KubeConfig {
    /// Resolve the context called `name` into its (cluster, user,
    /// namespace) triple.
    pub fn context(&self, name: &str) -> (r: Result<ClusterContext, Error>)
        ensures
            resolution_spec(*self, name@, r),
    {
        let owned = name.to_owned();
        let (ccount, cidx) = scan_contexts(&self.contexts, &owned);
        if ccount == 0 {
            return Err(Error::NotFoundError(prefixed("unknown context ", &owned)));
        }
        if ccount > 1 {
            return Err(Error::AmbiguousError(prefixed("ambiguous context ", &owned)));
        }
        let ctx = &self.contexts[cidx].context;
        let (clcount, clidx) = scan_clusters(&self.clusters, &ctx.cluster);
        if clcount == 0 {
            return Err(Error::NotFoundError(prefixed("unknown cluster ", &ctx.cluster)));
        }
        if clcount > 1 {
            return Err(Error::AmbiguousError(prefixed("ambiguous cluster ", &ctx.cluster)));
        }
        let (ucount, uidx) = scan_users(&self.users, &ctx.user);
        if ucount == 0 {
            return Err(Error::NotFoundError(prefixed("unknown auth-info ", &ctx.user)));
        }
        if ucount > 1 {
            return Err(Error::AmbiguousError(prefixed("ambiguous auth-info ", &ctx.user)));
        }
        Ok(
            ClusterContext {
                name: owned,
                cluster: self.clusters[clidx].cluster.clone(),
                user: self.users[uidx].user.clone(),
                namespace: match &ctx.namespace {
                    Some(n) => n.clone(),
                    None => "default".to_owned(),
                },
                extensions: None,
            },
        )
    }

    /// Resolve the document's current context.
    pub fn default_context(&self) -> (r: Result<ClusterContext, Error>)
        ensures
            resolution_spec(*self, self.current_context@, r),
    {
        let name = self.current_context.clone();
        self.context(name.as_str())
    }
}

// --- resolution laws ---

proof fn lemma_filter_single<A>(s: Seq<A>, pred: spec_fn(A) -> bool, i: int)
    requires
        0 <= i < s.len(),
        pred(s[i]),
        forall|j: int| 0 <= j < s.len() && j != i ==> !pred(#[trigger] s[j]),
    ensures
        s.filter(pred).len() == 1,
        s.filter(pred)[0] == s[i],
    decreases s.len(),
{
    assert(s.drop_last().push(s.last()) =~= s);
    s.drop_last().lemma_filter_push(s.last(), pred);
    if i == s.len() - 1 {
        assert(s.drop_last().all(|x: A| !pred(x))) by {
            assert forall|j: int| 0 <= j < s.drop_last().len() implies !pred(
                s.drop_last()[j],
            ) by {
                assert(s.drop_last()[j] == s[j]);
            }
        }
        s.drop_last().lemma_all_neg_filter_empty(pred);
    } else {
        lemma_filter_single(s.drop_last(), pred, i);
        assert(!pred(s.last()));
    }
}

proof fn lemma_filter_at_least_two<A>(s: Seq<A>, pred: spec_fn(A) -> bool, i: int, j: int)
    requires
        0 <= i < j < s.len(),
        pred(s[i]),
        pred(s[j]),
    ensures
        s.filter(pred).len() >= 2,
    decreases s.len(),
{
    assert(s.drop_last().push(s.last()) =~= s);
    s.drop_last().lemma_filter_push(s.last(), pred);
    if j == s.len() - 1 {
        assert(s.drop_last()[i] == s[i]);
        s.drop_last().lemma_filter_contains(pred, i);
        assert(s.drop_last().filter(pred).len() >= 1);
    } else {
        lemma_filter_at_least_two(s.drop_last(), pred, i, j);
    }
}

/// Law: in a document whose context names are unique and whose
/// cluster and user lists resolve the named context's references
/// uniquely, resolving the name of any context yields exactly that
/// context's triple: its cluster, its user, its namespace.
pub proof fn lemma_resolve_unique_names(
    cfg: KubeConfig,
    i: int,
    r: Result<ClusterContext, Error>,
)
    requires
        0 <= i < cfg.contexts@.len(),
        resolution_spec(cfg, cfg.contexts@[i].name@, r),
        forall|p: int, q: int|
            0 <= p < q < cfg.contexts@.len() ==> #[trigger] cfg.contexts@[p].name@
                != #[trigger] cfg.contexts@[q].name@,
        matching_clusters(cfg.clusters@, cfg.contexts@[i].context.cluster@).len() == 1,
        matching_users(cfg.users@, cfg.contexts@[i].context.user@).len() == 1,
    ensures
        r matches Ok(cc) && {
            let ctx = cfg.contexts@[i].context;
            &&& cc.name@ == cfg.contexts@[i].name@
            &&& cluster_eq(cc.cluster, matching_clusters(cfg.clusters@, ctx.cluster@)[0].cluster)
            &&& cc.user == matching_users(cfg.users@, ctx.user@)[0].user
            &&& cc.namespace@ == resolved_namespace(ctx)
        },
{
    let name = cfg.contexts@[i].name@;
    assert forall|j: int|
        0 <= j < cfg.contexts@.len() && j != i implies !(context_pred(name)(
        #[trigger] cfg.contexts@[j],
    )) by {
        if j < i {
            assert(cfg.contexts@[j].name@ != cfg.contexts@[i].name@);
        } else {
            assert(cfg.contexts@[i].name@ != cfg.contexts@[j].name@);
        }
    }
    lemma_filter_single(cfg.contexts@, context_pred(name), i);
}

/// Law: resolving a name that no context carries is a not-found
/// error.
pub proof fn lemma_resolve_absent_name(
    cfg: KubeConfig,
    name: Seq<char>,
    r: Result<ClusterContext, Error>,
)
    requires
        resolution_spec(cfg, name, r),
        forall|p: int| 0 <= p < cfg.contexts@.len() ==> #[trigger] cfg.contexts@[p].name@ != name,
    ensures
        r matches Err(e) && e is NotFoundError,
{
    assert(cfg.contexts@.all(|c: NamedContext| !context_pred(name)(c))) by {
        assert forall|j: int| 0 <= j < cfg.contexts@.len() implies !context_pred(name)(
            cfg.contexts@[j],
        ) by {
            assert(cfg.contexts@[j].name@ != name);
        }
    }
    cfg.contexts@.lemma_all_neg_filter_empty(context_pred(name));
}

/// Law: two contexts sharing one name make that name ambiguous.
pub proof fn lemma_resolve_duplicate_name(
    cfg: KubeConfig,
    p: int,
    q: int,
    r: Result<ClusterContext, Error>,
)
    requires
        0 <= p < q < cfg.contexts@.len(),
        cfg.contexts@[q].name@ == cfg.contexts@[p].name@,
        resolution_spec(cfg, cfg.contexts@[p].name@, r),
    ensures
        r matches Err(e) && e is AmbiguousError,
{
    let name = cfg.contexts@[p].name@;
    lemma_filter_at_least_two(cfg.contexts@, context_pred(name), p, q);
}

} // verus!
