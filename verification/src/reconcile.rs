//! Reconciling resource definition files against the live cluster.
//!
//! A resource document identifies itself: its API version picks the
//! API root (`/api` for legacy version strings beginning with `v`,
//! `/apis` for API groups), its kind and metadata pick the collection
//! and object URLs.  Apply is create-if-absent: an existence check
//! first, then exactly one POST to the collection when the check came
//! back 404, and nothing at all when the object already exists.
//! Replace never checks: it is always exactly one PUT of the object's
//! own URL.  A directory batch fails as soon as one file fails,
//! carrying that file's own error.

use vstd::prelude::*;
use vstd::string::StrSliceExecFns;
use vstd::string::StringExecFns;
use crate::client::HttpMethod;
use crate::client::HttpRequest;
use crate::client::KubeLowLevel;
use crate::client::auth_strategy;
use crate::client::auth_strategy_spec;
use crate::client::is_success;
use crate::client::status_is_success;
use crate::config::clone_opt_string;
use crate::errors::Error;
use crate::urls::join_url;
use crate::urls::joined_url;

verus! {

/// What a resource document's kind contributes to its route: the
/// plural path segment, and the namespace the kind defaults to when
/// the document names none (cluster-scoped kinds have none).
#[derive(Debug)]
pub struct KindInfo {
    pub plural: String,
    pub default_namespace: Option<String>,
}

impl Clone for KindInfo {
    fn clone(&self) -> (r: Self)
        ensures
            r == *self,
    {
        KindInfo {
            plural: self.plural.clone(),
            default_namespace: clone_opt_string(&self.default_namespace),
        }
    }
}

/// The identification a resource document carries in its metadata.
#[derive(Debug)]
pub struct ObjectMeta {
    pub name: Option<String>,
    pub namespace: Option<String>,
}

impl Clone for ObjectMeta {
    fn clone(&self) -> (r: Self)
        ensures
            r == *self,
    {
        ObjectMeta {
            name: clone_opt_string(&self.name),
            namespace: clone_opt_string(&self.namespace),
        }
    }
}

/// The subset of a resource document needed to compute its route:
/// API version, kind, and metadata.  The rest of the document stays
/// opaque to this core.
#[derive(Debug)]
pub struct MinimalResource {
    pub api_version: String,
    pub kind: KindInfo,
    pub metadata: ObjectMeta,
}

impl Clone for MinimalResource {
    fn clone(&self) -> (r: Self)
        ensures
            r == *self,
    {
        MinimalResource {
            api_version: self.api_version.clone(),
            kind: self.kind.clone(),
            metadata: self.metadata.clone(),
        }
    }
}

/// The API root for a version string: versions beginning with `v`
/// (the legacy core API) route through `/api`, everything else through
/// `/apis`.  A prefix test, not a version parser.
pub open spec fn spec_api_root(v: Seq<char>) -> Seq<char> {
    if v.len() > 0 && v[0] == 'v' {
        "/api"@
    } else {
        "/apis"@
    }
}

fn api_root(api_version: &String) -> (r: &'static str)
    ensures
        r@ == spec_api_root(api_version@),
{
    let s = api_version.as_str();
    if s.unicode_len() > 0 && s.get_char(0) == 'v' {
        "/api"
    } else {
        "/apis"
    }
}

/// The namespace an apply uses: the document's own, else the kind's
/// default, else none (cluster-scoped).
pub open spec fn spec_apply_namespace(m: MinimalResource) -> Option<Seq<char>> {
    match m.metadata.namespace {
        Some(n) => Some(n@),
        None => match m.kind.default_namespace {
            Some(d) => Some(d@),
            None => None,
        },
    }
}

/// The collection path of a resource document.
pub open spec fn spec_collection_path(m: MinimalResource) -> Seq<char> {
    let root = spec_api_root(m.api_version@);
    match spec_apply_namespace(m) {
        Some(ns) => root + "/"@ + m.api_version@ + "/namespaces/"@ + ns + "/"@ + m.kind.plural@,
        None => root + "/"@ + m.api_version@ + "/"@ + m.kind.plural@,
    }
}

fn collection_path(m: &MinimalResource) -> (r: String)
    ensures
        r@ == spec_collection_path(*m),
{
    let mut s = api_root(&m.api_version).to_owned();
    s.append("/");
    s.append(m.api_version.as_str());
    match &m.metadata.namespace {
        Some(n) => {
            s.append("/namespaces/");
            s.append(n.as_str());
        },
        None => match &m.kind.default_namespace {
            Some(d) => {
                s.append("/namespaces/");
                s.append(d.as_str());
            },
            None => {},
        },
    };
    s.append("/");
    s.append(m.kind.plural.as_str());
    s
}

/// The object path a replace uses: unlike apply, the namespace comes
/// from the document's metadata alone, never from the kind's default.
pub open spec fn spec_replace_path(m: MinimalResource, name: Seq<char>) -> Seq<char> {
    let root = spec_api_root(m.api_version@);
    match m.metadata.namespace {
        Some(ns) => root + "/"@ + m.api_version@ + "/namespaces/"@ + ns@ + "/"@ + m.kind.plural@
            + "/"@ + name,
        None => root + "/"@ + m.api_version@ + "/"@ + m.kind.plural@ + "/"@ + name,
    }
}

/// The two requests an apply may need: the existence check, and the
/// create it issues only when the check finds nothing.
#[derive(Debug)]
pub struct ApplyPlan {
    pub check: HttpRequest,
    pub create: HttpRequest,
}

/// What planning an apply for a resource document yields.  A document
/// without a name cannot be reconciled; otherwise the plan holds one
/// GET of the object's own URL and one POST of the collection URL, and
/// nothing else.
pub open spec fn apply_plan_spec(
    c: KubeLowLevel,
    m: MinimalResource,
    r: Result<ApplyPlan, Error>,
) -> bool {
    match m.metadata.name {
        None => r matches Err(e) && e is ValidationError,
        Some(name) => {
            let kp = spec_collection_path(m);
            let rp = kp + "/"@ + name@;
            match joined_url(c.base_url@, kp) {
                None => r matches Err(e) && e is UrlError,
                Some(ku) => match joined_url(c.base_url@, rp) {
                    None => r matches Err(e) && e is UrlError,
                    Some(ru) => r matches Ok(p) && {
                        &&& p.check.method == HttpMethod::Get
                        &&& p.check.url@ == ru
                        &&& auth_strategy_spec(c.auth_info, p.check.auth)
                        &&& p.create.method == HttpMethod::Post
                        &&& p.create.url@ == ku
                        &&& auth_strategy_spec(c.auth_info, p.create.auth)
                    },
                },
            }
        },
    }
}

/// What planning a replace yields: a single PUT of the object's own
/// URL, unconditionally.
pub open spec fn replace_plan_spec(
    c: KubeLowLevel,
    m: MinimalResource,
    r: Result<HttpRequest, Error>,
) -> bool {
    match m.metadata.name {
        None => r matches Err(e) && e is ValidationError,
        Some(name) => match joined_url(c.base_url@, spec_replace_path(m, name@)) {
            None => r matches Err(e) && e is UrlError,
            Some(u) => r matches Ok(req) && req.method == HttpMethod::Put && req.url@ == u
                && auth_strategy_spec(c.auth_info, req.auth),
        },
    }
}

impl KubeLowLevel {
    /// Plan the apply of one resource document: the existence check
    /// and the create that [`apply_action`] may select.
    pub fn apply_file_plan(&self, mini: &MinimalResource) -> (r: Result<ApplyPlan, Error>)
        ensures
            apply_plan_spec(*self, *mini, r),
    {
        let name = match &mini.metadata.name {
            Some(n) => n,
            None => {
                return Err(
                    Error::ValidationError(
                        "metadata.name must be set to apply a kubernetes resource".to_owned(),
                    ),
                );
            },
        };
        let kind_path = collection_path(mini);
        let mut resource_path = kind_path.clone();
        resource_path.append("/");
        resource_path.append(name.as_str());
        let kind_url = match join_url(self.base_url.as_str(), kind_path.as_str()) {
            Some(u) => u,
            None => {
                return Err(
                    Error::UrlError("cannot join the collection path onto the server URL".to_owned()),
                );
            },
        };
        let resource_url = match join_url(self.base_url.as_str(), resource_path.as_str()) {
            Some(u) => u,
            None => {
                return Err(
                    Error::UrlError("cannot join the object path onto the server URL".to_owned()),
                );
            },
        };
        Ok(
            ApplyPlan {
                check: HttpRequest {
                    method: HttpMethod::Get,
                    url: resource_url,
                    auth: auth_strategy(&self.auth_info),
                },
                create: HttpRequest {
                    method: HttpMethod::Post,
                    url: kind_url,
                    auth: auth_strategy(&self.auth_info),
                },
            },
        )
    }

    /// Plan the replace of one resource document: one PUT, whatever
    /// the prior state of the cluster.
    pub fn replace_file_plan(&self, mini: &MinimalResource) -> (r: Result<HttpRequest, Error>)
        ensures
            replace_plan_spec(*self, *mini, r),
    {
        let name = match &mini.metadata.name {
            Some(n) => n,
            None => {
                return Err(
                    Error::ValidationError(
                        "metadata.name must be set to replace a kubernetes resource".to_owned(),
                    ),
                );
            },
        };
        let mut path = api_root(&mini.api_version).to_owned();
        path.append("/");
        path.append(mini.api_version.as_str());
        match &mini.metadata.namespace {
            Some(ns) => {
                path.append("/namespaces/");
                path.append(ns.as_str());
            },
            None => {},
        };
        path.append("/");
        path.append(mini.kind.plural.as_str());
        path.append("/");
        path.append(name.as_str());
        match join_url(self.base_url.as_str(), path.as_str()) {
            Some(u) => Ok(
                HttpRequest {
                    method: HttpMethod::Put,
                    url: u,
                    auth: auth_strategy(&self.auth_info),
                },
            ),
            None => Err(
                Error::UrlError("cannot join the object path onto the server URL".to_owned()),
            ),
        }
    }
}

// --- the apply decision ---

/// What the apply does after its existence check.
#[derive(Clone, Copy, Debug, PartialEq, Eq, Structural)]
pub enum ApplyAction {
    /// The check found nothing: POST the document to the collection.
    CreateNew,
    /// The object exists: issue nothing, return it unchanged.
    ReturnExisting,
    /// The check failed: surface the server's error.
    Surface,
}

/// The apply decision for a status code: 404 creates, success returns
/// the existing object, anything else surfaces the failure.
pub open spec fn spec_apply_action(status: u16) -> ApplyAction {
    if status == 404 {
        ApplyAction::CreateNew
    } else if is_success(status) {
        ApplyAction::ReturnExisting
    } else {
        ApplyAction::Surface
    }
}

/// Decide the apply step from the existence check's status code.
pub fn apply_action(status: u16) -> (r: ApplyAction)
    ensures
        r == spec_apply_action(status),
{
    if status == 404 {
        ApplyAction::CreateNew
    } else if status_is_success(status) {
        ApplyAction::ReturnExisting
    } else {
        ApplyAction::Surface
    }
}

/// The error an apply or existence check surfaces: the server's own
/// message when its error body decoded, a decode failure otherwise.
pub fn surface_error(status_message: Option<String>) -> (r: Error)
    ensures
        match status_message {
            Some(m) => r matches Error::ApiError(s) && s == m,
            None => r is DecodeError,
        },
{
    match status_message {
        Some(m) => Error::ApiError(m),
        None => Error::DecodeError(
            "cannot decode the error response as a status object".to_owned(),
        ),
    }
}

/// Law: the apply creates exactly on absence.  The step after the
/// existence check is the plan's single POST exactly when the check
/// came back 404; a successful check selects no request at all, the
/// existing object being returned unchanged.
pub proof fn lemma_apply_creates_iff_absent(status: u16)
    ensures
        spec_apply_action(status) == ApplyAction::CreateNew <==> status == 404,
        spec_apply_action(status) == ApplyAction::ReturnExisting <==> (200 <= status < 300),
{
}

/// Law: replace never checks existence.  Whenever a replace plan
/// exists, it is a single PUT of the object's own URL, independent of
/// any status code or prior state.
pub proof fn lemma_replace_is_one_put(
    c: KubeLowLevel,
    m: MinimalResource,
    r: Result<HttpRequest, Error>,
)
    requires
        replace_plan_spec(c, m, r),
        r is Ok,
    ensures
        r->Ok_0.method == HttpMethod::Put,
        r->Ok_0.url@ == joined_url(
            c.base_url@,
            spec_replace_path(m, m.metadata.name.unwrap()@),
        ).unwrap(),
{
}

// --- collecting a directory batch ---

/// The unwrapped values of a sequence of successes.
pub open spec fn ok_values<T>(s: Seq<Result<T, Error>>) -> Seq<T> {
    s.map_values(|x: Result<T, Error>| x->Ok_0)
}

/// Whether `j` is the position of the first failure.
pub open spec fn is_first_err<T>(s: Seq<Result<T, Error>>, j: int) -> bool {
    0 <= j < s.len() && s[j] is Err && forall|i: int| 0 <= i < j ==> s[i] is Ok
}

/// What collecting a batch yields: all values, in order, when every
/// entry succeeded; the first failure, unchanged, otherwise.
pub open spec fn collected_spec<T>(s: Seq<Result<T, Error>>, r: Result<Vec<T>, Error>) -> bool {
    if forall|i: int| 0 <= i < s.len() ==> s[i] is Ok {
        r matches Ok(v) && v@ == ok_values(s)
    } else {
        forall|j: int| is_first_err(s, j) ==> (r matches Err(e) && e == s[j]->Err_0)
    }
}

/// Collect the per-file outcomes of a directory batch: every value in
/// order when all succeeded, else the first failure.
pub fn collect_results<T>(results: Vec<Result<T, Error>>) -> (r: Result<Vec<T>, Error>)
    ensures
        collected_spec(results@, r),
{
    let ghost orig = results@;
    let mut v = results;
    let mut out: Vec<T> = Vec::new();
    while v.len() > 0
        invariant
            orig == results@,
            orig.len() == out@.len() + v@.len(),
            v@ == orig.skip(out@.len() as int),
            out@ == ok_values(orig.take(out@.len() as int)),
            forall|i: int| 0 <= i < out@.len() ==> orig[i] is Ok,
        decreases v@.len(),
    {
        let ghost k = out@.len() as int;
        proof {
            assert(v@[0] == orig[k]);
            assert(v@.remove(0) =~= orig.skip(k + 1));
        }
        let x = v.remove(0);
        match x {
            Ok(t) => {
                out.push(t);
                proof {
                    assert(out@ =~= ok_values(orig.take(k + 1))) by {
                        assert(ok_values(orig.take(k + 1)).len() == k + 1);
                        assert forall|i: int| 0 <= i < k + 1 implies out@[i] == ok_values(
                            orig.take(k + 1),
                        )[i] by {
                            assert(ok_values(orig.take(k + 1))[i] == orig.take(k + 1)[i]->Ok_0);
                        }
                    }
                }
            },
            Err(e) => {
                proof {
                    assert(orig[k] is Err);
                    assert(is_first_err(orig, k));
                    assert forall|j: int| is_first_err(orig, j) implies j == k by {
                        if j < k {
                            assert(orig[j] is Ok);
                        } else if j > k {
                            assert(orig[k] is Ok);
                        }
                    }
                }
                return Err(e);
            },
        }
    }
    proof {
        assert(orig.take(out@.len() as int) =~= orig);
        assert(forall|i: int| 0 <= i < orig.len() ==> orig[i] is Ok);
    }
    Ok(out)
}

/// Law: one failing file among many fails the whole batch, carrying
/// that file's own error and message.
pub proof fn lemma_batch_carries_failure<T>(
    s: Seq<Result<T, Error>>,
    j: int,
    r: Result<Vec<T>, Error>,
)
    requires
        collected_spec(s, r),
        is_first_err(s, j),
    ensures
        r matches Err(e) && e == s[j]->Err_0,
{
    assert(!(s[j] is Ok));
}

// --- which files a directory apply considers ---

/// A document format this reconciler reads.
#[derive(Clone, Copy, Debug, PartialEq, Eq, Structural)]
pub enum DocumentFormat {
    Json,
    Yaml,
}

/// `i` is the position of the last dot of `s`, and not its first
/// character: exactly when a file name has an extension.
pub open spec fn has_last_dot_at(s: Seq<char>, i: int) -> bool {
    0 < i < s.len() && s[i] == '.' && forall|j: int| i < j < s.len() ==> s[j] != '.'
}

/// The extension of a file name: what follows the last dot, when that
/// dot is neither absent nor the leading character.
pub open spec fn spec_extension_of(s: Seq<char>) -> Option<Seq<char>> {
    if exists|i: int| has_last_dot_at(s, i) {
        Some(s.subrange((choose|i: int| has_last_dot_at(s, i)) + 1, s.len() as int))
    } else {
        None
    }
}

/// The four extension characters spell `json`, ASCII case ignored.
pub open spec fn json_ext(e: Seq<char>) -> bool {
    e.len() == 4 && (e[0] == 'j' || e[0] == 'J') && (e[1] == 's' || e[1] == 'S') && (e[2] == 'o'
        || e[2] == 'O') && (e[3] == 'n' || e[3] == 'N')
}

/// The four extension characters spell `yaml`, ASCII case ignored.
pub open spec fn yaml_ext(e: Seq<char>) -> bool {
    e.len() == 4 && (e[0] == 'y' || e[0] == 'Y') && (e[1] == 'a' || e[1] == 'A') && (e[2] == 'm'
        || e[2] == 'M') && (e[3] == 'l' || e[3] == 'L')
}

pub open spec fn has_json_ext(s: Seq<char>) -> bool {
    spec_extension_of(s) matches Some(e) && json_ext(e)
}

pub open spec fn has_yaml_ext(s: Seq<char>) -> bool {
    spec_extension_of(s) matches Some(e) && yaml_ext(e)
}

/// A file name a directory apply considers: its extension is `json` or
/// `yaml`, ASCII case ignored.
pub open spec fn is_resource_file_name(s: Seq<char>) -> bool {
    has_json_ext(s) || has_yaml_ext(s)
}

proof fn lemma_last_dot_unique(s: Seq<char>, i1: int, i2: int)
    requires
        has_last_dot_at(s, i1),
        has_last_dot_at(s, i2),
    ensures
        i1 == i2,
{
    if i1 < i2 {
        assert(s[i2] != '.');
    } else if i2 < i1 {
        assert(s[i1] != '.');
    }
}

/// The format of a resource definition file, by its name's extension;
/// `None` for the files a directory apply never touches.
pub fn resource_format(name: &str) -> (r: Option<DocumentFormat>)
    ensures
        r is Some <==> is_resource_file_name(name@),
        r == Some(DocumentFormat::Json) <==> has_json_ext(name@),
        r == Some(DocumentFormat::Yaml) <==> has_yaml_ext(name@),
{
    let n = name.unicode_len();
    let mut i: usize = 0;
    let mut dot: usize = 0;
    let mut found = false;
    while i < n
        invariant
            i <= n,
            n == name@.len(),
            found ==> dot < i && name@[dot as int] == '.' && (forall|j: int|
                dot < j < i ==> name@[j] != '.'),
            !found ==> forall|j: int| 0 <= j < i ==> name@[j] != '.',
        decreases n - i,
    {
        if name.get_char(i) == '.' {
            dot = i;
            found = true;
        }
        i = i + 1;
    }
    if !found || dot == 0 {
        proof {
            assert forall|i2: int| !has_last_dot_at(name@, i2) by {
                if 0 < i2 < name@.len() {
                    assert(name@[i2] != '.');
                }
            }
        }
        return None;
    }
    proof {
        assert(has_last_dot_at(name@, dot as int));
        lemma_last_dot_unique(name@, dot as int, choose|i2: int| has_last_dot_at(name@, i2));
        assert(spec_extension_of(name@) == Some(
            name@.subrange(dot as int + 1, name@.len() as int),
        ));
    }
    if n - dot != 5 {
        return None;
    }
    let c0 = name.get_char(dot + 1);
    let c1 = name.get_char(dot + 2);
    let c2 = name.get_char(dot + 3);
    let c3 = name.get_char(dot + 4);
    let is_json = (c0 == 'j' || c0 == 'J') && (c1 == 's' || c1 == 'S') && (c2 == 'o' || c2 == 'O')
        && (c3 == 'n' || c3 == 'N');
    let is_yaml = (c0 == 'y' || c0 == 'Y') && (c1 == 'a' || c1 == 'A') && (c2 == 'm' || c2 == 'M')
        && (c3 == 'l' || c3 == 'L');
    proof {
        let e = spec_extension_of(name@).unwrap();
        assert(e.len() == 4);
        assert(e[0] == name@[dot as int + 1]);
        assert(e[1] == name@[dot as int + 2]);
        assert(e[2] == name@[dot as int + 3]);
        assert(e[3] == name@[dot as int + 4]);
    }
    if is_json {
        Some(DocumentFormat::Json)
    } else if is_yaml {
        Some(DocumentFormat::Yaml)
    } else {
        None
    }
}

} // verus!
