//! REST routes for Kubernetes resource kinds.
//!
//! A kind route addresses a collection (list, create); a resource
//! route addresses one named object (get, delete, logs).  Path
//! computation never fails; only joining the finished path onto the
//! base server URL can, with [`Error::UrlError`].  One asymmetry is
//! kept deliberately rather than smoothed over: a log-follow
//! route falls back to the literal namespace `default` when none was
//! supplied, while the ordinary resource path omits the namespace
//! segment entirely.

use vstd::prelude::*;
use vstd::string::StringExecFns;
use crate::errors::Error;
use crate::urls::join_url;
use crate::urls::joined_url;
use crate::urls::append_query_pairs;
use crate::urls::url_with_query_pairs;
use crate::urls::pair_views;

verus! {

/// The view of an optional string.
pub open spec fn opt_view(o: Option<String>) -> Option<Seq<char>> {
    match o {
        Some(s) => Some(s@),
        None => None,
    }
}

/// A collection-level route: `{api}/{kind}`, or
/// `{api}/namespaces/{namespace}/{kind}` when a namespace is set,
/// with any query pairs appended in the order supplied.
#[derive(Debug)]
pub struct KindRoute {
    pub api: String,
    pub namespace: Option<String>,
    pub kind: String,
    pub query: Option<Vec<(String, String)>>,
}

/// A single-object route: the kind route with the resource name
/// appended, or the log-follow form when `logs` is set.
#[derive(Debug)]
pub struct ResourceRoute {
    pub api: String,
    pub namespace: Option<String>,
    pub kind: String,
    pub resource: String,
    pub logs: Option<bool>,
    pub subresource: Option<String>,
    pub query: Option<Vec<(String, String)>>,
}

/// The path of a kind route.
pub open spec fn spec_kind_path(api: Seq<char>, ns: Option<Seq<char>>, kind: Seq<char>) -> Seq<
    char,
> {
    match ns {
        Some(n) => api + "/namespaces/"@ + n + "/"@ + kind,
        None => api + "/"@ + kind,
    }
}

/// The path of a resource route.  With `logs` set the namespace falls
/// back to the literal `default`; otherwise an absent namespace omits
/// the segment entirely.
pub open spec fn spec_resource_path(
    api: Seq<char>,
    ns: Option<Seq<char>>,
    kind: Seq<char>,
    resource: Seq<char>,
    logs: Option<bool>,
    sub: Option<Seq<char>>,
) -> Seq<char> {
    if logs == Some(true) {
        let n = match ns {
            Some(n) => n,
            None => "default"@,
        };
        let stem = api + "/namespaces/"@ + n + "/"@ + kind + "/"@ + resource + "/log?follow=1"@;
        match sub {
            Some(sr) => stem + "&container="@ + sr,
            None => stem,
        }
    } else {
        match ns {
            Some(n) => api + "/namespaces/"@ + n + "/"@ + kind + "/"@ + resource,
            None => api + "/"@ + kind + "/"@ + resource,
        }
    }
}

/// The full URL a route aims at: the path joined onto the base URL,
/// then any query pairs appended; `None` when the base URL cannot be
/// joined or re-parsed.
pub open spec fn route_target(
    base: Seq<char>,
    path: Seq<char>,
    query: Option<Seq<(Seq<char>, Seq<char>)>>,
) -> Option<Seq<char>> {
    match joined_url(base, path) {
        Some(u) => match query {
            Some(q) => url_with_query_pairs(u, q),
            None => Some(u),
        },
        None => None,
    }
}

/// What building a route yields: its target URL, or
/// [`Error::UrlError`] exactly when no target exists.
pub open spec fn build_spec(
    base: Seq<char>,
    path: Seq<char>,
    query: Option<Seq<(Seq<char>, Seq<char>)>>,
    r: Result<String, Error>,
) -> bool {
    match route_target(base, path, query) {
        Some(u) => r matches Ok(s) && s@ == u,
        None => r matches Err(e) && e is UrlError,
    }
}

/// The views of an optional query-pair list.
pub open spec fn query_views(q: Option<Vec<(String, String)>>) -> Option<
    Seq<(Seq<char>, Seq<char>)>,
> {
    match q {
        Some(pairs) => Some(pair_views(pairs@)),
        None => None,
    }
}

/// Join `path` onto `base`, then append `query` when present.
fn build_from_path(base: &str, path: String, query: &Option<Vec<(String, String)>>) -> (r: Result<
    String,
    Error,
>)
    ensures
        build_spec(base@, path@, query_views(*query), r),
{
    match join_url(base, path.as_str()) {
        Some(u) => match query {
            Some(pairs) => match append_query_pairs(u.as_str(), pairs) {
                Some(qq) => Ok(qq),
                None => Err(Error::UrlError("cannot join query onto the server URL".to_owned())),
            },
            None => Ok(u),
        },
        None => Err(Error::UrlError("cannot join the path onto the server URL".to_owned())),
    }
}

impl KindRoute {
    /// A route for the collection of `kind` under the API root `api`.
    pub fn new(api: &str, kind: &str) -> (r: KindRoute)
        ensures
            r.api@ == api@,
            r.kind@ == kind@,
            r.namespace is None,
            r.query is None,
    {
        KindRoute { api: api.to_owned(), kind: kind.to_owned(), namespace: None, query: None }
    }

    /// Scope the route to a namespace.
    pub fn namespace(&mut self, namespace: &str)
        ensures
            final(self).namespace matches Some(n) && n@ == namespace@,
            final(self).api == old(self).api,
            final(self).kind == old(self).kind,
            final(self).query == old(self).query,
    {
        self.namespace = Some(namespace.to_owned());
    }

    /// Append query pairs, kept in the order supplied.
    pub fn query(&mut self, query: Vec<(String, String)>)
        ensures
            final(self).query matches Some(q) && q@ == query@,
            final(self).api == old(self).api,
            final(self).kind == old(self).kind,
            final(self).namespace == old(self).namespace,
    {
        self.query = Some(query);
    }

    /// The route's path, before joining.
    pub open spec fn spec_path(self) -> Seq<char> {
        spec_kind_path(self.api@, opt_view(self.namespace), self.kind@)
    }

    /// Build the full URL against the base server URL.
    pub fn build(&self, base_url: &str) -> (r: Result<String, Error>)
        ensures
            build_spec(base_url@, self.spec_path(), query_views(self.query), r),
    {
        let path: String = match &self.namespace {
            Some(ns) => {
                let mut s = self.api.clone();
                s.append("/namespaces/");
                s.append(ns.as_str());
                s.append("/");
                s.append(self.kind.as_str());
                s
            },
            None => {
                let mut s = self.api.clone();
                s.append("/");
                s.append(self.kind.as_str());
                s
            },
        };
        build_from_path(base_url, path, &self.query)
    }
}

impl ResourceRoute {
    /// A route for the object `resource` of `kind` under the API root
    /// `api`.
    pub fn new(api: &str, kind: &str, resource: &str) -> (r: ResourceRoute)
        ensures
            r.api@ == api@,
            r.kind@ == kind@,
            r.resource@ == resource@,
            r.namespace is None,
            r.logs is None,
            r.subresource is None,
            r.query is None,
    {
        ResourceRoute {
            api: api.to_owned(),
            kind: kind.to_owned(),
            resource: resource.to_owned(),
            namespace: None,
            logs: None,
            subresource: None,
            query: None,
        }
    }

    /// Scope the route to a namespace.
    pub fn namespace(&mut self, namespace: &str)
        ensures
            final(self).namespace matches Some(n) && n@ == namespace@,
            final(self).api == old(self).api,
            final(self).kind == old(self).kind,
            final(self).resource == old(self).resource,
            final(self).logs == old(self).logs,
            final(self).subresource == old(self).subresource,
            final(self).query == old(self).query,
    {
        self.namespace = Some(namespace.to_owned());
    }

    /// Turn the route into a log-follow route.
    pub fn logs(&mut self)
        ensures
            final(self).logs == Some(true),
            final(self).api == old(self).api,
            final(self).kind == old(self).kind,
            final(self).resource == old(self).resource,
            final(self).namespace == old(self).namespace,
            final(self).subresource == old(self).subresource,
            final(self).query == old(self).query,
    {
        self.logs = Some(true);
    }

    /// Name a subresource (for logs: the container).
    pub fn subresource(&mut self, subresource: &str)
        ensures
            final(self).subresource matches Some(s) && s@ == subresource@,
            final(self).api == old(self).api,
            final(self).kind == old(self).kind,
            final(self).resource == old(self).resource,
            final(self).namespace == old(self).namespace,
            final(self).logs == old(self).logs,
            final(self).query == old(self).query,
    {
        self.subresource = Some(subresource.to_owned());
    }

    /// The route's path, before joining.
    pub open spec fn spec_path(self) -> Seq<char> {
        spec_resource_path(
            self.api@,
            opt_view(self.namespace),
            self.kind@,
            self.resource@,
            self.logs,
            opt_view(self.subresource),
        )
    }

    /// Build the full URL against the base server URL.
    pub fn build(&self, base_url: &str) -> (r: Result<String, Error>)
        ensures
            build_spec(base_url@, self.spec_path(), query_views(self.query), r),
    {
        let follow = match &self.logs {
            Some(b) => *b,
            None => false,
        };
        let path: String = if follow {
            let mut s = self.api.clone();
            s.append("/namespaces/");
            match &self.namespace {
                Some(ns) => s.append(ns.as_str()),
                None => s.append("default"),
            };
            s.append("/");
            s.append(self.kind.as_str());
            s.append("/");
            s.append(self.resource.as_str());
            s.append("/log?follow=1");
            match &self.subresource {
                Some(sr) => {
                    s.append("&container=");
                    s.append(sr.as_str());
                },
                None => {},
            };
            s
        } else {
            match &self.namespace {
                Some(ns) => {
                    let mut s = self.api.clone();
                    s.append("/namespaces/");
                    s.append(ns.as_str());
                    s.append("/");
                    s.append(self.kind.as_str());
                    s.append("/");
                    s.append(self.resource.as_str());
                    s
                },
                None => {
                    let mut s = self.api.clone();
                    s.append("/");
                    s.append(self.kind.as_str());
                    s.append("/");
                    s.append(self.resource.as_str());
                    s
                },
            }
        };
        build_from_path(base_url, path, &self.query)
    }
}

} // verus!
