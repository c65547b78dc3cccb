//! A verified core for a Kubernetes-style API client.
//!
//! The library covers the parts of such a client that must get subtle
//! details right: resolving a kubeconfig document into a concrete
//! (cluster, user, namespace) triple, turning certificate material and
//! credentials into a TLS/authentication configuration, building REST
//! routes for resource kinds, and deciding the create-if-absent
//! ("apply") and unconditional-replace reconciliation steps.  File and
//! network I/O stay outside; callers hand in plain values (file
//! contents, HTTP status codes, decoded error messages) and receive
//! plain values (request descriptions, outcomes) back.

pub mod client;
pub mod codec;
pub mod config;
pub mod errors;
pub mod reconcile;
pub mod routes;
pub mod urls;
