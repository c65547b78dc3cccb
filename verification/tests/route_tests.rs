use kubeclient::errors::Error;
use kubeclient::routes::KindRoute;
use kubeclient::routes::ResourceRoute;

const BASE: &str = "http://host:8080";

#[test]
fn kind_route_without_namespace() {
    let route = KindRoute::new("/api/v1", "pods");
    let url = route.build(BASE).unwrap();
    assert_eq!(url, "http://host:8080/api/v1/pods");
}

#[test]
fn kind_route_with_namespace() {
    let mut route = KindRoute::new("/api/v1", "pods");
    route.namespace("default");
    let url = route.build(BASE).unwrap();
    assert_eq!(url, "http://host:8080/api/v1/namespaces/default/pods");
}

#[test]
fn kind_route_query_pairs_keep_their_order() {
    let mut route = KindRoute::new("/api/v1", "pods");
    route.namespace("default");
    route.query(vec![
        ("watch".to_string(), "true".to_string()),
        ("limit".to_string(), "10".to_string()),
    ]);
    let url = route.build(BASE).unwrap();
    assert_eq!(
        url,
        "http://host:8080/api/v1/namespaces/default/pods?watch=true&limit=10"
    );
}

#[test]
fn resource_route_without_namespace_omits_the_segment() {
    let route = ResourceRoute::new("/api/v1", "nodes", "worker-1");
    let url = route.build(BASE).unwrap();
    assert_eq!(url, "http://host:8080/api/v1/nodes/worker-1");
}

#[test]
fn resource_route_with_namespace() {
    let mut route = ResourceRoute::new("/api/v1", "pods", "test-pod");
    route.namespace("kube-system");
    let url = route.build(BASE).unwrap();
    assert_eq!(url, "http://host:8080/api/v1/namespaces/kube-system/pods/test-pod");
}

#[test]
fn log_route_defaults_the_namespace_to_default() {
    let mut route = ResourceRoute::new("/api/v1", "pods", "test-pod");
    route.logs();
    route.subresource("test-container");
    let url = route.build(BASE).unwrap();
    assert_eq!(
        url,
        "http://host:8080/api/v1/namespaces/default/pods/test-pod/log?follow=1&container=test-container"
    );
}

#[test]
fn log_route_without_subresource() {
    let mut route = ResourceRoute::new("/api/v1", "pods", "test-pod");
    route.namespace("dev");
    route.logs();
    let url = route.build(BASE).unwrap();
    assert_eq!(url, "http://host:8080/api/v1/namespaces/dev/pods/test-pod/log?follow=1");
}

#[test]
fn malformed_base_url_is_a_url_error() {
    let route = KindRoute::new("/api/v1", "pods");
    assert!(matches!(route.build("not a url"), Err(Error::UrlError(_))));
}
