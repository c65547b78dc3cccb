use kubeclient::client::AuthStrategy;
use kubeclient::client::HttpMethod;
use kubeclient::client::KubeLowLevel;
use kubeclient::client::normalize_log_line;
use kubeclient::client::auth_strategy;
use kubeclient::client::exists_outcome;
use kubeclient::client::resolve_client_config;
use kubeclient::client::response_outcome;
use kubeclient::client::status_is_success;
use kubeclient::config::AuthInfo;
use kubeclient::config::AuthProvider;
use kubeclient::config::AuthProviderConfig;
use kubeclient::config::Cluster;
use kubeclient::config::ClusterContext;
use kubeclient::config::Material;
use kubeclient::errors::Error;
use kubeclient::routes::ResourceRoute;

fn auth_info() -> AuthInfo {
    AuthInfo {
        username: None,
        password: None,
        auth_provider: None,
        token: None,
        token_file: None,
        client_certificate_file: None,
        client_certificate_data: None,
        client_key_file: None,
        client_key_data: None,
        impersonate: None,
    }
}

fn context(server: &str, user: AuthInfo) -> ClusterContext {
    ClusterContext {
        name: "ctx".to_string(),
        cluster: Cluster {
            server: server.to_string(),
            insecure_tls: None,
            ca_file: None,
            ca_data: None,
            extensions: None,
        },
        user,
        namespace: "default".to_string(),
        extensions: None,
    }
}

#[test]
fn username_wins_over_bearer_token() {
    let mut a = auth_info();
    a.username = Some("admin".to_string());
    a.password = Some("hunter".to_string());
    a.token = Some("ignored-token".to_string());
    match auth_strategy(&a) {
        AuthStrategy::Basic { username, password } => {
            assert_eq!(username, "admin");
            assert_eq!(password, Some("hunter".to_string()));
        }
        other => panic!("expected basic auth, got {:?}", other),
    }
}

#[test]
fn bearer_token_when_no_username() {
    let mut a = auth_info();
    a.token = Some("abc123".to_string());
    match auth_strategy(&a) {
        AuthStrategy::Bearer { token } => assert_eq!(token, "abc123"),
        other => panic!("expected bearer auth, got {:?}", other),
    }
}

#[test]
fn provider_access_token_comes_third() {
    let mut a = auth_info();
    a.auth_provider = Some(AuthProvider {
        config: Some(AuthProviderConfig { access_token: Some("prov-token".to_string()) }),
        name: Some("oidc".to_string()),
    });
    match auth_strategy(&a) {
        AuthStrategy::Bearer { token } => assert_eq!(token, "prov-token"),
        other => panic!("expected bearer auth, got {:?}", other),
    }
}

#[test]
fn no_credentials_means_no_auth_header() {
    let a = auth_info();
    assert!(matches!(auth_strategy(&a), AuthStrategy::NoAuth));
}

#[test]
fn health_request_targets_healthz() {
    let client = KubeLowLevel::from_context(&context("http://host:8080", auth_info()));
    let req = client.health_request().unwrap();
    assert_eq!(req.method, HttpMethod::Get);
    assert_eq!(req.url, "http://host:8080/healthz");
}

#[test]
fn exists_request_is_an_authenticated_get() {
    let mut a = auth_info();
    a.token = Some("abc".to_string());
    let client = KubeLowLevel::from_context(&context("http://host:8080", a));
    let mut route = ResourceRoute::new("/api/v1", "pods", "test-pod");
    route.namespace("default");
    let req = client.exists_request(&route).unwrap();
    assert_eq!(req.method, HttpMethod::Get);
    assert_eq!(req.url, "http://host:8080/api/v1/namespaces/default/pods/test-pod");
    assert!(matches!(req.auth, AuthStrategy::Bearer { .. }));
}

#[test]
fn exists_outcome_by_status() {
    assert_eq!(exists_outcome(404, None).unwrap(), false);
    assert_eq!(exists_outcome(200, None).unwrap(), true);
    assert_eq!(exists_outcome(204, None).unwrap(), true);
    match exists_outcome(403, Some("forbidden by policy".to_string())) {
        Err(Error::ApiError(m)) => assert_eq!(m, "forbidden by policy"),
        other => panic!("expected ApiError, got {:?}", other),
    }
    assert!(matches!(exists_outcome(500, None), Err(Error::DecodeError(_))));
}

#[test]
fn response_outcome_prefixes_the_server_message() {
    assert!(response_outcome(201, &None).is_ok());
    match response_outcome(503, &Some("etcd is down".to_string())) {
        Err(Error::ApiError(m)) => assert_eq!(m, "Kubernetes API error: etcd is down"),
        other => panic!("expected ApiError, got {:?}", other),
    }
    assert!(matches!(response_outcome(500, &None), Err(Error::DecodeError(_))));
}

#[test]
fn success_statuses_are_the_two_hundreds() {
    assert!(!status_is_success(199));
    assert!(status_is_success(200));
    assert!(status_is_success(299));
    assert!(!status_is_success(300));
    assert!(!status_is_success(404));
}

#[test]
fn identity_needs_both_certificate_and_key() {
    // Certificate only: identity stays absent, with no error.
    let mut a = auth_info();
    a.client_certificate_data = Some("Q0VSVA==".to_string());
    let cfg = resolve_client_config(&context("https://h", a)).unwrap();
    assert!(cfg.identity.is_none());

    // Both present: the identity holds both materials.
    let mut a = auth_info();
    a.client_certificate_data = Some("Q0VSVA==".to_string());
    a.client_key_file = Some("/etc/key.pem".to_string());
    let cfg = resolve_client_config(&context("https://h", a)).unwrap();
    let id = cfg.identity.unwrap();
    match id.certificate {
        Material::Inline(t) => assert_eq!(t, "CERT"),
        other => panic!("expected inline material, got {:?}", other),
    }
    match id.key {
        Material::FilePath(p) => assert_eq!(p, "/etc/key.pem"),
        other => panic!("expected file material, got {:?}", other),
    }
}

#[test]
fn client_config_carries_ca_auth_and_base_url() {
    let mut a = auth_info();
    a.username = Some("admin".to_string());
    let mut ctx = context("https://cluster.example:6443", a);
    ctx.cluster.ca_data = Some("Q0FEQVRB".to_string());
    let cfg = resolve_client_config(&ctx).unwrap();
    assert_eq!(cfg.base_url, "https://cluster.example:6443");
    assert!(!cfg.accept_invalid_hostnames);
    assert!(matches!(cfg.ca, Some(Material::Inline(_))));
    assert!(matches!(cfg.auth, AuthStrategy::Basic { .. }));
}

#[test]
fn hostname_verification_bypass_is_an_explicit_opt_in() {
    // Off unless the cluster asks for it.
    let cfg = resolve_client_config(&context("https://h", auth_info())).unwrap();
    assert!(!cfg.accept_invalid_hostnames);

    let mut ctx = context("https://h", auth_info());
    ctx.cluster.insecure_tls = Some(true);
    let cfg = resolve_client_config(&ctx).unwrap();
    assert!(cfg.accept_invalid_hostnames);

    let mut ctx = context("https://h", auth_info());
    ctx.cluster.insecure_tls = Some(false);
    let cfg = resolve_client_config(&ctx).unwrap();
    assert!(!cfg.accept_invalid_hostnames);
}

#[test]
fn bad_inline_material_fails_client_config() {
    let mut a = auth_info();
    a.client_key_data = Some("not base64 at all!".to_string());
    let r = resolve_client_config(&context("https://h", a));
    assert!(matches!(r, Err(Error::ParseError(_))));
}

#[test]
fn log_lines_are_trimmed_at_the_end() {
    assert_eq!(normalize_log_line("ready to serve \r\n"), "ready to serve");
    assert_eq!(normalize_log_line("  indented kept"), "  indented kept");
    assert_eq!(normalize_log_line("\n"), "");
    assert_eq!(normalize_log_line(""), "");
}
