use kubeclient::config::AuthInfo;
use kubeclient::config::Cluster;
use kubeclient::config::Context;
use kubeclient::config::KubeConfig;
use kubeclient::config::Material;
use kubeclient::config::NamedAuthInfo;
use kubeclient::config::NamedCluster;
use kubeclient::config::NamedContext;
use kubeclient::errors::Error;

fn auth_info() -> AuthInfo {
    AuthInfo {
        username: None,
        password: None,
        auth_provider: None,
        token: None,
        token_file: None,
        client_certificate_file: None,
        client_certificate_data: None,
        client_key_file: None,
        client_key_data: None,
        impersonate: None,
    }
}

fn cluster(server: &str) -> Cluster {
    Cluster {
        server: server.to_string(),
        insecure_tls: None,
        ca_file: None,
        ca_data: None,
        extensions: None,
    }
}

fn named_context(name: &str, cluster: &str, user: &str, namespace: Option<&str>) -> NamedContext {
    NamedContext {
        name: name.to_string(),
        context: Context {
            cluster: cluster.to_string(),
            user: user.to_string(),
            namespace: namespace.map(|n| n.to_string()),
            extensions: None,
        },
    }
}

fn sample_config() -> KubeConfig {
    KubeConfig {
        kind: Some("Config".to_string()),
        api_version: Some("v1".to_string()),
        preferences: None,
        clusters: vec![
            NamedCluster { name: "one".to_string(), cluster: cluster("https://one.example:6443") },
            NamedCluster { name: "two".to_string(), cluster: cluster("https://two.example:6443") },
        ],
        users: vec![
            NamedAuthInfo { name: "alice".to_string(), user: auth_info() },
            NamedAuthInfo { name: "bob".to_string(), user: auth_info() },
        ],
        contexts: vec![
            named_context("dev", "one", "alice", Some("dev-ns")),
            named_context("prod", "two", "bob", None),
        ],
        current_context: "prod".to_string(),
        extensions: None,
    }
}

#[test]
fn resolves_each_unique_context_by_name() {
    let cfg = sample_config();
    let dev = cfg.context("dev").unwrap();
    assert_eq!(dev.name, "dev");
    assert_eq!(dev.cluster.server, "https://one.example:6443");
    assert_eq!(dev.namespace, "dev-ns");
    let prod = cfg.context("prod").unwrap();
    assert_eq!(prod.cluster.server, "https://two.example:6443");
    assert_eq!(prod.namespace, "default");
}

#[test]
fn resolving_unknown_context_is_not_found() {
    let cfg = sample_config();
    let r = cfg.context("staging");
    match r {
        Err(Error::NotFoundError(m)) => assert_eq!(m, "unknown context staging"),
        other => panic!("expected NotFoundError, got {:?}", other),
    }
}

#[test]
fn duplicate_context_name_is_ambiguous() {
    let mut cfg = sample_config();
    cfg.contexts.push(named_context("dev", "two", "bob", None));
    let r = cfg.context("dev");
    match r {
        Err(Error::AmbiguousError(m)) => assert_eq!(m, "ambiguous context dev"),
        other => panic!("expected AmbiguousError, got {:?}", other),
    }
}

#[test]
fn context_naming_unknown_cluster_is_not_found() {
    let mut cfg = sample_config();
    cfg.contexts.push(named_context("odd", "absent", "alice", None));
    let r = cfg.context("odd");
    match r {
        Err(Error::NotFoundError(m)) => assert_eq!(m, "unknown cluster absent"),
        other => panic!("expected NotFoundError, got {:?}", other),
    }
}

#[test]
fn duplicate_cluster_name_is_ambiguous() {
    let mut cfg = sample_config();
    cfg.clusters.push(NamedCluster {
        name: "one".to_string(),
        cluster: cluster("https://copy.example:6443"),
    });
    let r = cfg.context("dev");
    match r {
        Err(Error::AmbiguousError(m)) => assert_eq!(m, "ambiguous cluster one"),
        other => panic!("expected AmbiguousError, got {:?}", other),
    }
}

#[test]
fn context_naming_unknown_user_is_not_found() {
    let mut cfg = sample_config();
    cfg.contexts.push(named_context("odd", "one", "carol", None));
    let r = cfg.context("odd");
    match r {
        Err(Error::NotFoundError(m)) => assert_eq!(m, "unknown auth-info carol"),
        other => panic!("expected NotFoundError, got {:?}", other),
    }
}

#[test]
fn default_context_follows_current_context() {
    let cfg = sample_config();
    let cc = cfg.default_context().unwrap();
    assert_eq!(cc.name, "prod");
    assert_eq!(cc.cluster.server, "https://two.example:6443");
}

#[test]
fn inline_ca_data_wins_over_file() {
    // "Q0FEQVRB" is the base64 encoding of "CADATA".
    let mut c = cluster("https://one.example:6443");
    c.ca_data = Some("Q0FEQVRB".to_string());
    c.ca_file = Some("/tmp/ignored.pem".to_string());
    match c.ca_cert() {
        Ok(Some(Material::Inline(text))) => assert_eq!(text, "CADATA"),
        other => panic!("expected inline material, got {:?}", other),
    }
}

#[test]
fn ca_file_used_when_no_inline_data() {
    let mut c = cluster("https://one.example:6443");
    c.ca_file = Some("/etc/ca.pem".to_string());
    match c.ca_cert() {
        Ok(Some(Material::FilePath(p))) => assert_eq!(p, "/etc/ca.pem"),
        other => panic!("expected file material, got {:?}", other),
    }
}

#[test]
fn absent_ca_material_is_none() {
    let c = cluster("https://one.example:6443");
    match c.ca_cert() {
        Ok(None) => {}
        other => panic!("expected no material, got {:?}", other),
    }
}

#[test]
fn undecodable_inline_data_is_a_parse_error() {
    let mut c = cluster("https://one.example:6443");
    c.ca_data = Some("!!! not base64 !!!".to_string());
    assert!(matches!(c.ca_cert(), Err(Error::ParseError(_))));
}

#[test]
fn client_certificate_and_key_follow_the_same_precedence() {
    let mut a = auth_info();
    // "Q0VSVA==" decodes to "CERT"; "S0VZ" decodes to "KEY".
    a.client_certificate_data = Some("Q0VSVA==".to_string());
    a.client_certificate_file = Some("/tmp/ignored.pem".to_string());
    a.client_key_file = Some("/etc/key.pem".to_string());
    match a.client_certificate() {
        Ok(Some(Material::Inline(text))) => assert_eq!(text, "CERT"),
        other => panic!("expected inline material, got {:?}", other),
    }
    match a.client_key() {
        Ok(Some(Material::FilePath(p))) => assert_eq!(p, "/etc/key.pem"),
        other => panic!("expected file material, got {:?}", other),
    }
}
