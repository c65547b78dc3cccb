use kubeclient::client::HttpMethod;
use kubeclient::client::KubeLowLevel;
use kubeclient::config::AuthInfo;
use kubeclient::errors::Error;
use kubeclient::reconcile::ApplyAction;
use kubeclient::reconcile::DocumentFormat;
use kubeclient::reconcile::KindInfo;
use kubeclient::reconcile::MinimalResource;
use kubeclient::reconcile::ObjectMeta;
use kubeclient::reconcile::apply_action;
use kubeclient::reconcile::collect_results;
use kubeclient::reconcile::resource_format;
use kubeclient::reconcile::surface_error;

fn client(base: &str) -> KubeLowLevel {
    KubeLowLevel {
        auth_info: AuthInfo {
            username: None,
            password: None,
            auth_provider: None,
            token: None,
            token_file: None,
            client_certificate_file: None,
            client_certificate_data: None,
            client_key_file: None,
            client_key_data: None,
            impersonate: None,
        },
        base_url: base.to_string(),
    }
}

fn pod(name: Option<&str>, namespace: Option<&str>) -> MinimalResource {
    MinimalResource {
        api_version: "v1".to_string(),
        kind: KindInfo {
            plural: "pods".to_string(),
            default_namespace: Some("default".to_string()),
        },
        metadata: ObjectMeta {
            name: name.map(|n| n.to_string()),
            namespace: namespace.map(|n| n.to_string()),
        },
    }
}

#[test]
fn apply_plan_checks_the_object_and_creates_on_the_collection() {
    let c = client("http://host:8080");
    let plan = c.apply_file_plan(&pod(Some("test-pod"), None)).unwrap();
    assert_eq!(plan.check.method, HttpMethod::Get);
    assert_eq!(plan.check.url, "http://host:8080/api/v1/namespaces/default/pods/test-pod");
    assert_eq!(plan.create.method, HttpMethod::Post);
    assert_eq!(plan.create.url, "http://host:8080/api/v1/namespaces/default/pods");
}

#[test]
fn apply_plan_prefers_the_document_namespace() {
    let c = client("http://host:8080");
    let plan = c.apply_file_plan(&pod(Some("p"), Some("team-a"))).unwrap();
    assert_eq!(plan.create.url, "http://host:8080/api/v1/namespaces/team-a/pods");
}

#[test]
fn api_group_versions_route_through_apis() {
    let c = client("http://host:8080");
    let mut m = pod(Some("d"), Some("team-a"));
    m.api_version = "apps/v1".to_string();
    m.kind = KindInfo { plural: "deployments".to_string(), default_namespace: None };
    let plan = c.apply_file_plan(&m).unwrap();
    assert_eq!(plan.create.url, "http://host:8080/apis/apps/v1/namespaces/team-a/deployments");
}

#[test]
fn cluster_scoped_kind_omits_the_namespace() {
    let c = client("http://host:8080");
    let mut m = pod(Some("worker-1"), None);
    m.kind = KindInfo { plural: "nodes".to_string(), default_namespace: None };
    let plan = c.apply_file_plan(&m).unwrap();
    assert_eq!(plan.create.url, "http://host:8080/api/v1/nodes");
    assert_eq!(plan.check.url, "http://host:8080/api/v1/nodes/worker-1");
}

#[test]
fn apply_without_a_name_is_a_validation_error() {
    let c = client("http://host:8080");
    assert!(matches!(c.apply_file_plan(&pod(None, None)), Err(Error::ValidationError(_))));
}

#[test]
fn apply_action_creates_exactly_on_404() {
    assert_eq!(apply_action(404), ApplyAction::CreateNew);
    assert_eq!(apply_action(200), ApplyAction::ReturnExisting);
    assert_eq!(apply_action(201), ApplyAction::ReturnExisting);
    assert_eq!(apply_action(403), ApplyAction::Surface);
    assert_eq!(apply_action(500), ApplyAction::Surface);
}

#[test]
fn surfaced_errors_carry_the_server_message() {
    match surface_error(Some("pods is forbidden".to_string())) {
        Error::ApiError(m) => assert_eq!(m, "pods is forbidden"),
        other => panic!("expected ApiError, got {:?}", other),
    }
    assert!(matches!(surface_error(None), Error::DecodeError(_)));
}

#[test]
fn replace_is_always_a_single_put() {
    let c = client("http://host:8080");
    let req = c.replace_file_plan(&pod(Some("test-pod"), Some("dev"))).unwrap();
    assert_eq!(req.method, HttpMethod::Put);
    assert_eq!(req.url, "http://host:8080/api/v1/namespaces/dev/pods/test-pod");
}

#[test]
fn replace_ignores_the_kind_default_namespace() {
    // Unlike apply, replace takes the namespace from the document's
    // metadata alone: the kind's default is not consulted.
    let c = client("http://host:8080");
    let req = c.replace_file_plan(&pod(Some("test-pod"), None)).unwrap();
    assert_eq!(req.url, "http://host:8080/api/v1/pods/test-pod");
}

#[test]
fn replace_without_a_name_is_a_validation_error() {
    let c = client("http://host:8080");
    assert!(matches!(c.replace_file_plan(&pod(None, None)), Err(Error::ValidationError(_))));
}

#[test]
fn batch_succeeds_only_when_every_file_does() {
    let all_ok: Vec<Result<u32, Error>> = vec![Ok(1), Ok(2), Ok(3)];
    assert_eq!(collect_results(all_ok).unwrap(), vec![1, 2, 3]);
}

#[test]
fn one_failing_file_fails_the_batch_with_its_own_message() {
    let mixed: Vec<Result<u32, Error>> = vec![
        Ok(1),
        Err(Error::ApiError("file two broke".to_string())),
        Ok(3),
        Err(Error::ApiError("file four broke too".to_string())),
    ];
    match collect_results(mixed) {
        Err(Error::ApiError(m)) => assert_eq!(m, "file two broke"),
        other => panic!("expected the first failure, got {:?}", other),
    }
}

#[test]
fn only_json_and_yaml_files_are_considered() {
    assert_eq!(resource_format("pod.json"), Some(DocumentFormat::Json));
    assert_eq!(resource_format("pod.YAML"), Some(DocumentFormat::Yaml));
    assert_eq!(resource_format("pod.Json"), Some(DocumentFormat::Json));
    assert_eq!(resource_format("dir.d/pod.v2.yaml"), Some(DocumentFormat::Yaml));
    assert_eq!(resource_format("pod.yml"), None);
    assert_eq!(resource_format("pod.toml"), None);
    assert_eq!(resource_format("json"), None);
    assert_eq!(resource_format(".json"), None);
    assert_eq!(resource_format("pod"), None);
}
