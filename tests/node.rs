use cacsi_driver::custody::{CaManager, SecretBlob, SecretFetch};
use cacsi_driver::fields::FieldMap;
use cacsi_driver::node::{parse_validity_days, NodeService, PublishError};
use cacsi_driver::pod::{pod_metadata, pod_spec, PodFields};
use cacsi_driver::registry::CertificateManager;
use cacsi_driver::template::TemplateError;

fn fields(pairs: &[(&str, &str)]) -> FieldMap {
    let mut m = FieldMap::new();
    for (k, v) in pairs {
        m.insert(k.to_string(), v.to_string());
    }
    m
}

fn node() -> NodeService {
    let fetch = SecretFetch::Data(vec![
        SecretBlob { name: "tls.crt".to_string(), data: b"CERT".to_vec() },
        SecretBlob { name: "tls.key".to_string(), data: b"KEY".to_vec() },
    ]);
    let ca = CaManager::new("csi-ca-secret".to_string(), "kube-system".to_string(), fetch).unwrap();
    let mgr = CertificateManager::new("/var/lib/csi-certs".to_string(), "cacsi-service:50051".to_string());
    NodeService::new("node-1".to_string(), mgr, ca, "cluster.local".to_string())
}

fn pod_context() -> Vec<(&'static str, &'static str)> {
    vec![("csi.storage.k8s.io/pod.namespace", "default"), ("csi.storage.k8s.io/pod.name", "web-0")]
}

fn ctx_with(extra: &[(&'static str, &'static str)]) -> FieldMap {
    let mut pairs = pod_context();
    pairs.extend_from_slice(extra);
    fields(&pairs)
}

#[test]
fn validity_days_rejects_non_positive_and_malformed() {
    for bad in ["0", "-3", "abc"] {
        match parse_validity_days(&fields(&[("validity_days", bad)])) {
            Err(PublishError::InvalidValidityDays(raw)) => assert_eq!(raw, bad),
            other => panic!("unexpected {:?}", other),
        }
    }
}

#[test]
fn validity_days_defaults_to_seven() {
    assert_eq!(parse_validity_days(&FieldMap::new()).unwrap(), 7);
    assert_eq!(parse_validity_days(&fields(&[("validity_days", "30")])).unwrap(), 30);
}

#[test]
fn plan_uses_default_common_name() {
    let n = node();
    let plan = n.prepare_publish("vol-1", &ctx_with(&[]), &FieldMap::new(), &FieldMap::new()).unwrap();
    assert_eq!(plan.cert_id, "default-web-0-vol-1");
    assert_eq!(plan.common_name, "web-0.default.svc.cluster.local");
    assert_eq!(plan.dns_names, vec!["web-0".to_string()]);
    assert!(plan.ip_addresses.is_empty());
    assert!(plan.organizational_units.is_empty());
    assert_eq!(plan.validity_days, 7);
}

#[test]
fn plan_missing_pod_attributes() {
    let n = node();
    let no_ns = fields(&[("csi.storage.k8s.io/pod.name", "web-0")]);
    assert!(matches!(n.prepare_publish("v", &no_ns, &FieldMap::new(), &FieldMap::new()), Err(PublishError::MissingPodNamespace)));
    let no_name = fields(&[("csi.storage.k8s.io/pod.namespace", "default")]);
    assert!(matches!(n.prepare_publish("v", &no_name, &FieldMap::new(), &FieldMap::new()), Err(PublishError::MissingPodName)));
}

#[test]
fn plan_resolves_templates_and_units() {
    let n = node();
    let ctx = ctx_with(&[
        ("cn_template", "{spec.serviceAccountName}.{metadata.namespace}"),
        ("organizational_units", " t:tenant1 , e: {metadata.namespace} ,, plain ,x:"),
        ("validity_days", "3"),
    ]);
    assert!(n.needs_pod_info(&ctx));
    let meta = fields(&[("namespace", "prod")]);
    let spec = fields(&[("serviceAccountName", "sa1")]);
    let plan = n.prepare_publish("v", &ctx, &meta, &spec).unwrap();
    assert_eq!(plan.common_name, "sa1.prod");
    assert_eq!(plan.organizational_units, vec!["tenant1", "prod", "plain", ""]);
    assert_eq!(plan.validity_days, 3);
}

#[test]
fn plan_fails_on_unresolved_templates() {
    let n = node();
    let cn = ctx_with(&[("cn_template", "{bogus.x}")]);
    assert!(matches!(
        n.prepare_publish("v", &cn, &FieldMap::new(), &FieldMap::new()),
        Err(PublishError::CommonNameTemplate(TemplateError::UnknownSection))
    ));
    let ou = ctx_with(&[("organizational_units", "n:{metadata.namespace}")]);
    assert!(matches!(
        n.prepare_publish("v", &ou, &FieldMap::new(), &FieldMap::new()),
        Err(PublishError::UnitTemplate(TemplateError::PlaceholderNotFound))
    ));
    let days = ctx_with(&[("validity_days", "0")]);
    assert!(matches!(n.prepare_publish("v", &days, &FieldMap::new(), &FieldMap::new()), Err(PublishError::InvalidValidityDays(_))));
}

#[test]
fn no_pod_fetch_without_placeholders() {
    let n = node();
    assert!(!n.needs_pod_info(&ctx_with(&[("cn_template", "fixed"), ("organizational_units", "a,b")])));
    assert!(n.needs_pod_info(&ctx_with(&[("organizational_units", "n:{metadata.namespace}")])));
}

#[test]
fn publishing_same_id_twice_keeps_registry_size() {
    let mut n = node();
    n.record_publication("default-web-0-v".to_string(), "/mnt/v".to_string(), 10, 20);
    n.record_publication("default-web-0-v".to_string(), "/mnt/v".to_string(), 30, 40);
    let all = n.cert_manager().get_all_certificates();
    assert_eq!(all.len(), 1);
    assert_eq!(all[0].not_before, 30);
}

#[test]
fn unpublishing_unknown_volume_succeeds() {
    let mut n = node();
    n.record_publication("a-b-v1".to_string(), "/mnt/v1".to_string(), 10, 20);
    assert!(n.node_unpublish_volume("unknown", &"/mnt/unknown".to_string()).is_ok());
    assert_eq!(n.cert_manager().get_all_certificates().len(), 1);
    assert!(n.node_unpublish_volume("v1", &"/mnt/v1".to_string()).is_ok());
    assert_eq!(n.cert_manager().get_all_certificates().len(), 0);
}

#[test]
fn node_info_has_no_volume_limit() {
    let n = node();
    assert_eq!(n.node_get_info(), ("node-1".to_string(), 0));
}

#[test]
fn pod_fields_flatten() {
    let pod = PodFields {
        name: Some("web-0".to_string()),
        namespace: Some("prod".to_string()),
        uid: None,
        labels: vec![("app.kubernetes.io/name".to_string(), "shop".to_string())],
        annotations: vec![("note".to_string(), "x".to_string())],
        service_account_name: Some("sa".to_string()),
        node_name: None,
        hostname: Some("h".to_string()),
        subdomain: None,
        priority_class_name: None,
    };
    let meta = pod_metadata(&pod);
    assert_eq!(meta.get(&"name".to_string()), Some("web-0".to_string()));
    assert_eq!(meta.get(&"labels.app.kubernetes.io/name".to_string()), Some("shop".to_string()));
    assert_eq!(meta.get(&"annotations.note".to_string()), Some("x".to_string()));
    assert_eq!(meta.get(&"uid".to_string()), None);
    assert_eq!(meta.len(), 4);
    let spec = pod_spec(&pod);
    assert_eq!(spec.get(&"serviceAccountName".to_string()), Some("sa".to_string()));
    assert_eq!(spec.get(&"hostname".to_string()), Some("h".to_string()));
    assert_eq!(spec.len(), 2);
}
