use cacsi_driver::fields::FieldMap;
use cacsi_driver::template::{TemplateError, TemplateParser};

fn fields(pairs: &[(&str, &str)]) -> FieldMap {
    let mut m = FieldMap::new();
    for (k, v) in pairs {
        m.insert(k.to_string(), v.to_string());
    }
    m
}

#[test]
fn test_resolve_metadata_namespace() {
    let parser = TemplateParser::new().unwrap();
    let metadata = fields(&[("namespace", "default"), ("name", "my-pod")]);
    let spec = FieldMap::new();

    let result = parser.resolve("{metadata.namespace}", &metadata, &spec).unwrap();
    assert_eq!(result, "default");
}

#[test]
fn test_resolve_spec_service_account() {
    let parser = TemplateParser::new().unwrap();
    let metadata = FieldMap::new();
    let spec = fields(&[("serviceAccountName", "my-sa")]);

    let result = parser.resolve("{spec.serviceAccountName}", &metadata, &spec).unwrap();
    assert_eq!(result, "my-sa");
}

#[test]
fn test_resolve_multiple_placeholders() {
    let parser = TemplateParser::new().unwrap();
    let metadata = fields(&[("namespace", "prod"), ("name", "web-app")]);
    let spec = fields(&[("serviceAccountName", "web-sa")]);

    let result = parser
        .resolve("{spec.serviceAccountName}.{metadata.name}.{metadata.namespace}", &metadata, &spec)
        .unwrap();
    assert_eq!(result, "web-sa.web-app.prod");
}

#[test]
fn test_has_templates() {
    let parser = TemplateParser::new().unwrap();

    assert!(parser.has_templates("{metadata.namespace}"));
    assert!(parser.has_templates("prefix-{spec.serviceAccountName}"));
    assert!(!parser.has_templates("no-templates-here"));
}

#[test]
fn test_invalid_placeholder() {
    let parser = TemplateParser::new().unwrap();
    let metadata = FieldMap::new();
    let spec = FieldMap::new();

    let result = parser.resolve("{invalid.field}", &metadata, &spec);
    assert!(result.is_err());
}

#[test]
fn resolve_namespace_from_metadata() {
    let parser = TemplateParser::default();
    let metadata = fields(&[("namespace", "default")]);
    let result = parser.resolve("{metadata.namespace}", &metadata, &FieldMap::new());
    assert_eq!(result, Ok("default".to_string()));
}

#[test]
fn resolve_service_account_from_spec() {
    let parser = TemplateParser::default();
    let spec = fields(&[("serviceAccountName", "sa1")]);
    let result = parser.resolve("{spec.serviceAccountName}", &FieldMap::new(), &spec);
    assert_eq!(result, Ok("sa1".to_string()));
}

#[test]
fn resolve_missing_field_fails() {
    let parser = TemplateParser::default();
    let result = parser.resolve("{metadata.namespace}", &FieldMap::new(), &FieldMap::new());
    assert_eq!(result, Err(TemplateError::PlaceholderNotFound));
}

#[test]
fn resolve_unknown_section_fails() {
    let parser = TemplateParser::default();
    let result = parser.resolve("{bogus.x}", &FieldMap::new(), &FieldMap::new());
    assert_eq!(result, Err(TemplateError::UnknownSection));
}

#[test]
fn resolve_placeholder_without_dot_fails() {
    let parser = TemplateParser::default();
    let metadata = fields(&[("namespace", "default")]);
    let result = parser.resolve("x-{namespace}", &metadata, &FieldMap::new());
    assert_eq!(result, Err(TemplateError::InvalidPlaceholder));
}

#[test]
fn has_templates_plain_and_placeholder() {
    let parser = TemplateParser::default();
    assert!(!parser.has_templates("plain-text"));
    assert!(parser.has_templates("{a.b}"));
    assert!(!parser.has_templates("{}"));
    assert!(!parser.has_templates(""));
    assert!(!parser.has_templates("{open only"));
}

#[test]
fn resolve_field_with_dots_and_surrounding_text() {
    let parser = TemplateParser::default();
    let metadata = fields(&[("labels.app.kubernetes.io/name", "shop")]);
    let result = parser.resolve("svc-{metadata.labels.app.kubernetes.io/name}.local", &metadata, &FieldMap::new());
    assert_eq!(result, Ok("svc-shop.local".to_string()));
}

#[test]
fn resolve_keeps_text_without_placeholders() {
    let parser = TemplateParser::default();
    let result = parser.resolve("a{}b{c", &FieldMap::new(), &FieldMap::new());
    assert_eq!(result, Ok("a{}b{c".to_string()));
}

#[test]
fn resolve_fails_whole_text_on_one_missing_field() {
    let parser = TemplateParser::default();
    let metadata = fields(&[("name", "p")]);
    let result = parser.resolve("{metadata.name}-{metadata.uid}", &metadata, &FieldMap::new());
    assert_eq!(result, Err(TemplateError::PlaceholderNotFound));
}

#[test]
fn field_map_later_insert_replaces() {
    let mut m = FieldMap::new();
    m.insert("k".to_string(), "one".to_string());
    m.insert("k".to_string(), "two".to_string());
    assert_eq!(m.get(&"k".to_string()), Some("two".to_string()));
    assert_eq!(m.get(&"other".to_string()), None);
}

#[test]
fn has_templates_needs_section_and_field() {
    let parser = TemplateParser::default();
    assert!(!parser.has_templates("{abc}"));
    assert!(!parser.has_templates("{a}.b}"));
    assert!(parser.has_templates("x{{a.b}"));
    assert!(parser.has_templates("{abc}-{spec.nodeName}"));
}
