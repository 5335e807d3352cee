use kube_dynamic::{ApiResource, DynamicObject, GroupVersionKind, Resource};

fn foo() -> ApiResource {
    ApiResource::from_gvk(&GroupVersionKind::gvk("clux.dev", "v1", "Foo"))
}

#[test]
fn new_object_has_type_and_name() {
    let obj = DynamicObject::new("baz", &foo());
    let types = obj.types.clone().unwrap();
    assert_eq!(types.api_version, "clux.dev/v1");
    assert_eq!(types.kind, "Foo");
    assert_eq!(obj.metadata.name.as_deref(), Some("baz"));
    assert_eq!(obj.metadata.namespace, None);
    assert!(obj.metadata.other_fields.is_null());
    assert!(obj.data.is_null());
}

#[test]
fn within_and_data_chain() {
    let mut payload = serde_json::Map::new();
    payload.insert("spec".to_string(), serde_json::Value::String("x".to_string()));
    let obj = DynamicObject::new("baz", &foo())
        .within("myns")
        .data(serde_json::Value::Object(payload.clone()));
    assert_eq!(obj.metadata.namespace.as_deref(), Some("myns"));
    assert_eq!(obj.metadata.name.as_deref(), Some("baz"));
    assert_eq!(obj.data, serde_json::Value::Object(payload));
    assert_eq!(obj.types.unwrap().kind, "Foo");
}

#[test]
fn within_keeps_other_metadata() {
    let mut labels = serde_json::Map::new();
    labels.insert("app".to_string(), serde_json::Value::String("web".to_string()));
    let mut others = serde_json::Map::new();
    others.insert("labels".to_string(), serde_json::Value::Object(labels));
    let mut obj = DynamicObject::new("baz", &foo());
    obj.metadata.other_fields = serde_json::Value::Object(others.clone());
    let obj = obj.within("myns");
    assert_eq!(obj.metadata.other_fields, serde_json::Value::Object(others));
    assert_eq!(obj.metadata.namespace.as_deref(), Some("myns"));
}

#[test]
fn metadata_through_resource_accessors() {
    let mut obj = DynamicObject::new("baz", &foo());
    obj.meta_mut().namespace = Some("other".to_string());
    assert_eq!(obj.meta().namespace.as_deref(), Some("other"));
    assert_eq!(obj.meta().name.as_deref(), Some("baz"));
}
