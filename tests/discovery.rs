use kube_dynamic::{APIResource, APIResourceList, ApiResourceExtras, Operations, Scope};

fn entry(name: &str, namespaced: bool, verbs: &[&str]) -> APIResource {
    APIResource {
        name: name.to_string(),
        namespaced,
        kind: "Foo".to_string(),
        verbs: verbs.iter().map(|v| v.to_string()).collect(),
        group: None,
        version: None,
    }
}

fn document(entries: Vec<APIResource>) -> APIResourceList {
    APIResourceList { group_version: "clux.dev/v1".to_string(), resources: entries }
}

#[test]
fn empty_operations() {
    let ops = Operations::empty();
    assert!(!ops.create && !ops.get && !ops.list && !ops.watch);
    assert!(!ops.delete && !ops.delete_collection && !ops.update && !ops.patch);
    assert!(ops.other.is_empty());
}

#[test]
fn verbs_are_classified() {
    let list = document(vec![entry(
        "foo",
        true,
        &["create", "get", "proxy", "list", "watch", "delete", "deletecollection", "update", "patch", "Get", "escalate"],
    )]);
    let extras = ApiResourceExtras::from_apiresourcelist(&list, "foo").unwrap();
    let ops = &extras.operations;
    assert!(ops.create && ops.get && ops.list && ops.watch);
    assert!(ops.delete && ops.delete_collection && ops.update && ops.patch);
    assert_eq!(ops.other, vec!["proxy".to_string(), "Get".to_string(), "escalate".to_string()]);
}

#[test]
fn only_listed_verbs_are_set() {
    let list = document(vec![entry("foo", false, &["get", "list"])]);
    let extras = ApiResourceExtras::from_apiresourcelist(&list, "foo").unwrap();
    let mut expected = Operations::empty();
    expected.get = true;
    expected.list = true;
    assert_eq!(extras.operations, expected);
}

#[test]
fn scope_follows_namespaced_flag() {
    let list = document(vec![entry("foo", true, &[]), entry("bar", false, &[])]);
    let foo = ApiResourceExtras::from_apiresourcelist(&list, "foo").unwrap();
    let bar = ApiResourceExtras::from_apiresourcelist(&list, "bar").unwrap();
    assert_eq!(foo.scope, Scope::Namespaced);
    assert_eq!(bar.scope, Scope::Cluster);
}

#[test]
fn unknown_name_is_none() {
    let list = document(vec![entry("foo", true, &["get"])]);
    assert!(ApiResourceExtras::from_apiresourcelist(&list, "bar").is_none());
    assert!(ApiResourceExtras::from_apiresourcelist(&document(vec![]), "foo").is_none());
}

#[test]
fn first_entry_of_a_name_wins() {
    let list = document(vec![entry("foo", true, &["get"]), entry("foo", false, &["list"])]);
    let foo = ApiResourceExtras::from_apiresourcelist(&list, "foo").unwrap();
    assert_eq!(foo.scope, Scope::Namespaced);
    assert!(foo.operations.get && !foo.operations.list);
}

#[test]
fn subresource_tree() {
    let list = document(vec![
        entry("foo", true, &["get", "list"]),
        entry("foo/status", true, &["get", "patch"]),
        entry("foo/status/logs", true, &["get"]),
        entry("foobar", true, &["get"]),
    ]);
    let foo = ApiResourceExtras::from_apiresourcelist(&list, "foo").unwrap();
    assert_eq!(foo.subresources.len(), 1);
    let (status_res, status_extras) = &foo.subresources[0];
    assert_eq!(status_res.plural, "status");
    assert_eq!(status_res.group, "clux.dev");
    assert_eq!(status_res.version, "v1");
    assert_eq!(status_res.api_version, "clux.dev/v1");
    assert!(status_extras.operations.patch);
    assert_eq!(status_extras.subresources.len(), 1);
    assert_eq!(status_extras.subresources[0].0.plural, "logs");
    assert!(status_extras.subresources[0].1.subresources.is_empty());
    assert!(foo.subresources.iter().all(|(r, _)| r.plural != "bar"));
}

#[test]
fn only_one_level_names_are_subresources() {
    let list = document(vec![
        entry("foo", true, &["get"]),
        entry("foo/status", true, &["get"]),
        entry("foo/status/logs", true, &["get"]),
        entry("foo/", true, &["get"]),
        entry("foo//x", true, &["get"]),
        entry("foo/scale", true, &["get"]),
    ]);
    let foo = ApiResourceExtras::from_apiresourcelist(&list, "foo").unwrap();
    let plurals: Vec<&str> = foo.subresources.iter().map(|(r, _)| r.plural.as_str()).collect();
    assert_eq!(plurals, vec!["status", "", "scale"]);
}

#[test]
fn empty_local_name_is_a_subresource() {
    let list = document(vec![entry("foo", true, &["get"]), entry("foo/", false, &["list"])]);
    let foo = ApiResourceExtras::from_apiresourcelist(&list, "foo").unwrap();
    assert_eq!(foo.subresources.len(), 1);
    assert_eq!(foo.subresources[0].0.plural, "");
    assert_eq!(foo.subresources[0].1.scope, Scope::Cluster);
    assert!(foo.subresources[0].1.operations.list);
}
