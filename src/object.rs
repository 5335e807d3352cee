//! A generic object that can hold any resource's data.
use crate::resource::{ApiResource, Resource};
use vstd::prelude::*;

verus! {

/// The metadata of an object: the name and namespace, which this library
/// reads and writes, and every other field kept as it came.
#[derive(Debug, Clone, PartialEq)]
pub struct ObjectMeta {
    /// The object's name.
    pub name: Option<String>,
    /// The namespace the object lives in.
    pub namespace: Option<String>,
    /// Every other metadata field (labels, annotations, uid, resourceVersion
    /// and the rest) as one JSON object; null when there are none.
    pub other_fields: serde_json::Value,
}

#[verifier::external_type_specification]
#[verifier::external_body]
pub struct ExJsonValue(serde_json::Value);

/// Relies on serde_json's `Clone` for `Value`, which the derived `Clone` of
/// `ObjectMeta` and `DynamicObject` calls; nothing is claimed of the copy.
pub assume_specification[ <serde_json::Value as Clone>::clone ](v: &serde_json::Value) -> serde_json::Value;

/// The type fields of an object: its apiVersion and kind.
#[derive(Debug, Clone, PartialEq, Eq)]
pub struct TypeMeta {
    pub api_version: String,
    pub kind: String,
}

/// An object of any resource type: the type fields, which list items may
/// lack, the metadata, and every other field as an opaque value.
#[derive(Debug, Clone)]
pub struct DynamicObject {
    /// The type fields, where present.
    pub types: Option<TypeMeta>,
    /// The metadata.
    pub metadata: ObjectMeta,
    /// All other fields.
    pub data: serde_json::Value,
}

/// Relies on serde_json's `Value::default`, the null value, for an empty
/// payload or for metadata with no further fields.
#[verifier::external_body]
fn empty_payload() -> (r: serde_json::Value) {
    serde_json::Value::default()
}

impl DynamicObject {
    /// An object named `name` of the type `resource`, with an empty payload.
    pub fn new(name: &str, resource: &ApiResource) -> (r: Self)
        ensures
            r.types matches Some(t) && t.api_version@ == resource.api_version@ && t.kind@
                == resource.kind@,
            r.metadata.name matches Some(n) && n@ == name@,
            r.metadata.namespace is None,
    {
        DynamicObject {
            types: Some(
                TypeMeta { api_version: resource.api_version.clone(), kind: resource.kind.clone() },
            ),
            metadata: ObjectMeta {
                name: Some(String::from_str(name)),
                namespace: None,
                other_fields: empty_payload(),
            },
            data: empty_payload(),
        }
    }

    /// The object with `data` as its payload.
    pub fn data(self, data: serde_json::Value) -> (r: Self)
        ensures
            r.types == self.types,
            r.metadata == self.metadata,
            r.data == data,
    {
        let mut obj = self;
        obj.data = data;
        obj
    }

    /// The object placed in the namespace `ns`.
    pub fn within(self, ns: &str) -> (r: Self)
        ensures
            r.types == self.types,
            r.metadata.name == self.metadata.name,
            r.metadata.other_fields == self.metadata.other_fields,
            r.metadata.namespace matches Some(n) && n@ == ns@,
            r.data == self.data,
    {
        let mut obj = self;
        obj.metadata.namespace = Some(String::from_str(ns));
        obj
    }
}

impl Resource for DynamicObject {
    type DynamicType = ApiResource;

    open spec fn group_of(dt: &ApiResource) -> Seq<char> {
        dt.group@
    }

    open spec fn version_of(dt: &ApiResource) -> Seq<char> {
        dt.version@
    }

    open spec fn kind_of(dt: &ApiResource) -> Seq<char> {
        dt.kind@
    }

    open spec fn api_version_of(dt: &ApiResource) -> Seq<char> {
        dt.api_version@
    }

    open spec fn plural_of(dt: &ApiResource) -> Seq<char> {
        dt.plural@
    }

    open spec fn meta_of(&self) -> ObjectMeta {
        self.metadata
    }

    fn group(dt: &ApiResource) -> (r: &str) {
        dt.group.as_str()
    }

    fn version(dt: &ApiResource) -> (r: &str) {
        dt.version.as_str()
    }

    fn kind(dt: &ApiResource) -> (r: &str) {
        dt.kind.as_str()
    }

    fn api_version(dt: &ApiResource) -> (r: &str) {
        dt.api_version.as_str()
    }

    fn plural(dt: &ApiResource) -> (r: &str) {
        dt.plural.as_str()
    }

    fn meta(&self) -> (r: &ObjectMeta) {
        &self.metadata
    }

    fn meta_mut(&mut self) -> (r: &mut ObjectMeta) {
        &mut self.metadata
    }
}

} // verus!
