//! Dynamic resource identities for a Kubernetes-style API server, and the
//! handshake that upgrades an HTTP connection into a versioned streaming channel.

pub mod discovery;
pub mod object;
pub mod resource;
pub mod text;
pub mod upgrade;

pub use discovery::{APIResource, APIResourceList, ApiResourceExtras, Operations, Scope};
pub use object::{DynamicObject, ObjectMeta, TypeMeta};
pub use resource::{ApiResource, GroupVersionKind, Resource};
pub use upgrade::{
    sec_websocket_key, verify_response, verify_response_with_accept_key, SubProto,
    UpgradeConnectionError, UpgradeResponse, WsStream,
};
