//! The messages of the `cloudstate.EntityDiscovery` service, as plain values,
//! and what each of them stands for in contracts.

use vstd::prelude::*;

verus! {

/// What the sidecar says about itself when it opens the handshake.
///
/// Nothing in it is validated, and no reply depends on it.
#[derive(Debug, PartialEq, Eq)]
pub struct ProxyInfo {
    pub protocol_major_version: i32,
    pub protocol_minor_version: i32,
    pub proxy_name: String,
    pub proxy_version: String,
    pub supported_entity_types: Vec<String>,
}

/// One registered entity, as the handshake reply lists it.
#[derive(Debug, PartialEq, Eq)]
pub struct Entity {
    pub entity_type: String,
    pub service_name: String,
    pub persistence_id: String,
}

/// The text of an [`Entity`].
pub ghost struct EntityView {
    pub entity_type: Seq<char>,
    pub service_name: Seq<char>,
    pub persistence_id: Seq<char>,
}

impl View for Entity {
    type V = EntityView;

    open spec fn view(&self) -> EntityView {
        EntityView {
            entity_type: self.entity_type@,
            service_name: self.service_name@,
            persistence_id: self.persistence_id@,
        }
    }
}

/// What the reply says about the running process and its support library.
#[derive(Debug, PartialEq, Eq)]
pub struct ServiceInfo {
    pub service_name: String,
    pub service_version: String,
    pub service_runtime: String,
    pub support_library_name: String,
    pub support_library_version: String,
}

/// The text of a [`ServiceInfo`].
pub ghost struct ServiceInfoView {
    pub service_name: Seq<char>,
    pub service_version: Seq<char>,
    pub service_runtime: Seq<char>,
    pub support_library_name: Seq<char>,
    pub support_library_version: Seq<char>,
}

impl View for ServiceInfo {
    type V = ServiceInfoView;

    open spec fn view(&self) -> ServiceInfoView {
        ServiceInfoView {
            service_name: self.service_name@,
            service_version: self.service_version@,
            service_runtime: self.service_runtime@,
            support_library_name: self.support_library_name@,
            support_library_version: self.support_library_version@,
        }
    }
}

/// The handshake reply: the schema, the entities and the service information.
#[derive(Debug, PartialEq, Eq)]
pub struct EntitySpec {
    pub proto: Vec<u8>,
    pub entities: Vec<Entity>,
    pub service_info: Option<ServiceInfo>,
}

/// The content of an [`EntitySpec`]: two replies with the same view are
/// the same payload.
pub ghost struct EntitySpecView {
    pub proto: Seq<u8>,
    pub entities: Seq<EntityView>,
    pub service_info: Option<ServiceInfoView>,
}

impl View for EntitySpec {
    type V = EntitySpecView;

    open spec fn view(&self) -> EntitySpecView {
        EntitySpecView {
            proto: self.proto@,
            entities: Seq::new(self.entities@.len(), |i: int| self.entities@[i]@),
            service_info: match self.service_info {
                Some(info) => Some(info@),
                None => None,
            },
        }
    }
}

/// A fault that the sidecar reports to the user function.
#[derive(Debug, PartialEq, Eq)]
pub struct UserFunctionError {
    pub message: String,
}

} // verus!
