//! Assembling a service: the entity it registers, and the settings of the
//! process that offers it.

use vstd::prelude::*;
use vstd::string::*;
use crate::protocol::ConfigError;
use crate::protocol::EntityKind;
use crate::protocol::Options;
use crate::protocol::OptionsView;
use crate::protocol::StartMessage;

verus! {

/// The version a service has until one is set.
pub const DEFAULT_SERVICE_VERSION: &'static str = "0.5.0";

/// The name of the actor system until one is set.
pub const DEFAULT_SYSTEM_NAME: &'static str = "cloudstate-rust-system";

/// The port a service listens on until one is set.
pub const DEFAULT_PORT: u16 = 8080;

/// The description of an entity, as it is put together step by step.
#[derive(Debug)]
pub struct EntityService {
    pub entity_type: Option<EntityKind>,
    pub protos: Vec<String>,
    pub persistence_id: String,
    pub snapshot_every: u16,
}

/// The content of an [`EntityService`].
pub ghost struct EntityServiceView {
    pub entity_type: Option<EntityKind>,
    pub protos: Seq<Seq<char>>,
    pub persistence_id: Seq<char>,
    pub snapshot_every: u16,
}

impl EntityServiceView {
    /// The description that nothing was said about yet.
    pub open spec fn initial() -> EntityServiceView {
        EntityServiceView {
            entity_type: None,
            protos: Seq::empty(),
            persistence_id: Seq::empty(),
            snapshot_every: 0,
        }
    }
}

impl View for EntityService {
    type V = EntityServiceView;

    open spec fn view(&self) -> EntityServiceView {
        EntityServiceView {
            entity_type: self.entity_type,
            protos: Seq::new(self.protos@.len(), |i: int| self.protos@[i]@),
            persistence_id: self.persistence_id@,
            snapshot_every: self.snapshot_every,
        }
    }
}

impl Default for EntityService {
    fn default() -> (res: EntityService)
        ensures
            res@ == EntityServiceView::initial(),
    {
        let res = EntityService {
            entity_type: None,
            protos: Vec::new(),
            persistence_id: String::new(),
            snapshot_every: 0,
        };
        assert(res@.protos =~= Seq::empty());
        res
    }
}

impl Clone for EntityService {
    fn clone(&self) -> (res: Self)
        ensures
            res@ == self@,
    {
        let mut protos: Vec<String> = Vec::new();
        let mut i: usize = 0;
        while i < self.protos.len()
            invariant
                i <= self.protos@.len(),
                protos@.len() == i,
                forall|j: int| 0 <= j < i ==> protos@[j]@ == self.protos@[j]@,
            decreases self.protos@.len() - i,
        {
            protos.push(self.protos[i].clone());
            i = i + 1;
        }
        let res = EntityService {
            entity_type: self.entity_type,
            protos,
            persistence_id: self.persistence_id.clone(),
            snapshot_every: self.snapshot_every,
        };
        assert(res@.protos =~= self@.protos);
        res
    }
}

impl EntityService {
    /// A description that nothing was said about yet.
    pub fn new() -> (res: Self)
        ensures
            res@ == EntityServiceView::initial(),
    {
        Default::default()
    }

    /// Sets the identifier under which the entity's state is persisted.
    pub fn persistence_id(&mut self, persistence_id: String) -> (res: &mut EntityService)
        ensures
            res@ == (EntityServiceView { persistence_id: persistence_id@, ..old(self)@ }),
            final(self)@ == final(res)@,
    {
        self.persistence_id = persistence_id;
        self
    }

    /// Sets the schema files that describe the entity's messages.
    pub fn protos(&mut self, protos: Vec<String>) -> (res: &mut EntityService)
        ensures
            res@ == (EntityServiceView {
                protos: Seq::new(protos@.len(), |i: int| protos@[i]@),
                ..old(self)@
            }),
            final(self)@ == final(res)@,
    {
        self.protos = protos;
        self
    }

    /// Sets after how many events a snapshot is due.
    pub fn snapshot(&mut self, every: u16) -> (res: &mut EntityService)
        ensures
            res@ == (EntityServiceView { snapshot_every: every, ..old(self)@ }),
            final(self)@ == final(res)@,
    {
        self.snapshot_every = every;
        self
    }

    /// Makes the entity of the given kind, and hands out the description as
    /// it then stands.
    fn of_kind(&mut self, kind: EntityKind) -> (res: EntityService)
        ensures
            res@ == (EntityServiceView { entity_type: Some(kind), ..old(self)@ }),
            final(self)@ == res@,
    {
        self.entity_type = Some(kind);
        self.clone()
    }

    /// Makes the entity event sourced, and hands out the description as it
    /// then stands.
    pub fn event_sourced(&mut self) -> (res: EntityService)
        ensures
            res@ == (EntityServiceView {
                entity_type: Some(EntityKind::EventSourced),
                ..old(self)@
            }),
            final(self)@ == res@,
    {
        self.of_kind(EntityKind::EventSourced)
    }

    /// Makes the entity a replicated one, and hands out the description as
    /// it then stands.
    pub fn crdt(&mut self) -> (res: EntityService)
        ensures
            res@ == (EntityServiceView { entity_type: Some(EntityKind::Crdt), ..old(self)@ }),
            final(self)@ == res@,
    {
        self.of_kind(EntityKind::Crdt)
    }

    /// Makes the entity a stateless function, and hands out the description
    /// as it then stands.
    pub fn stateless_function(&mut self) -> (res: EntityService)
        ensures
            res@ == (EntityServiceView {
                entity_type: Some(EntityKind::StatelessFunction),
                ..old(self)@
            }),
            final(self)@ == res@,
    {
        self.of_kind(EntityKind::StatelessFunction)
    }
}

/// The settings of a process that offers one entity service.
#[derive(Debug)]
pub struct CloudState {
    entity: EntityService,
    service_name: String,
    service_version: String,
    actor_system_name: String,
    server_port: u16,
}

/// The content of a [`CloudState`].
pub ghost struct CloudStateView {
    pub entity: EntityServiceView,
    pub service_name: Seq<char>,
    pub service_version: Seq<char>,
    pub actor_system_name: Seq<char>,
    pub server_port: u16,
}

impl CloudStateView {
    /// The settings of a process that nothing was said about yet.
    pub open spec fn initial() -> CloudStateView {
        CloudStateView {
            entity: EntityServiceView::initial(),
            service_name: Seq::empty(),
            service_version: DEFAULT_SERVICE_VERSION@,
            actor_system_name: DEFAULT_SYSTEM_NAME@,
            server_port: DEFAULT_PORT,
        }
    }

    /// What keeps these settings from being started, if anything: a missing
    /// entity kind first, then a port that is none.
    pub open spec fn defect(self) -> Option<ConfigError> {
        if self.entity.entity_type is None {
            Some(ConfigError::EntityKindMissing)
        } else if self.server_port == 0 {
            Some(ConfigError::PortOutOfRange)
        } else {
            None
        }
    }

    /// The configuration that these settings amount to.
    pub open spec fn options(self) -> OptionsView
        recommends
            self.entity.entity_type is Some,
    {
        OptionsView {
            entity_type: self.entity.entity_type.unwrap(),
            service_name: self.service_name,
            persistence_id: self.entity.persistence_id,
            service_version: self.service_version,
            server_port: self.server_port,
        }
    }
}

impl View for CloudState {
    type V = CloudStateView;

    closed spec fn view(&self) -> CloudStateView {
        CloudStateView {
            entity: self.entity@,
            service_name: self.service_name@,
            service_version: self.service_version@,
            actor_system_name: self.actor_system_name@,
            server_port: self.server_port,
        }
    }
}

impl Default for CloudState {
    fn default() -> (res: CloudState)
        ensures
            res@ == CloudStateView::initial(),
    {
        CloudState {
            entity: EntityService::default(),
            service_name: String::new(),
            service_version: DEFAULT_SERVICE_VERSION.to_owned(),
            actor_system_name: DEFAULT_SYSTEM_NAME.to_owned(),
            server_port: DEFAULT_PORT,
        }
    }
}

impl CloudState {
    /// The settings of a process that nothing was said about yet.
    pub fn new() -> (res: Self)
        ensures
            res@ == CloudStateView::initial(),
    {
        Default::default()
    }

    /// Sets the name of the service.
    pub fn service_name(&mut self, service_name: String) -> (res: &mut CloudState)
        ensures
            res@ == (CloudStateView { service_name: service_name@, ..old(self)@ }),
            final(self)@ == final(res)@,
    {
        self.service_name = service_name;
        self
    }

    /// Sets the version of the service.
    pub fn service_version(&mut self, service_version: String) -> (res: &mut CloudState)
        ensures
            res@ == (CloudStateView { service_version: service_version@, ..old(self)@ }),
            final(self)@ == final(res)@,
    {
        self.service_version = service_version;
        self
    }

    /// Sets the name of the actor system that runs the service.
    pub fn actor_system_name(&mut self, system_name: String) -> (res: &mut CloudState)
        ensures
            res@ == (CloudStateView { actor_system_name: system_name@, ..old(self)@ }),
            final(self)@ == final(res)@,
    {
        self.actor_system_name = system_name;
        self
    }

    /// Sets the port that the service listens on.
    pub fn port(&mut self, server_port: u16) -> (res: &mut CloudState)
        ensures
            res@ == (CloudStateView { server_port, ..old(self)@ }),
            final(self)@ == final(res)@,
    {
        self.server_port = server_port;
        self
    }

    /// Registers the entity that the service offers, under the service's name.
    pub fn register_entity_service(
        &mut self,
        service_name: String,
        entity_service: EntityService,
    ) -> (res: &mut CloudState)
        ensures
            res@ == (CloudStateView {
                service_name: service_name@,
                entity: entity_service@,
                ..old(self)@
            }),
            final(self)@ == final(res)@,
    {
        self.service_name = service_name;
        self.entity = entity_service;
        self
    }

    /// The name of the actor system that runs the service.
    pub fn system_name(&self) -> (res: &str)
        ensures
            res@ == self@.actor_system_name,
    {
        self.actor_system_name.as_str()
    }

    /// Makes the start command for these settings.
    ///
    /// Settings with an entity kind and a port give the command that
    /// carries their configuration; any other settings give what they lack.
    pub fn start(&self) -> (res: Result<StartMessage, ConfigError>)
        ensures
            res is Ok <==> self@.defect() is None,
            res matches Ok(msg) ==> msg.opts@ == self@.options(),
            res matches Ok(msg) ==> msg.opts@.valid(),
            res matches Err(e) ==> self@.defect() == Some(e),
    {
        let entity_type = match self.entity.entity_type {
            Some(kind) => kind,
            None => {
                return Err(ConfigError::EntityKindMissing);
            },
        };
        let made = Options::new(
            entity_type,
            self.service_name.clone(),
            self.entity.persistence_id.clone(),
            self.service_version.clone(),
            self.server_port,
        );
        match made {
            Ok(opts) => Ok(StartMessage { opts }),
            Err(e) => Err(e),
        }
    }
}

} // verus!
