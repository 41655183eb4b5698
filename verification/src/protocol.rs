//! The discovery protocol: the configuration of a service, the command that
//! starts it, and the life of its listener.

use vstd::prelude::*;
use crate::protocol::server::GrpcServer;

pub mod messages;
pub mod router;
pub mod server;
pub mod status;

verus! {

/// The name under which event-sourced entities are known to the sidecar.
pub const EVENT_SOURCED: &'static str = "cloudstate.eventsourced.EventSourced";

/// The name under which replicated (CRDT) entities are known to the sidecar.
pub const CRDT: &'static str = "cloudstate.crdt.Crdt";

/// The name under which stateless functions are known to the sidecar.
pub const STATELESS_FUNCTION: &'static str = "cloudstate.function.StatelessFunction";

/// The kind of state model an entity follows.
#[derive(Clone, Copy, Debug, PartialEq, Eq, Structural)]
pub enum EntityKind {
    EventSourced,
    Crdt,
    StatelessFunction,
}

impl EntityKind {
    /// The fully qualified name of the kind, as it goes over the wire.
    pub open spec fn wire_name(self) -> Seq<char> {
        match self {
            EntityKind::EventSourced => EVENT_SOURCED@,
            EntityKind::Crdt => CRDT@,
            EntityKind::StatelessFunction => STATELESS_FUNCTION@,
        }
    }

    /// The fully qualified name of the kind, as it goes over the wire.
    pub fn name(&self) -> (res: String)
        ensures
            res@ == self.wire_name(),
    {
        match self {
            EntityKind::EventSourced => EVENT_SOURCED.to_owned(),
            EntityKind::Crdt => CRDT.to_owned(),
            EntityKind::StatelessFunction => STATELESS_FUNCTION.to_owned(),
        }
    }
}

/// Why a configuration cannot be started.
#[derive(Clone, Copy, Debug, PartialEq, Eq, Structural)]
pub enum ConfigError {
    /// No entity kind was chosen for the service.
    EntityKindMissing,
    /// The port is 0, which would leave the choice of a port to the system.
    PortOutOfRange,
    /// The path of the schema artifact does not lead to a file.
    DescriptorUnresolvable,
}

/// The static identity of one registered entity service.
///
/// It is built once, before startup, and only read afterwards.
#[derive(Debug)]
pub struct Options {
    pub entity_type: EntityKind,
    pub service_name: String,
    pub persistence_id: String,
    pub service_version: String,
    pub server_port: u16,
}

/// The content of an [`Options`] value.
pub ghost struct OptionsView {
    pub entity_type: EntityKind,
    pub service_name: Seq<char>,
    pub persistence_id: Seq<char>,
    pub service_version: Seq<char>,
    pub server_port: u16,
}

impl View for Options {
    type V = OptionsView;

    open spec fn view(&self) -> OptionsView {
        OptionsView {
            entity_type: self.entity_type,
            service_name: self.service_name@,
            persistence_id: self.persistence_id@,
            service_version: self.service_version@,
            server_port: self.server_port,
        }
    }
}

impl OptionsView {
    /// A configuration can be started when it names an explicit port.
    pub open spec fn valid(self) -> bool {
        self.server_port != 0
    }
}

impl Clone for Options {
    fn clone(&self) -> (res: Self)
        ensures
            res@ == self@,
    {
        Options {
            entity_type: self.entity_type,
            service_name: self.service_name.clone(),
            persistence_id: self.persistence_id.clone(),
            service_version: self.service_version.clone(),
            server_port: self.server_port,
        }
    }
}

impl Options {
    /// Makes a configuration of its parts, if they are a valid one.
    pub fn new(
        entity_type: EntityKind,
        service_name: String,
        persistence_id: String,
        service_version: String,
        server_port: u16,
    ) -> (res: Result<Options, ConfigError>)
        ensures
            res is Ok <==> server_port != 0,
            res matches Ok(opts) ==> opts@ == (OptionsView {
                entity_type,
                service_name: service_name@,
                persistence_id: persistence_id@,
                service_version: service_version@,
                server_port,
            }),
            res matches Err(e) ==> e == ConfigError::PortOutOfRange,
    {
        let opts = Options {
            entity_type,
            service_name,
            persistence_id,
            service_version,
            server_port,
        };
        match opts.validate() {
            Ok(()) => Ok(opts),
            Err(e) => Err(e),
        }
    }

    /// Checks that the configuration can be started.
    pub fn validate(&self) -> (res: Result<(), ConfigError>)
        ensures
            res is Ok <==> self@.valid(),
            res matches Err(e) ==> e == ConfigError::PortOutOfRange,
    {
        if self.server_port == 0 {
            Err(ConfigError::PortOutOfRange)
        } else {
            Ok(())
        }
    }
}

/// The command that starts a service: it carries the configuration to the
/// one that owns the listener.
#[derive(Debug)]
pub struct StartMessage {
    pub opts: Options,
}

/// The start command, for callers that see it as registering the service.
pub type RegisterMessage = StartMessage;

/// Where the listener of a process stands.
#[derive(Clone, Copy, Debug, PartialEq, Eq, Structural)]
pub enum Phase {
    /// No start was asked for yet.
    Idle,
    /// A start was accepted, and the port is being bound.
    Binding { port: u16 },
    /// The port is bound and calls are served, until the process ends.
    Serving { port: u16 },
    /// The last start ended when the port could not be bound.
    Failed { port: u16 },
}

/// Why a start did not lead to a serving listener.
#[derive(Clone, Copy, Debug, PartialEq, Eq, Structural)]
pub enum StartError {
    /// The configuration was refused.
    Config(ConfigError),
    /// A start is under way or has succeeded: there is one listener only.
    AlreadyStarted,
    /// The outcome of a bind was reported while none was awaited.
    NotBinding,
    /// The port could not be bound.
    BindFailure { port: u16 },
}

impl Phase {
    /// Whether a start can be accepted: before the first one, and after one
    /// that failed.
    pub open spec fn accepts_start(self) -> bool {
        self is Idle || self is Failed
    }

    /// The phase after a start command with the configuration `opts`: the
    /// bind is awaited if the command is accepted, and nothing changes if
    /// it is refused.
    pub open spec fn after_start(self, opts: OptionsView, descriptor_found: bool) -> Phase {
        if self.start_refusal(opts, descriptor_found) is None {
            Phase::Binding { port: opts.server_port }
        } else {
            self
        }
    }

    /// What the issuer of a start command with the configuration `opts`
    /// is told, if it is not accepted. `descriptor_found` says whether the
    /// path of the schema artifact leads to a file.
    pub open spec fn start_refusal(
        self,
        opts: OptionsView,
        descriptor_found: bool,
    ) -> Option<StartError> {
        if !self.accepts_start() {
            Some(StartError::AlreadyStarted)
        } else if !opts.valid() {
            Some(StartError::Config(ConfigError::PortOutOfRange))
        } else if !descriptor_found {
            Some(StartError::Config(ConfigError::DescriptorUnresolvable))
        } else {
            None
        }
    }

    /// The phase after the outcome of a bind is known.
    pub open spec fn after_bind(self, bound: bool) -> Phase {
        match self {
            Phase::Binding { port } => if bound {
                Phase::Serving { port }
            } else {
                Phase::Failed { port }
            },
            _ => self,
        }
    }

    /// What the issuer of the start is told once the outcome of the bind is
    /// known.
    pub open spec fn bind_report(self, bound: bool) -> Result<(), StartError> {
        match self {
            Phase::Binding { port } => if bound {
                Ok(())
            } else {
                Err(StartError::BindFailure { port })
            },
            _ => Err(StartError::NotBinding),
        }
    }
}

/// The owner of the process's single listener.
///
/// It takes the start command, and then the outcome of the bind that the
/// command led to; what it answers is for the issuer of the command.
#[derive(Debug)]
pub struct ProtocolHandlerActor {
    phase: Phase,
}

impl View for ProtocolHandlerActor {
    type V = Phase;

    closed spec fn view(&self) -> Phase {
        self.phase
    }
}

impl ProtocolHandlerActor {
    /// An owner whose listener was never started.
    pub fn new() -> (res: Self)
        ensures
            res@ == Phase::Idle,
    {
        ProtocolHandlerActor { phase: Phase::Idle }
    }

    /// Where the listener stands.
    pub fn phase(&self) -> (res: Phase)
        ensures
            res == self@,
    {
        self.phase
    }

    /// Takes a start command.
    ///
    /// `descriptor_found` says whether the path of the schema artifact
    /// leads to a file. Before the first start, and after one that failed,
    /// a valid configuration whose schema artifact is found is accepted:
    /// its server comes back, and the bind it asks for is awaited. Any
    /// other command is refused and changes nothing.
    pub fn handle(
        &mut self,
        msg: StartMessage,
        descriptor_found: bool,
    ) -> (res: Result<GrpcServer, StartError>)
        ensures
            final(self)@ == old(self)@.after_start(msg.opts@, descriptor_found),
            res is Ok <==> old(self)@.start_refusal(msg.opts@, descriptor_found) is None,
            res matches Ok(server) ==> server.options == msg.opts,
            res matches Err(e) ==> old(self)@.start_refusal(msg.opts@, descriptor_found) == Some(e),
    {
        match self.phase {
            Phase::Idle | Phase::Failed { .. } => {},
            _ => {
                return Err(StartError::AlreadyStarted);
            },
        }
        match msg.opts.validate() {
            Ok(()) => {},
            Err(e) => {
                return Err(StartError::Config(e));
            },
        }
        if !descriptor_found {
            return Err(StartError::Config(ConfigError::DescriptorUnresolvable));
        }
        self.phase = Phase::Binding { port: msg.opts.server_port };
        Ok(GrpcServer::new(msg.opts))
    }

    /// Takes the outcome of the bind that the last accepted start asked for.
    ///
    /// A bound port is served from then on. A port that could not be bound
    /// ends the start with a failure that names the port; a later start
    /// may try again.
    pub fn bound(&mut self, bound: bool) -> (res: Result<(), StartError>)
        ensures
            final(self)@ == old(self)@.after_bind(bound),
            res == old(self)@.bind_report(bound),
    {
        match self.phase {
            Phase::Binding { port } => {
                if bound {
                    self.phase = Phase::Serving { port };
                    Ok(())
                } else {
                    self.phase = Phase::Failed { port };
                    Err(StartError::BindFailure { port })
                }
            },
            _ => Err(StartError::NotBinding),
        }
    }
}

/// A serving listener stays: no command and no bind outcome takes the
/// process out of serving.
pub proof fn lemma_serving_is_final(
    phase: Phase,
    opts: OptionsView,
    descriptor_found: bool,
    bound: bool,
)
    requires
        phase is Serving,
    ensures
        phase.after_start(opts, descriptor_found) == phase,
        phase.after_bind(bound) == phase,
        phase.start_refusal(opts, descriptor_found) == Some(StartError::AlreadyStarted),
{
}

/// The listener is bound for one start at a time: while a bind is awaited
/// or the listener serves, every further start command is refused.
pub proof fn lemma_one_start_at_a_time(
    phase: Phase,
    first: OptionsView,
    second: OptionsView,
    descriptor_found: bool,
)
    requires
        phase.start_refusal(first, true) is None,
    ensures
        phase.after_start(first, true).start_refusal(second, descriptor_found) == Some(
            StartError::AlreadyStarted,
        ),
        phase.after_start(first, true).after_bind(true).start_refusal(second, descriptor_found)
            == Some(StartError::AlreadyStarted),
{
}

/// A bind failure ends the start it belongs to and no more: the issuer is
/// told the port, and a start that would be accepted by a fresh process
/// is accepted again.
pub proof fn lemma_failed_start_can_be_retried(
    phase: Phase,
    first: OptionsView,
    second: OptionsView,
    descriptor_found: bool,
)
    requires
        phase.start_refusal(first, true) is None,
    ensures
        phase.after_start(first, true).bind_report(false) == Err::<(), StartError>(
            StartError::BindFailure { port: first.server_port },
        ),
        phase.after_start(first, true).after_bind(false).start_refusal(second, descriptor_found)
            == Phase::Idle.start_refusal(second, descriptor_found),
{
}

} // verus!
