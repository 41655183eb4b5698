//! The discovery handshake service and the server that offers it.

use vstd::prelude::*;
use vstd::string::*;
use crate::protocol::Options;
use crate::protocol::OptionsView;
use crate::protocol::messages::Entity;
use crate::protocol::messages::EntityView;
use crate::protocol::messages::EntitySpec;
use crate::protocol::messages::EntitySpecView;
use crate::protocol::messages::ProxyInfo;
use crate::protocol::messages::ServiceInfo;
use crate::protocol::messages::ServiceInfoView;
use crate::protocol::messages::UserFunctionError;
use crate::protocol::router::Rejection;
use crate::protocol::router::RouteTable;
use crate::protocol::router::Router;
use crate::text::same_text;

verus! {

/// Where the schema artifact lies, from the directory the process runs in.
pub const DESCRIPTOR_PATH: &'static str = "user-function.desc";

/// The name of the support library, as the handshake reply gives it.
pub const SUPPORT_LIBRARY_NAME: &'static str = "cloudstate-rust-support";

/// The version the reply gives for the support library when the build did
/// not record one.
pub const DEFAULT_LIBRARY_VERSION: &'static str = "0.5.0";

/// What precedes the compiler's version in the runtime identifier.
pub const RUNTIME_PREFIX: &'static str = "rustc ";

/// The fully qualified name of the discovery service.
pub const ENTITY_DISCOVERY: &'static str = "cloudstate.EntityDiscovery";

/// The name of the handshake method.
pub const DISCOVER: &'static str = "Discover";

/// The name of the method by which the sidecar reports a fault.
pub const REPORT_ERROR: &'static str = "ReportError";

/// What precedes the sidecar's message in the line that goes to the log.
pub const FAULT_PREFIX: &'static str = "Received report_error from sidecar. Error: ";

/// What a process knows about the build it runs: constant from one handshake
/// to the next.
#[derive(Debug, PartialEq, Eq)]
pub struct BuildInfo {
    /// The version of the compiler, such as `1.52.0`, or `None` where asking
    /// for it failed.
    pub runtime_version: Option<String>,
    /// The version of the support library, where the build recorded it.
    pub library_version: Option<String>,
}

/// The content of a [`BuildInfo`].
pub ghost struct BuildInfoView {
    pub runtime_version: Option<Seq<char>>,
    pub library_version: Option<Seq<char>>,
}

impl View for BuildInfo {
    type V = BuildInfoView;

    open spec fn view(&self) -> BuildInfoView {
        BuildInfoView {
            runtime_version: match self.runtime_version {
                Some(v) => Some(v@),
                None => None,
            },
            library_version: match self.library_version {
                Some(v) => Some(v@),
                None => None,
            },
        }
    }
}

/// Why a handshake was not answered.
#[derive(Clone, Copy, Debug, PartialEq, Eq, Structural)]
pub enum DiscoveryError {
    /// Something the reply is made of cannot be had: the schema artifact is
    /// missing or unreadable, or the compiler's version is not known.
    ConfigurationUnavailable,
}

/// The one entity that a configuration registers.
pub open spec fn entity_of(opts: OptionsView) -> EntityView {
    EntityView {
        entity_type: opts.entity_type.wire_name(),
        service_name: opts.service_name,
        persistence_id: opts.persistence_id,
    }
}

/// The service information for a configuration, the version of the
/// compiler and that of the support library, if the build recorded it.
pub open spec fn service_info_of(
    opts: OptionsView,
    runtime_version: Seq<char>,
    library_version: Option<Seq<char>>,
) -> ServiceInfoView {
    ServiceInfoView {
        service_name: opts.service_name,
        service_version: opts.service_version,
        service_runtime: RUNTIME_PREFIX@ + runtime_version,
        support_library_name: SUPPORT_LIBRARY_NAME@,
        support_library_version: match library_version {
            Some(v) => v,
            None => DEFAULT_LIBRARY_VERSION@,
        },
    }
}

/// The reply to a handshake: the schema as it was read, the one configured
/// entity, and the service information.
pub open spec fn handshake_reply(
    opts: OptionsView,
    runtime_version: Seq<char>,
    library_version: Option<Seq<char>>,
    schema: Seq<u8>,
) -> EntitySpecView {
    EntitySpecView {
        proto: schema,
        entities: seq![entity_of(opts)],
        service_info: Some(service_info_of(opts, runtime_version, library_version)),
    }
}

/// The content of the outcome of a handshake.
pub open spec fn reply_content(
    res: Result<EntitySpec, DiscoveryError>,
) -> Result<EntitySpecView, DiscoveryError> {
    match res {
        Ok(reply) => Ok(reply@),
        Err(e) => Err(e),
    }
}

/// The bytes of the schema artifact, where it could be read.
pub open spec fn schema_content(schema: Option<Vec<u8>>) -> Option<Seq<u8>> {
    match schema {
        Some(bytes) => Some(bytes@),
        None => None,
    }
}

/// The methods of the discovery service.
#[derive(Clone, Copy, Debug, PartialEq, Eq, Structural)]
pub enum DiscoveryMethod {
    Discover,
    ReportError,
}

/// The acknowledgement of a fault report.
#[derive(Debug, PartialEq, Eq)]
pub struct Acknowledgement {
    /// The line to write to the error log.
    pub logged: String,
}

/// The discovery handshake service of one configured entity service.
#[derive(Debug)]
pub struct Discover {
    pub opts: Options,
}

impl Clone for Discover {
    fn clone(&self) -> (res: Self)
        ensures
            res.opts@ == self.opts@,
    {
        Discover { opts: self.opts.clone() }
    }
}

impl Discover {
    /// What [`Discover::discover`] answers: a failure when the schema
    /// artifact could not be read or the compiler's version is not known,
    /// else the reply for the configuration. The sidecar's own description
    /// has no part in it.
    pub open spec fn spec_discover(
        &self,
        request: ProxyInfo,
        build: BuildInfoView,
        schema: Option<Seq<u8>>,
    ) -> Result<EntitySpecView, DiscoveryError> {
        if schema is Some && build.runtime_version is Some {
            Ok(
                handshake_reply(
                    self.opts@,
                    build.runtime_version.unwrap(),
                    build.library_version,
                    schema.unwrap(),
                ),
            )
        } else {
            Err(DiscoveryError::ConfigurationUnavailable)
        }
    }

    /// Answers the sidecar's handshake.
    ///
    /// `schema` is the content of the schema artifact, or `None` where it is
    /// missing or unreadable. The reply embeds it as it is, lists the one
    /// configured entity and describes the service; whatever the sidecar
    /// says about itself in `request` is accepted. Without the schema, or
    /// without the compiler's version, there is no reply.
    pub fn discover(
        &self,
        request: &ProxyInfo,
        build: &BuildInfo,
        schema: Option<Vec<u8>>,
    ) -> (res: Result<EntitySpec, DiscoveryError>)
        ensures
            reply_content(res) == self.spec_discover(*request, build@, schema_content(schema)),
            res is Ok <==> schema is Some && build.runtime_version is Some,
            res matches Err(e) ==> e == DiscoveryError::ConfigurationUnavailable,
            res matches Ok(reply) ==> reply.proto@ == schema.unwrap()@,
            res matches Ok(reply) ==> reply.entities@.len() == 1,
            res matches Ok(reply) ==> reply.entities@[0]@ == entity_of(self.opts@),
            res matches Ok(reply) ==> reply.service_info is Some,
            res matches Ok(reply) ==> reply.service_info.unwrap().service_name@
                == self.opts.service_name@,
            res matches Ok(reply) ==> reply.service_info.unwrap().service_version@
                == self.opts.service_version@,
    {
        let proto = match schema {
            Some(bytes) => bytes,
            None => {
                return Err(DiscoveryError::ConfigurationUnavailable);
            },
        };
        let mut runtime = RUNTIME_PREFIX.to_owned();
        match &build.runtime_version {
            Some(v) => {
                runtime.append(v.as_str());
            },
            None => {
                return Err(DiscoveryError::ConfigurationUnavailable);
            },
        }
        let library_version = match &build.library_version {
            Some(v) => v.clone(),
            None => DEFAULT_LIBRARY_VERSION.to_owned(),
        };
        let entity = Entity {
            entity_type: self.opts.entity_type.name(),
            service_name: self.opts.service_name.clone(),
            persistence_id: self.opts.persistence_id.clone(),
        };
        let mut entities: Vec<Entity> = Vec::new();
        entities.push(entity);
        let info = ServiceInfo {
            service_name: self.opts.service_name.clone(),
            service_version: self.opts.service_version.clone(),
            service_runtime: runtime,
            support_library_name: SUPPORT_LIBRARY_NAME.to_owned(),
            support_library_version: library_version,
        };
        let reply = EntitySpec { proto, entities, service_info: Some(info) };
        assert(reply@.entities =~= seq![entity_of(self.opts@)]);
        Ok(reply)
    }

    /// The method of the discovery service that goes by `name`.
    pub open spec fn spec_method(name: Seq<char>) -> Result<DiscoveryMethod, Rejection> {
        if name == DISCOVER@ {
            Ok(DiscoveryMethod::Discover)
        } else if name == REPORT_ERROR@ {
            Ok(DiscoveryMethod::ReportError)
        } else {
            Err(Rejection::UnimplementedMethod)
        }
    }

    /// Tells which method of the discovery service a call is for, by the
    /// name that follows the service in its path. Any other name is that of
    /// a method which the service does not implement.
    pub fn method(name: &str) -> (res: Result<DiscoveryMethod, Rejection>)
        ensures
            res == Self::spec_method(name@),
    {
        if same_text(name, DISCOVER) {
            Ok(DiscoveryMethod::Discover)
        } else if same_text(name, REPORT_ERROR) {
            Ok(DiscoveryMethod::ReportError)
        } else {
            Err(Rejection::UnimplementedMethod)
        }
    }

    /// Takes a fault report from the sidecar.
    ///
    /// Every report is acknowledged. The acknowledgement carries the line for
    /// the error log, which ends in the sidecar's message as it came; the
    /// service itself is left as it is.
    pub fn report_error(&self, request: &UserFunctionError) -> (res: Acknowledgement)
        ensures
            res.logged@ == FAULT_PREFIX@ + request.message@,
    {
        let mut logged = FAULT_PREFIX.to_owned();
        logged.append(request.message.as_str());
        Acknowledgement { logged }
    }
}

/// Answering the handshake is a function of the configuration, the build
/// and the schema artifact alone: with these unchanged, any two handshakes
/// have the same outcome, whoever asks.
pub proof fn lemma_discover_is_deterministic(
    first: Discover,
    second: Discover,
    first_request: ProxyInfo,
    second_request: ProxyInfo,
    build: BuildInfoView,
    schema: Option<Seq<u8>>,
)
    requires
        first.opts@ == second.opts@,
    ensures
        first.spec_discover(first_request, build, schema) == second.spec_discover(
            second_request,
            build,
            schema,
        ),
{
}

/// Where a server listens and what it serves there.
#[derive(Debug)]
pub struct Listener {
    /// The address to bind, as its four octets.
    pub address: (u8, u8, u8, u8),
    /// The port to bind.
    pub port: u16,
    /// The sole handler of what arrives on the port.
    pub router: Router<Discover>,
}

/// The server of one configured entity service.
#[derive(Debug)]
pub struct GrpcServer {
    pub options: Options,
}

impl GrpcServer {
    /// The server for the configuration `opts`.
    pub fn new(opts: Options) -> (res: Self)
        ensures
            res.options == opts,
    {
        GrpcServer { options: opts }
    }

    /// Lays out the listener of this server: every interface at the
    /// configured port, and behind it a router that knows the discovery
    /// service for this configuration and nothing else.
    pub fn start(self) -> (res: Listener)
        ensures
            res.address == (0u8, 0u8, 0u8, 0u8),
            res.port == self.options.server_port,
            res.router@ == Map::<Seq<char>, Discover>::empty().insert(
                ENTITY_DISCOVERY@,
                (Discover { opts: self.options }),
            ),
    {
        let port: u16 = self.options.server_port;
        let discover = Discover { opts: self.options };
        let mut table: RouteTable<Discover> = RouteTable::new();
        let _ = table.register(ENTITY_DISCOVERY.to_owned(), discover);
        Listener { address: (0, 0, 0, 0), port, router: Router::new(table) }
    }
}

} // verus!
