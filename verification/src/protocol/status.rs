//! How a failure is told to the sidecar: a code and a message, in place of a
//! dropped connection.

use vstd::prelude::*;
use vstd::string::*;
use crate::protocol::router::Rejection;
use crate::protocol::server::DiscoveryError;

verus! {

/// What the sidecar reads when the path of a call is malformed.
pub const INVALID_REQUEST: &'static str = "the path of the call is not /<service>/<method>";

/// What the sidecar reads when it calls a service that has no handler.
pub const UNIMPLEMENTED_SERVICE: &'static str = "no service of that name is implemented";

/// What the sidecar reads when it calls a method that a service lacks.
pub const UNIMPLEMENTED_METHOD: &'static str = "the service has no method of that name";

/// What the sidecar reads when the schema artifact cannot be had.
pub const CONFIGURATION_UNAVAILABLE: &'static str =
    "the schema descriptor is missing or cannot be read";

/// The kinds of failure that a response can carry.
#[derive(Clone, Copy, Debug, PartialEq, Eq, Structural)]
pub enum Code {
    /// The call itself is at fault.
    InvalidArgument,
    /// What was called does not exist here.
    Unimplemented,
    /// The process cannot answer at this time.
    Unavailable,
}

/// A failure as the sidecar sees it.
#[derive(Debug, PartialEq, Eq)]
pub struct Status {
    pub code: Code,
    pub message: String,
}

/// The content of a [`Status`].
pub ghost struct StatusView {
    pub code: Code,
    pub message: Seq<char>,
}

impl View for Status {
    type V = StatusView;

    open spec fn view(&self) -> StatusView {
        StatusView { code: self.code, message: self.message@ }
    }
}

impl Rejection {
    /// The response to a call that is not served.
    pub open spec fn spec_status(self) -> StatusView {
        match self {
            Rejection::InvalidRequest => StatusView {
                code: Code::InvalidArgument,
                message: INVALID_REQUEST@,
            },
            Rejection::UnimplementedService => StatusView {
                code: Code::Unimplemented,
                message: UNIMPLEMENTED_SERVICE@,
            },
            Rejection::UnimplementedMethod => StatusView {
                code: Code::Unimplemented,
                message: UNIMPLEMENTED_METHOD@,
            },
        }
    }

    /// The response to a call that is not served.
    pub fn status(&self) -> (res: Status)
        ensures
            res@ == self.spec_status(),
    {
        match self {
            Rejection::InvalidRequest => Status {
                code: Code::InvalidArgument,
                message: INVALID_REQUEST.to_owned(),
            },
            Rejection::UnimplementedService => Status {
                code: Code::Unimplemented,
                message: UNIMPLEMENTED_SERVICE.to_owned(),
            },
            Rejection::UnimplementedMethod => Status {
                code: Code::Unimplemented,
                message: UNIMPLEMENTED_METHOD.to_owned(),
            },
        }
    }
}

impl DiscoveryError {
    /// The response to a handshake that was not answered.
    pub open spec fn spec_status(self) -> StatusView {
        match self {
            DiscoveryError::ConfigurationUnavailable => StatusView {
                code: Code::Unavailable,
                message: CONFIGURATION_UNAVAILABLE@,
            },
        }
    }

    /// The response to a handshake that was not answered.
    pub fn status(&self) -> (res: Status)
        ensures
            res@ == self.spec_status(),
    {
        match self {
            DiscoveryError::ConfigurationUnavailable => Status {
                code: Code::Unavailable,
                message: CONFIGURATION_UNAVAILABLE.to_owned(),
            },
        }
    }
}

} // verus!
