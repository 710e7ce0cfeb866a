//! Sentinel endpoint descriptors and the error surface of the resolver.

use vstd::prelude::*;

verus! {

/// One configured monitor ("sentinel") process: a network address plus an
/// optional credential. The list handed to `Sentinel::new` is fixed at
/// construction time and never mutated afterwards.
pub struct SentinelEndpoint {
    /// Host name or address text.
    pub host: String,
    /// TCP port.
    pub port: u16,
    /// Optional password, handed through to the wire-protocol client when a
    /// connection to this endpoint is opened.
    pub password: Option<String>,
}

impl SentinelEndpoint {
    /// The address under which this endpoint is keyed in the connection
    /// registry: its host text together with its port.
    pub open spec fn addr(&self) -> (Seq<char>, u16) {
        (self.host@, self.port)
    }

    /// A descriptor is well formed when its host text is not empty.
    pub open spec fn well_formed(&self) -> bool {
        self.host@.len() > 0
    }
}

/// The failures the resolver can report. Only `InvalidEndpoint`,
/// `NoSentinelReachable` and `MasterNotFound` cross the boundary of
/// `Sentinel`; a failed role probe is absorbed by the resolution sweep.
#[derive(Clone, Copy, Debug, PartialEq, Eq, Structural)]
pub enum SentinelError {
    /// A sentinel descriptor handed to `Sentinel::new` is malformed.
    InvalidEndpoint,
    /// No configured sentinel endpoint could be reached.
    NoSentinelReachable,
    /// Every reachable sentinel was consulted and none produced a validated
    /// primary address for the requested service.
    MasterNotFound,
    /// A role query against a candidate primary could not be completed.
    RoleQueryFailed,
}

} // verus!
