//! The wire-protocol collaborator, as the resolver sees it.
//!
//! The generic protocol client (connection establishment, request encoding,
//! reply decoding, timeout-bounded socket I/O) is not part of this library.
//! The resolver only needs four exchanges from it, stated here as a trait:
//! open a connection to a sentinel endpoint, health-check an existing one,
//! ask a sentinel for a service's primary address, and ask a candidate node
//! for its role.
//!
//! A client is modelled by the [`FleetView`] it presents: one consistent
//! observation of which endpoints accept connections, which cached
//! connections are still usable, and what every query would answer. The
//! contracts pin each call's result to that observation, so everything the
//! resolver proves is relative to it. [`crate::snapshot::SnapshotClient`]
//! implements the trait in this crate, with every contract proved; an
//! implementation backed by a live network approximates the model — its
//! observation may drift between calls as the fleet itself changes, which a
//! caller rides out by invoking the resolver again.

use vstd::prelude::*;

use crate::endpoint::SentinelEndpoint;
use crate::reply::QueryReply;
use crate::reply::QueryReplySpec;
use crate::reply::RoleReply;
use crate::reply::RoleReplySpec;

verus! {

/// One observation of the sentinel fleet and of the candidate nodes, plus
/// counters of the work a client has performed so far.
///
/// Addresses are (host text, port) pairs. `replies` answers "what does the
/// sentinel at this address say about this service name", `roles` answers
/// "what does the node behind this connection URI report as its role".
/// The three counters exist so that contracts can say when work is *not*
/// performed: a reused connection causes no new connect attempt, and an
/// unreachable fleet causes no query at all.
#[verifier::ext_equal]
pub ghost struct FleetView {
    /// Addresses at which a fresh sentinel connection attempt succeeds.
    pub reachable: Set<(Seq<char>, u16)>,
    /// Addresses whose cached connection passes a health check.
    pub healthy: Set<(Seq<char>, u16)>,
    /// Per (sentinel address, service name): the sentinel's answer.
    pub replies: Map<((Seq<char>, u16), Seq<char>), QueryReplySpec>,
    /// Per connection URI: the role reply of the node behind it.
    pub roles: Map<Seq<char>, RoleReplySpec>,
    /// Sentinel connection attempts made so far.
    pub connects: nat,
    /// Primary-address queries sent so far.
    pub queries: nat,
    /// Role probes (one-shot candidate connections) made so far.
    pub role_probes: nat,
}

/// The collaborator interface: timeout-bounded request/reply exchanges
/// against single endpoints. Each method performs one exchange and reports
/// its outcome as plain data; the resolver decides everything else.
pub trait SentinelClient: View<V = FleetView> {
    /// Attempt to open (or replace) a connection to a sentinel endpoint,
    /// giving up after the connect timeout; true exactly when the endpoint
    /// accepted. On failure any cached connection for the address is gone.
    fn connect_sentinel(&mut self, endpoint: &SentinelEndpoint, connect_timeout_ms: u64) -> (r: bool)
        ensures
            r == old(self)@.reachable.contains(endpoint.addr()),
            final(self)@ == (FleetView { connects: old(self)@.connects + 1, ..old(self)@ }),
    ;

    /// Lightweight health check of the cached connection to an endpoint;
    /// true exactly when that connection is still usable.
    fn check_connection(&mut self, endpoint: &SentinelEndpoint) -> (r: bool)
        ensures
            r == old(self)@.healthy.contains(endpoint.addr()),
            final(self)@ == old(self)@,
    ;

    /// Send "resolve the primary address of `service_name`" over the cached
    /// connection to `endpoint` and hand back the decoded answer.
    fn query_master_addr(&mut self, endpoint: &SentinelEndpoint, service_name: &str) -> (r: QueryReply)
        ensures
            r@ == old(self)@.replies[(endpoint.addr(), service_name@)],
            final(self)@ == (FleetView { queries: old(self)@.queries + 1, ..old(self)@ }),
    ;

    /// Open a one-shot connection to the candidate node named by the
    /// connection URI `master_addr`, bounded by the connect timeout, ask it
    /// to report its role, and hand back the decoded answer. The connection
    /// is discarded afterwards, never cached.
    fn query_role(&mut self, master_addr: &String, connect_timeout_ms: u64) -> (r: RoleReply)
        ensures
            r@ == old(self)@.roles[master_addr@],
            final(self)@ == (FleetView { role_probes: old(self)@.role_probes + 1, ..old(self)@ }),
    ;
}

} // verus!
