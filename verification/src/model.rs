//! The mathematical model of one resolution call.
//!
//! These spec functions say, over a single fleet observation, what the
//! connection registry looks like after it has been refreshed, how many
//! fresh connect attempts that refresh makes, and which address (if any)
//! the sweep over the live connections returns. The contracts of
//! `Sentinel::connect_all_sentinels` and `Sentinel::master_for` are stated
//! in terms of these functions, and the laws in [`crate::laws`] are proved
//! about them.

use vstd::prelude::*;

use crate::client::FleetView;
use crate::endpoint::SentinelEndpoint;
use crate::reply::QueryReplySpec;
use crate::reply::RoleReplySpec;

verus! {

/// The normalized connection URI built from a (host, port) pair reported by
/// a sentinel: `redis://host:port/`.
pub open spec fn master_uri_spec(host: Seq<char>, port: Seq<char>) -> Seq<char> {
    "redis://"@ + host + ":"@ + port + "/"@
}

/// The (host, port) pair carried by a usable sentinel reply. A failed,
/// empty or malformed reply carries none and is skipped by the sweep.
pub open spec fn candidate_of(reply: QueryReplySpec) -> Option<(Seq<char>, Seq<char>)> {
    match reply {
        QueryReplySpec::Addr(host, port) => Some((host, port)),
        _ => None,
    }
}

/// Whether a role reply confirms the node as primary: it decoded, and its
/// first element is the literal text `master`.
pub open spec fn confirms_master_spec(reply: RoleReplySpec) -> bool {
    match reply {
        RoleReplySpec::Failed => false,
        RoleReplySpec::Roles(roles) => roles.len() > 0 && roles[0] == "master"@,
    }
}

/// Whether one endpoint holds a live connection after the registry refresh:
/// a cached connection that passes its health check is kept; otherwise a
/// fresh connect attempt decides.
pub open spec fn entry_after(fleet: FleetView, endpoint: SentinelEndpoint, was_live: bool) -> bool {
    if was_live && fleet.healthy.contains(endpoint.addr()) {
        true
    } else {
        fleet.reachable.contains(endpoint.addr())
    }
}

/// Whether refreshing one endpoint makes a fresh connect attempt: it does
/// unless a cached connection is present and passes its health check.
pub open spec fn entry_fresh_connect(fleet: FleetView, endpoint: SentinelEndpoint, was_live: bool) -> bool {
    !(was_live && fleet.healthy.contains(endpoint.addr()))
}

/// The whole registry after the refresh, endpoint by endpoint.
pub open spec fn entries_after(fleet: FleetView, endpoints: Seq<SentinelEndpoint>, was_live: Seq<bool>) -> Seq<bool> {
    Seq::new(endpoints.len(), |i: int| entry_after(fleet, endpoints[i], was_live[i]))
}

/// How many fresh connect attempts the refresh makes over all endpoints.
pub open spec fn fresh_connects(fleet: FleetView, endpoints: Seq<SentinelEndpoint>, was_live: Seq<bool>) -> nat
    decreases endpoints.len(),
{
    if endpoints.len() == 0 {
        0
    } else {
        fresh_connects(fleet, endpoints.drop_last(), was_live.drop_last()) + (
        if entry_fresh_connect(fleet, endpoints.last(), was_live[endpoints.len() - 1]) {
            1nat
        } else {
            0nat
        })
    }
}

/// Whether any entry of the registry is live.
pub open spec fn any_live(live: Seq<bool>) -> bool
    decreases live.len(),
{
    if live.len() == 0 {
        false
    } else {
        live.last() || any_live(live.drop_last())
    }
}

/// What consulting the sentinel at `addr` about `service` yields: the
/// validated connection URI of the primary it names, if its reply carries
/// an address and the node behind that address confirms the primary role;
/// nothing otherwise.
pub open spec fn attempt_outcome(fleet: FleetView, addr: (Seq<char>, u16), service: Seq<char>) -> Option<Seq<char>> {
    match candidate_of(fleet.replies[(addr, service)]) {
        Some(pair) => {
            let uri = master_uri_spec(pair.0, pair.1);
            if confirms_master_spec(fleet.roles[uri]) {
                Some(uri)
            } else {
                None
            }
        },
        None => None,
    }
}

/// The result of sweeping the live connections in configuration order,
/// starting at endpoint `i`: the first validated candidate wins, and a
/// sentinel that is not live, yields no address, or names a node that does
/// not confirm the primary role is passed over.
pub open spec fn sweep_outcome(
    fleet: FleetView,
    endpoints: Seq<SentinelEndpoint>,
    live: Seq<bool>,
    service: Seq<char>,
    i: int,
) -> Option<Seq<char>>
    decreases endpoints.len() - i,
{
    if i < 0 || i >= endpoints.len() {
        None
    } else {
        let here = if live[i] {
            attempt_outcome(fleet, endpoints[i].addr(), service)
        } else {
            None
        };
        if here is Some {
            here
        } else {
            sweep_outcome(fleet, endpoints, live, service, i + 1)
        }
    }
}

} // verus!
