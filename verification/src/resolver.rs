//! The resolver: a registry of sentinel connections, the refresh that keeps
//! it usable, and the sweep that finds and validates a primary address.

use vstd::prelude::*;
use vstd::string::StringExecFns;

use crate::client::FleetView;
use crate::client::SentinelClient;
use crate::endpoint::SentinelEndpoint;
use crate::endpoint::SentinelError;
use crate::model::any_live;
use crate::model::attempt_outcome;
use crate::model::candidate_of;
use crate::model::confirms_master_spec;
use crate::model::entries_after;
use crate::model::entry_after;
use crate::model::entry_fresh_connect;
use crate::model::fresh_connects;
use crate::model::master_uri_spec;
use crate::model::sweep_outcome;
use crate::reply::QueryReply;
use crate::reply::RoleReply;
use crate::reply::RoleReplySpec;

verus! {

/// Connect timeout for sentinel connections, in milliseconds.
pub const SENTINEL_CONNECT_TIMEOUT_MS: u64 = 500;

/// Connect timeout for the one-shot validation connection to a candidate
/// primary, in milliseconds.
pub const MASTER_CONNECT_TIMEOUT_MS: u64 = 500;

/// Build the normalized connection URI `redis://host:port/` for a (host,
/// port) pair reported by a sentinel.
pub fn master_addr_uri(host: &String, port: &String) -> (r: String)
    ensures
        r@ == master_uri_spec(host@, port@),
{
    let mut r = String::from_str("redis://");
    r.append(host.as_str());
    r.append(":");
    r.append(port.as_str());
    r.append("/");
    r
}

/// Whether a decoded role reply names the primary role: it has a first
/// element and that element is the literal text `master`.
pub fn role_confirms_master(roles: &Vec<String>) -> (r: bool)
    ensures
        r == confirms_master_spec(RoleReplySpec::Roles(roles.deep_view())),
{
    if roles.len() > 0 {
        let master = String::from_str("master");
        let r = roles[0] == master;
        proof {
            assert(roles.deep_view()[0] == roles@[0]@);
        }
        r
    } else {
        false
    }
}

/// Ask the node behind the connection URI `master_addr` for its role, over
/// a one-shot connection with its own bounded connect timeout, and report
/// whether it confirms itself as primary. One attempt, no retry; an
/// exchange that cannot be completed is an error, which the resolution
/// sweep treats exactly like a non-primary role.
pub fn validate_master_role<C: SentinelClient>(client: &mut C, master_addr: &String) -> (r: Result<bool, SentinelError>)
    ensures
        final(client)@ == (FleetView { role_probes: old(client)@.role_probes + 1, ..old(client)@ }),
        (match old(client)@.roles[master_addr@] {
            RoleReplySpec::Failed => r matches Err(e) && e == SentinelError::RoleQueryFailed,
            RoleReplySpec::Roles(roles) => (r matches Ok(b) && b == (roles.len() > 0
                && roles[0] == "master"@)),
        }),
{
    let reply = client.query_role(master_addr, MASTER_CONNECT_TIMEOUT_MS);
    match reply {
        RoleReply::Failed => Err(SentinelError::RoleQueryFailed),
        RoleReply::Roles(roles) => Ok(role_confirms_master(&roles)),
    }
}

/// The discovery client. It owns the fixed list of configured sentinel
/// endpoints and, per endpoint, whether the wire-protocol client currently
/// holds a live connection for it (the connection registry). Registry
/// entries survive across calls so that a healthy connection is reused.
pub struct Sentinel {
    /// The configured sentinel endpoints, in configuration order, fixed at
    /// construction time.
    pub initial_sentinels: Vec<SentinelEndpoint>,
    /// Per endpoint of `initial_sentinels`: whether a live connection is
    /// currently registered for its address. Initially all false.
    pub connections: Vec<bool>,
}

impl Sentinel {
    /// The registry always carries exactly one entry per configured
    /// endpoint.
    pub open spec fn wf(&self) -> bool {
        self.connections@.len() == self.initial_sentinels@.len()
    }

    /// Build a resolver over the given sentinel endpoints. Fails if any
    /// descriptor is malformed (its host text is empty); otherwise the
    /// endpoints are stored in the given order and the connection registry
    /// starts empty.
    pub fn new(sentinels: Vec<SentinelEndpoint>) -> (r: Result<Sentinel, SentinelError>)
        ensures
            (r matches Ok(s) ==> s.wf() && s.initial_sentinels@ == sentinels@
                && forall|i: int| 0 <= i < s.connections@.len() ==> !s.connections@[i]),
            (r matches Ok(s)) <==> (forall|i: int|
                0 <= i < sentinels@.len() ==> (#[trigger] sentinels@[i]).well_formed()),
            (r matches Err(e) ==> e == SentinelError::InvalidEndpoint),
    {
        let n = sentinels.len();
        let empty = String::new();
        let mut connections: Vec<bool> = Vec::new();
        let mut i: usize = 0;
        while i < n
            invariant
                i <= n,
                n == sentinels@.len(),
                connections@.len() == i,
                forall|j: int| 0 <= j < i ==> !connections@[j],
                forall|j: int| 0 <= j < i ==> (#[trigger] sentinels@[j]).well_formed(),
                empty@ == Seq::<char>::empty(),
            decreases n - i,
        {
            if sentinels[i].host == empty {
                proof {
                    assert(!sentinels@[i as int].well_formed());
                }
                return Err(SentinelError::InvalidEndpoint);
            }
            proof {
                assert(sentinels@[i as int].host@ != Seq::<char>::empty());
                assert(sentinels@[i as int].host@.len() > 0) by {
                    if sentinels@[i as int].host@.len() == 0 {
                        assert(sentinels@[i as int].host@ =~= Seq::<char>::empty());
                    }
                }
            }
            connections.push(false);
            i += 1;
        }
        Ok(Sentinel { initial_sentinels: sentinels, connections })
    }

    /// Refresh the connection registry: keep every cached connection that
    /// still passes its health check, and for every other configured
    /// endpoint make one fresh connect attempt within the sentinel connect
    /// timeout, dropping the entry if the attempt fails. An endpoint that
    /// cannot be reached is skipped, not fatal; only a registry left with
    /// no live entry at all fails the call, with the connectivity error.
    fn connect_all_sentinels<C: SentinelClient>(&mut self, client: &mut C) -> (r: Result<(), SentinelError>)
        requires
            old(self).wf(),
        ensures
            final(self).wf(),
            final(self).initial_sentinels@ == old(self).initial_sentinels@,
            final(self).connections@ == entries_after(
                old(client)@,
                old(self).initial_sentinels@,
                old(self).connections@,
            ),
            final(client)@ == (FleetView {
                connects: old(client)@.connects + fresh_connects(
                    old(client)@,
                    old(self).initial_sentinels@,
                    old(self).connections@,
                ),
                ..old(client)@
            }),
            (r is Ok) <==> any_live(final(self).connections@),
            r matches Err(e) ==> e == SentinelError::NoSentinelReachable,
    {
        let ghost fleet = old(client)@;
        let ghost eps = old(self).initial_sentinels@;
        let ghost was = old(self).connections@;
        let n = self.initial_sentinels.len();
        let mut updated: Vec<bool> = Vec::new();
        let mut found_live = false;
        let mut i: usize = 0;
        while i < n
            invariant
                i <= n,
                self.wf(),
                n == self.initial_sentinels@.len(),
                self.initial_sentinels@ == eps,
                self.connections@ == was,
                updated@.len() == i,
                updated@ == entries_after(fleet, eps.take(i as int), was.take(i as int)),
                found_live == any_live(updated@),
                client@ == (FleetView {
                    connects: fleet.connects + fresh_connects(
                        fleet,
                        eps.take(i as int),
                        was.take(i as int),
                    ),
                    ..fleet
                }),
            decreases n - i,
        {
            let endpoint = &self.initial_sentinels[i];
            let was_live = self.connections[i];
            let still_ok = if was_live {
                client.check_connection(endpoint)
            } else {
                false
            };
            let now_live = if still_ok {
                true
            } else {
                client.connect_sentinel(endpoint, SENTINEL_CONNECT_TIMEOUT_MS)
            };
            proof {
                assert(now_live == entry_after(fleet, eps[i as int], was[i as int]));
                assert(still_ok == !entry_fresh_connect(fleet, eps[i as int], was[i as int]));
                assert(eps.take(i + 1).drop_last() =~= eps.take(i as int));
                assert(was.take(i + 1).drop_last() =~= was.take(i as int));
                assert(eps.take(i + 1).last() == eps[i as int]);
                assert(entries_after(fleet, eps.take(i + 1), was.take(i + 1)) =~= updated@.push(
                    now_live,
                ));
                assert(updated@.push(now_live).drop_last() =~= updated@);
                assert(any_live(updated@.push(now_live)) == (any_live(updated@) || now_live));
            }
            updated.push(now_live);
            found_live = found_live || now_live;
            i += 1;
        }
        proof {
            assert(eps.take(n as int) =~= eps);
            assert(was.take(n as int) =~= was);
        }
        self.connections = updated;
        if !found_live {
            return Err(SentinelError::NoSentinelReachable);
        }
        Ok(())
    }

    /// Resolve the current primary address of `service_name`: refresh the
    /// sentinel connections, ask each live sentinel in configuration order
    /// for the service's primary address, and return the first candidate
    /// whose node itself confirms the primary role, as a normalized
    /// connection URI. A sentinel whose query fails, that has no opinion,
    /// or whose reply is malformed is skipped; a candidate whose role probe
    /// fails or reports another role is discarded and the sweep continues.
    /// Fails with the connectivity error when no sentinel is reachable (no
    /// query is sent then), and with the resolution error when the sweep
    /// exhausts every live sentinel without a validated candidate; no other
    /// failure crosses this boundary. The sweep itself never alters the
    /// registry: a failed or useless query does not evict a connection.
    pub fn master_for<C: SentinelClient>(&mut self, service_name: &str, client: &mut C) -> (r: Result<
        String,
        SentinelError,
    >)
        requires
            old(self).wf(),
        ensures
            final(self).wf(),
            final(self).initial_sentinels@ == old(self).initial_sentinels@,
            final(self).connections@ == entries_after(
                old(client)@,
                old(self).initial_sentinels@,
                old(self).connections@,
            ),
            final(client)@.reachable == old(client)@.reachable,
            final(client)@.healthy == old(client)@.healthy,
            final(client)@.replies == old(client)@.replies,
            final(client)@.roles == old(client)@.roles,
            final(client)@.connects == old(client)@.connects + fresh_connects(
                old(client)@,
                old(self).initial_sentinels@,
                old(self).connections@,
            ),
            !any_live(final(self).connections@) ==> final(client)@.queries == old(client)@.queries
                && final(client)@.role_probes == old(client)@.role_probes,
            r matches Err(e) ==> e == SentinelError::NoSentinelReachable || e
                == SentinelError::MasterNotFound,
            ({
                let live = entries_after(
                    old(client)@,
                    old(self).initial_sentinels@,
                    old(self).connections@,
                );
                if !any_live(live) {
                    r matches Err(e) && e == SentinelError::NoSentinelReachable
                } else {
                    match sweep_outcome(
                        old(client)@,
                        old(self).initial_sentinels@,
                        live,
                        service_name@,
                        0,
                    ) {
                        Some(uri) => r matches Ok(found) && found@ == uri,
                        None => r matches Err(e) && e == SentinelError::MasterNotFound,
                    }
                }
            }),
    {
        let ghost fleet = old(client)@;
        let ghost eps = old(self).initial_sentinels@;
        match self.connect_all_sentinels(client) {
            Err(e) => {
                return Err(e);
            },
            Ok(_) => {},
        }
        let ghost live = entries_after(fleet, eps, old(self).connections@);
        let n = self.initial_sentinels.len();
        let mut i: usize = 0;
        while i < n
            invariant
                i <= n,
                self.wf(),
                fleet == old(client)@,
                eps == old(self).initial_sentinels@,
                live == entries_after(fleet, eps, old(self).connections@),
                n == self.initial_sentinels@.len(),
                self.initial_sentinels@ == eps,
                self.connections@ == live,
                any_live(live),
                client@.reachable == fleet.reachable,
                client@.healthy == fleet.healthy,
                client@.replies == fleet.replies,
                client@.roles == fleet.roles,
                client@.connects == fleet.connects + fresh_connects(
                    fleet,
                    eps,
                    old(self).connections@,
                ),
                sweep_outcome(fleet, eps, live, service_name@, 0) == sweep_outcome(
                    fleet,
                    eps,
                    live,
                    service_name@,
                    i as int,
                ),
            decreases n - i,
        {
            if self.connections[i] {
                let endpoint = &self.initial_sentinels[i];
                let reply = client.query_master_addr(endpoint, service_name);
                match reply {
                    QueryReply::Addr(host, port) => {
                        let uri = master_addr_uri(&host, &port);
                        let validated = validate_master_role(client, &uri);
                        match validated {
                            Ok(true) => {
                                proof {
                                    assert(confirms_master_spec(fleet.roles[uri@]));
                                    assert(attempt_outcome(fleet, eps[i as int].addr(), service_name@)
                                        == Some(uri@));
                                    assert(sweep_outcome(fleet, eps, live, service_name@, i as int)
                                        == Some(uri@));
                                }
                                return Ok(uri);
                            },
                            Ok(false) => {
                                proof {
                                    assert(!confirms_master_spec(fleet.roles[uri@]));
                                    assert(attempt_outcome(fleet, eps[i as int].addr(), service_name@)
                                        is None);
                                }
                            },
                            Err(_) => {
                                proof {
                                    assert(fleet.roles[uri@] is Failed);
                                    assert(attempt_outcome(fleet, eps[i as int].addr(), service_name@)
                                        is None);
                                }
                            },
                        }
                    },
                    QueryReply::Failed => {
                        proof {
                            assert(candidate_of(fleet.replies[(eps[i as int].addr(), service_name@)])
                                is None);
                        }
                    },
                    QueryReply::Unknown => {
                        proof {
                            assert(candidate_of(fleet.replies[(eps[i as int].addr(), service_name@)])
                                is None);
                        }
                    },
                    QueryReply::Malformed => {
                        proof {
                            assert(candidate_of(fleet.replies[(eps[i as int].addr(), service_name@)])
                                is None);
                        }
                    },
                }
            }
            proof {
                assert(sweep_outcome(fleet, eps, live, service_name@, i as int) == sweep_outcome(
                    fleet,
                    eps,
                    live,
                    service_name@,
                    i + 1,
                ));
            }
            i += 1;
        }
        Err(SentinelError::MasterNotFound)
    }
}

} // verus!
