//! A wire-protocol client that answers from a fixed table.
//!
//! `SnapshotClient` implements [`crate::client::SentinelClient`] entirely in
//! this crate, with every contract proved: its fleet observation is spelled
//! out as plain data, and each method answers by looking its question up.
//! It is the reference implementation of the collaborator interface and the
//! test double the crate's tests drive the resolver with.

use vstd::prelude::*;

use vstd::string::StringExecFns;

use crate::client::FleetView;
use crate::client::SentinelClient;
use crate::endpoint::SentinelEndpoint;
use crate::reply::QueryReply;
use crate::reply::QueryReplySpec;
use crate::reply::RoleReply;
use crate::reply::RoleReplySpec;

verus! {

/// A fleet observation as plain data. Lookups take the first matching
/// entry; an address pair absent from `reachable` or `healthy` is
/// unreachable or stale, a (sentinel, service) pair without an entry in
/// `replies` answers the empty marker, and a URI without an entry in
/// `roles` cannot be probed.
pub struct SnapshotClient {
    /// Address pairs at which a fresh sentinel connection attempt succeeds.
    pub reachable: Vec<(String, u16)>,
    /// Address pairs whose cached connection passes a health check.
    pub healthy: Vec<(String, u16)>,
    /// Per sentinel address pair and service name: the sentinel's answer.
    pub replies: Vec<(String, u16, String, QueryReply)>,
    /// Per connection URI: the role reply of the node behind it.
    pub roles: Vec<(String, RoleReply)>,
    /// Sentinel connection attempts made so far.
    pub connect_attempts: Ghost<nat>,
    /// Primary-address queries sent so far.
    pub query_count: Ghost<nat>,
    /// Role probes made so far.
    pub role_probe_count: Ghost<nat>,
}

/// The set of address pairs a table of addresses denotes.
pub open spec fn addr_table(entries: Seq<(String, u16)>) -> Set<(Seq<char>, u16)> {
    Set::new(|a: (Seq<char>, u16)| exists|i: int|
        0 <= i < entries.len() && ((#[trigger] entries[i]).0@, entries[i].1) == a)
}

/// First-match lookup of a sentinel's answer about a service; a pair
/// without an entry answers the empty marker.
pub open spec fn reply_table(
    entries: Seq<(String, u16, String, QueryReply)>,
    addr: (Seq<char>, u16),
    service: Seq<char>,
) -> QueryReplySpec
    decreases entries.len(),
{
    if entries.len() == 0 {
        QueryReplySpec::Unknown
    } else if entries[0].0@ == addr.0 && entries[0].1 == addr.1 && entries[0].2@ == service {
        entries[0].3@
    } else {
        reply_table(entries.drop_first(), addr, service)
    }
}

/// First-match lookup of the role reply behind a connection URI; a URI
/// without an entry cannot be probed and fails.
pub open spec fn role_table(entries: Seq<(String, RoleReply)>, uri: Seq<char>) -> RoleReplySpec
    decreases entries.len(),
{
    if entries.len() == 0 {
        RoleReplySpec::Failed
    } else if entries[0].0@ == uri {
        entries[0].1@
    } else {
        role_table(entries.drop_first(), uri)
    }
}

impl View for SnapshotClient {
    type V = FleetView;

    open spec fn view(&self) -> FleetView {
        FleetView {
            reachable: addr_table(self.reachable@),
            healthy: addr_table(self.healthy@),
            replies: Map::total(|k: ((Seq<char>, u16), Seq<char>)| reply_table(self.replies@, k.0, k.1)),
            roles: Map::total(|k: Seq<char>| role_table(self.roles@, k)),
            connects: self.connect_attempts@,
            queries: self.query_count@,
            role_probes: self.role_probe_count@,
        }
    }
}

impl SnapshotClient {
    /// A client over the given observation, with all work counters at zero.
    pub fn new(
        reachable: Vec<(String, u16)>,
        healthy: Vec<(String, u16)>,
        replies: Vec<(String, u16, String, QueryReply)>,
        roles: Vec<(String, RoleReply)>,
    ) -> (r: SnapshotClient)
        ensures
            r.reachable == reachable,
            r.healthy == healthy,
            r.replies == replies,
            r.roles == roles,
            r@.connects == 0,
            r@.queries == 0,
            r@.role_probes == 0,
    {
        SnapshotClient {
            reachable,
            healthy,
            replies,
            roles,
            connect_attempts: Ghost(0),
            query_count: Ghost(0),
            role_probe_count: Ghost(0),
        }
    }
}

/// Whether a table of address pairs holds the pair (host, port).
fn table_contains_addr(entries: &Vec<(String, u16)>, host: &String, port: u16) -> (r: bool)
    ensures
        r == addr_table(entries@).contains((host@, port)),
{
    let n = entries.len();
    let mut i: usize = 0;
    while i < n
        invariant
            i <= n,
            n == entries@.len(),
            forall|j: int| 0 <= j < i ==> ((#[trigger] entries@[j]).0@, entries@[j].1) != (host@, port),
        decreases n - i,
    {
        let e = &entries[i];
        if e.0 == *host && e.1 == port {
            proof {
                assert(((entries@[i as int]).0@, entries@[i as int].1) == (host@, port));
                assert(addr_table(entries@).contains((host@, port)));
            }
            return true;
        }
        i += 1;
    }
    proof {
        assert(!addr_table(entries@).contains((host@, port)));
    }
    false
}

/// First-match lookup of a sentinel's answer, as executable code.
fn lookup_reply(
    entries: &Vec<(String, u16, String, QueryReply)>,
    host: &String,
    port: u16,
    service: &str,
) -> (r: QueryReply)
    ensures
        r@ == reply_table(entries@, (host@, port), service@),
{
    let service_text = String::from_str(service);
    let n = entries.len();
    let mut i: usize = 0;
    proof {
        assert(entries@.skip(0) =~= entries@);
    }
    while i < n
        invariant
            i <= n,
            n == entries@.len(),
            service_text@ == service@,
            reply_table(entries@, (host@, port), service@) == reply_table(
                entries@.skip(i as int),
                (host@, port),
                service@,
            ),
        decreases n - i,
    {
        let e = &entries[i];
        proof {
            assert(entries@.skip(i as int)[0] == entries@[i as int]);
        }
        if e.0 == *host && e.1 == port && e.2 == service_text {
            return e.3.duplicate();
        }
        proof {
            assert(entries@.skip(i as int).drop_first() =~= entries@.skip(i as int + 1));
        }
        i += 1;
    }
    proof {
        assert(entries@.skip(n as int).len() == 0);
    }
    QueryReply::Unknown
}

/// First-match lookup of the role reply behind a URI, as executable code.
fn lookup_role(entries: &Vec<(String, RoleReply)>, uri: &String) -> (r: RoleReply)
    ensures
        r@ == role_table(entries@, uri@),
{
    let n = entries.len();
    let mut i: usize = 0;
    proof {
        assert(entries@.skip(0) =~= entries@);
    }
    while i < n
        invariant
            i <= n,
            n == entries@.len(),
            role_table(entries@, uri@) == role_table(entries@.skip(i as int), uri@),
        decreases n - i,
    {
        let e = &entries[i];
        proof {
            assert(entries@.skip(i as int)[0] == entries@[i as int]);
        }
        if e.0 == *uri {
            return e.1.duplicate();
        }
        proof {
            assert(entries@.skip(i as int).drop_first() =~= entries@.skip(i as int + 1));
        }
        i += 1;
    }
    proof {
        assert(entries@.skip(n as int).len() == 0);
    }
    RoleReply::Failed
}

impl SentinelClient for SnapshotClient {
    fn connect_sentinel(&mut self, endpoint: &SentinelEndpoint, _connect_timeout_ms: u64) -> (r:
        bool) {
        let r = table_contains_addr(&self.reachable, &endpoint.host, endpoint.port);
        self.connect_attempts = Ghost(self.connect_attempts@ + 1);
        proof {
            assert(self@.reachable =~= old(self)@.reachable);
            assert(self@.healthy =~= old(self)@.healthy);
            assert(self@.replies =~= old(self)@.replies);
            assert(self@.roles =~= old(self)@.roles);
        }
        r
    }

    fn check_connection(&mut self, endpoint: &SentinelEndpoint) -> (r: bool) {
        table_contains_addr(&self.healthy, &endpoint.host, endpoint.port)
    }

    fn query_master_addr(&mut self, endpoint: &SentinelEndpoint, service_name: &str) -> (r:
        QueryReply) {
        let r = lookup_reply(&self.replies, &endpoint.host, endpoint.port, service_name);
        self.query_count = Ghost(self.query_count@ + 1);
        proof {
            assert(self@.reachable =~= old(self)@.reachable);
            assert(self@.healthy =~= old(self)@.healthy);
            assert(self@.replies =~= old(self)@.replies);
            assert(self@.roles =~= old(self)@.roles);
        }
        r
    }

    fn query_role(&mut self, master_addr: &String, _connect_timeout_ms: u64) -> (r: RoleReply) {
        let r = lookup_role(&self.roles, master_addr);
        self.role_probe_count = Ghost(self.role_probe_count@ + 1);
        proof {
            assert(self@.reachable =~= old(self)@.reachable);
            assert(self@.healthy =~= old(self)@.healthy);
            assert(self@.replies =~= old(self)@.replies);
            assert(self@.roles =~= old(self)@.roles);
        }
        r
    }
}

} // verus!
