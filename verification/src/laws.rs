//! The laws of the resolution model, proved for every fleet observation.
//!
//! `Sentinel::master_for`'s contract pins its result to the spec functions
//! of [`crate::model`]; the proof functions here state what those functions
//! guarantee, so each law below holds of every resolution call, whatever
//! the fleet answers.

use vstd::prelude::*;

use crate::client::FleetView;
use crate::endpoint::SentinelEndpoint;
use crate::model::any_live;
use crate::model::attempt_outcome;
use crate::model::candidate_of;
use crate::model::confirms_master_spec;
use crate::model::entries_after;
use crate::model::entry_after;
use crate::model::entry_fresh_connect;
use crate::model::fresh_connects;
use crate::model::master_uri_spec;
use crate::model::sweep_outcome;
use crate::reply::QueryReplySpec;

verus! {

/// A registry has a live entry exactly when some position of it is live.
pub proof fn lemma_any_live_iff_exists(live: Seq<bool>)
    ensures
        any_live(live) <==> exists|i: int| 0 <= i < live.len() && live[i],
    decreases live.len(),
{
    if live.len() > 0 {
        lemma_any_live_iff_exists(live.drop_last());
        if any_live(live) {
            if live.last() {
                assert(live[live.len() - 1]);
            } else {
                let i = choose|i: int| 0 <= i < live.drop_last().len() && live.drop_last()[i];
                assert(live[i]);
            }
        }
        if exists|i: int| 0 <= i < live.len() && live[i] {
            let i = choose|i: int| 0 <= i < live.len() && live[i];
            if i < live.len() - 1 {
                assert(live.drop_last()[i]);
            }
        }
    }
}

/// If every configured endpoint is unreachable and no cached connection is
/// healthy, the refreshed registry holds no live entry at all. By
/// `Sentinel::master_for`'s contract, such a call reports the connectivity
/// error and sends not a single query.
pub proof fn lemma_unreachable_fleet_yields_no_connection(
    fleet: FleetView,
    endpoints: Seq<SentinelEndpoint>,
    was_live: Seq<bool>,
)
    requires
        forall|j: int|
            0 <= j < endpoints.len() ==> !fleet.reachable.contains((#[trigger] endpoints[j]).addr())
                && (!was_live[j] || !fleet.healthy.contains(endpoints[j].addr())),
    ensures
        !any_live(entries_after(fleet, endpoints, was_live)),
{
    let live = entries_after(fleet, endpoints, was_live);
    lemma_any_live_iff_exists(live);
    assert forall|i: int| 0 <= i < live.len() implies !live[i] by {
        assert(!entry_after(fleet, endpoints[i], was_live[i]));
    }
}

/// No endpoint whose refresh step keeps its cached connection causes a
/// fresh connect attempt.
proof fn lemma_no_fresh_connects(fleet: FleetView, endpoints: Seq<SentinelEndpoint>, was_live: Seq<bool>)
    requires
        endpoints.len() == was_live.len(),
        forall|j: int|
            0 <= j < endpoints.len() ==> !(#[trigger] entry_fresh_connect(
                fleet,
                endpoints[j],
                was_live[j],
            )),
    ensures
        fresh_connects(fleet, endpoints, was_live) == 0,
    decreases endpoints.len(),
{
    if endpoints.len() > 0 {
        let shorter = endpoints.drop_last();
        let shorter_was = was_live.drop_last();
        assert forall|j: int|
            0 <= j < shorter.len() implies !(#[trigger] entry_fresh_connect(
            fleet,
            shorter[j],
            shorter_was[j],
        )) by {
            assert(shorter[j] == endpoints[j]);
            assert(shorter_was[j] == was_live[j]);
            assert(!entry_fresh_connect(fleet, endpoints[j], was_live[j]));
        }
        lemma_no_fresh_connects(fleet, shorter, shorter_was);
        assert(endpoints.last() == endpoints[endpoints.len() - 1]);
        assert(!entry_fresh_connect(fleet, endpoints[endpoints.len() - 1], was_live[endpoints.len()
            - 1]));
    }
}

/// A connection that is still healthy is reused: if every configured
/// endpoint holds a cached connection that passes its health check, the
/// refresh makes no fresh connect attempt and leaves the registry as it
/// was. By `Sentinel::master_for`'s contract, the client's connect counter
/// does not move over such a call.
pub proof fn lemma_healthy_connections_reused(
    fleet: FleetView,
    endpoints: Seq<SentinelEndpoint>,
    was_live: Seq<bool>,
)
    requires
        endpoints.len() == was_live.len(),
        forall|j: int|
            0 <= j < endpoints.len() ==> was_live[j] && fleet.healthy.contains(
                #[trigger] endpoints[j].addr(),
            ),
    ensures
        fresh_connects(fleet, endpoints, was_live) == 0,
        entries_after(fleet, endpoints, was_live) == was_live,
{
    assert forall|j: int|
        0 <= j < endpoints.len() implies !(#[trigger] entry_fresh_connect(
        fleet,
        endpoints[j],
        was_live[j],
    )) by {
        assert(fleet.healthy.contains(endpoints[j].addr()));
        assert(was_live[j]);
    }
    lemma_no_fresh_connects(fleet, endpoints, was_live);
    assert(entries_after(fleet, endpoints, was_live) =~= was_live);
}

/// A service for which no sentinel hands out a usable primary address — in
/// particular one unknown to every sentinel — makes the sweep come up
/// empty. By `Sentinel::master_for`'s contract, such a call (with at least
/// one sentinel reachable) reports the resolution error.
pub proof fn lemma_unknown_service_not_found(
    fleet: FleetView,
    endpoints: Seq<SentinelEndpoint>,
    live: Seq<bool>,
    service: Seq<char>,
    i: int,
)
    requires
        forall|j: int|
            0 <= j < endpoints.len() ==> candidate_of(
                fleet.replies[((#[trigger] endpoints[j]).addr(), service)],
            ) is None,
    ensures
        sweep_outcome(fleet, endpoints, live, service, i) is None,
    decreases endpoints.len() - i,
{
    if 0 <= i < endpoints.len() {
        assert(attempt_outcome(fleet, endpoints[i].addr(), service) is None);
        lemma_unknown_service_not_found(fleet, endpoints, live, service, i + 1);
    }
}

/// Whatever the sweep returns was validated: the returned URI was built
/// from a (host, port) pair that some live sentinel reported for the
/// service, and the node behind that URI itself confirmed the primary
/// role.
pub proof fn lemma_result_is_validated(
    fleet: FleetView,
    endpoints: Seq<SentinelEndpoint>,
    live: Seq<bool>,
    service: Seq<char>,
    i: int,
    uri: Seq<char>,
)
    requires
        sweep_outcome(fleet, endpoints, live, service, i) == Some(uri),
    ensures
        confirms_master_spec(fleet.roles[uri]),
        exists|j: int, host: Seq<char>, port: Seq<char>|
            #![auto]
            i <= j < endpoints.len() && live[j] && fleet.replies[(endpoints[j].addr(), service)]
                == QueryReplySpec::Addr(host, port) && uri == master_uri_spec(host, port),
    decreases endpoints.len() - i,
{
    if i < 0 || i >= endpoints.len() {
        assert(false);
    } else if live[i] && attempt_outcome(fleet, endpoints[i].addr(), service) is Some {
        let reply = fleet.replies[(endpoints[i].addr(), service)];
        match candidate_of(reply) {
            Some(pair) => {
                assert(reply == QueryReplySpec::Addr(pair.0, pair.1));
                assert(uri == master_uri_spec(pair.0, pair.1));
            },
            None => {
                assert(false);
            },
        }
    } else {
        lemma_result_is_validated(fleet, endpoints, live, service, i + 1, uri);
    }
}

/// A node that reports a non-primary role for its address is never
/// returned, no matter which sentinels name it.
pub proof fn lemma_non_master_never_returned(
    fleet: FleetView,
    endpoints: Seq<SentinelEndpoint>,
    live: Seq<bool>,
    service: Seq<char>,
    uri: Seq<char>,
)
    requires
        !confirms_master_spec(fleet.roles[uri]),
    ensures
        sweep_outcome(fleet, endpoints, live, service, 0) != Some(uri),
{
    if sweep_outcome(fleet, endpoints, live, service, 0) == Some(uri) {
        lemma_result_is_validated(fleet, endpoints, live, service, 0, uri);
    }
}

/// Starting anywhere at or before a live sentinel whose reported candidate
/// validates, the sweep succeeds.
proof fn lemma_sweep_succeeds_from(
    fleet: FleetView,
    endpoints: Seq<SentinelEndpoint>,
    live: Seq<bool>,
    service: Seq<char>,
    i: int,
    j: int,
)
    requires
        0 <= i <= j < endpoints.len(),
        live[j],
        attempt_outcome(fleet, endpoints[j].addr(), service) is Some,
    ensures
        sweep_outcome(fleet, endpoints, live, service, i) is Some,
    decreases j - i,
{
    if i < j && !(live[i] && attempt_outcome(fleet, endpoints[i].addr(), service) is Some) {
        lemma_sweep_succeeds_from(fleet, endpoints, live, service, i + 1, j);
    }
}

/// If at least one live sentinel reports an address whose node confirms
/// the primary role, the sweep returns an address — and, with
/// `lemma_result_is_validated`, what it returns is itself a reported and
/// confirmed address of the form `redis://host:port/`.
pub proof fn lemma_validated_candidate_resolves(
    fleet: FleetView,
    endpoints: Seq<SentinelEndpoint>,
    live: Seq<bool>,
    service: Seq<char>,
    j: int,
)
    requires
        0 <= j < endpoints.len(),
        live[j],
        attempt_outcome(fleet, endpoints[j].addr(), service) is Some,
    ensures
        sweep_outcome(fleet, endpoints, live, service, 0) is Some,
{
    lemma_sweep_succeeds_from(fleet, endpoints, live, service, 0, j);
}

/// Resolution is a function of the observation alone, not of the
/// resolver's history: after a failover, as soon as the fleet's answers
/// name the new primary — some usable endpoint reports an address whose
/// node confirms the role — the very next call resolves, whatever the
/// registry held before. The resolver never needs to be rebuilt to observe
/// a failover.
pub proof fn lemma_failover_eventually_observed(
    fleet: FleetView,
    endpoints: Seq<SentinelEndpoint>,
    was_live: Seq<bool>,
    service: Seq<char>,
    j: int,
)
    requires
        endpoints.len() == was_live.len(),
        0 <= j < endpoints.len(),
        fleet.reachable.contains(endpoints[j].addr()) || (was_live[j] && fleet.healthy.contains(
            endpoints[j].addr(),
        )),
        attempt_outcome(fleet, endpoints[j].addr(), service) is Some,
    ensures
        any_live(entries_after(fleet, endpoints, was_live)),
        sweep_outcome(
            fleet,
            endpoints,
            entries_after(fleet, endpoints, was_live),
            service,
            0,
        ) is Some,
{
    let live = entries_after(fleet, endpoints, was_live);
    assert(live[j]) by {
        assert(entry_after(fleet, endpoints[j], was_live[j]));
    }
    lemma_any_live_iff_exists(live);
    lemma_validated_candidate_resolves(fleet, endpoints, live, service, j);
}


} // verus!
