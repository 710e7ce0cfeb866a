use sentinel::QueryReply;
use sentinel::RoleReply;
use sentinel::Sentinel;
use sentinel::SentinelEndpoint;
use sentinel::SentinelError;
use sentinel::SnapshotClient;
use sentinel::validate_master_role;

const TEST_SERVICE: &str = "my-service";
const MASTER_PORT: u16 = 6998;
const REPLICA_PORT: u16 = 6999;

fn ep(host: &str, port: u16) -> SentinelEndpoint {
    SentinelEndpoint { host: host.to_string(), port, password: None }
}

fn sentinel_endpoints() -> Vec<SentinelEndpoint> {
    vec![ep("127.0.0.1", 26379), ep("127.0.0.1", 26380), ep("127.0.0.1", 26381)]
}

fn sentinel_addrs() -> Vec<(String, u16)> {
    vec![
        ("127.0.0.1".to_string(), 26379),
        ("127.0.0.1".to_string(), 26380),
        ("127.0.0.1".to_string(), 26381),
    ]
}

fn master_reply(port: u16) -> QueryReply {
    QueryReply::Addr("127.0.0.1".to_string(), format!("{}", port))
}

fn replies_all(service: &str, reply_port: u16) -> Vec<(String, u16, String, QueryReply)> {
    sentinel_addrs()
        .into_iter()
        .map(|(host, port)| (host, port, service.to_string(), master_reply(reply_port)))
        .collect()
}

fn master_role_at(port: u16) -> (String, RoleReply) {
    (
        format!("redis://127.0.0.1:{}/", port),
        RoleReply::Roles(vec!["master".to_string(), "replication info".to_string()]),
    )
}

fn replica_role_at(port: u16) -> (String, RoleReply) {
    (
        format!("redis://127.0.0.1:{}/", port),
        RoleReply::Roles(vec!["slave".to_string()]),
    )
}

/// Three reachable sentinels that all report the primary of `my-service`
/// at 127.0.0.1:MASTER_PORT, whose node confirms the primary role.
fn three_sentinel_client() -> SnapshotClient {
    SnapshotClient::new(
        sentinel_addrs(),
        Vec::new(),
        replies_all(TEST_SERVICE, MASTER_PORT),
        vec![master_role_at(MASTER_PORT)],
    )
}

#[test]
fn test_sentinel_get_master_missing_is_error() {
    let mut client = three_sentinel_client();
    let mut s = Sentinel::new(sentinel_endpoints()).unwrap();

    assert!(s.master_for("foo", &mut client).is_err());
}

#[test]
fn test_sentinel_get_master() {
    let mut client = three_sentinel_client();
    let mut s = Sentinel::new(sentinel_endpoints()).unwrap();

    let m = s.master_for(TEST_SERVICE, &mut client).unwrap();
    assert_eq!(m, format!("redis://127.0.0.1:{}/", MASTER_PORT));
}

#[test]
fn test_sentinel_master_updated_on_failover() {
    let mut client = three_sentinel_client();
    let mut s = Sentinel::new(sentinel_endpoints()).unwrap();

    let m = s.master_for(TEST_SERVICE, &mut client).unwrap();
    assert_eq!(m, format!("redis://127.0.0.1:{}/", MASTER_PORT));

    // The primary at MASTER_PORT goes down and the node at REPLICA_PORT is
    // promoted; once the sentinels report the new address and the old node
    // no longer claims the primary role, the same resolver must follow.
    client.replies = replies_all(TEST_SERVICE, REPLICA_PORT);
    client.roles = vec![replica_role_at(MASTER_PORT), master_role_at(REPLICA_PORT)];

    let expected_new_master = format!("redis://127.0.0.1:{}/", REPLICA_PORT);
    let mut got = None;
    for _ in 0..10 {
        if let Ok(m) = s.master_for(TEST_SERVICE, &mut client) {
            if m == expected_new_master {
                got = Some(m);
                break;
            }
        }
    }

    assert_eq!(got.unwrap(), expected_new_master);
}

#[test]
fn unknown_service_reports_resolution_error() {
    let mut client = three_sentinel_client();
    let mut s = Sentinel::new(sentinel_endpoints()).unwrap();

    assert_eq!(
        s.master_for("unknown-service", &mut client),
        Err(SentinelError::MasterNotFound)
    );
}

#[test]
fn unreachable_fleet_reports_connectivity_error() {
    let mut client = SnapshotClient::new(
        Vec::new(),
        Vec::new(),
        replies_all(TEST_SERVICE, MASTER_PORT),
        vec![master_role_at(MASTER_PORT)],
    );
    let mut s = Sentinel::new(sentinel_endpoints()).unwrap();

    assert_eq!(
        s.master_for(TEST_SERVICE, &mut client),
        Err(SentinelError::NoSentinelReachable)
    );
}

#[test]
fn no_configured_sentinels_reports_connectivity_error() {
    let mut client = three_sentinel_client();
    let mut s = Sentinel::new(Vec::new()).unwrap();

    assert_eq!(
        s.master_for(TEST_SERVICE, &mut client),
        Err(SentinelError::NoSentinelReachable)
    );
}

#[test]
fn non_master_node_is_never_returned() {
    // Every sentinel names a node that itself reports the replica role.
    let mut client = SnapshotClient::new(
        sentinel_addrs(),
        Vec::new(),
        replies_all(TEST_SERVICE, REPLICA_PORT),
        vec![replica_role_at(REPLICA_PORT)],
    );
    let mut s = Sentinel::new(sentinel_endpoints()).unwrap();

    assert_eq!(
        s.master_for(TEST_SERVICE, &mut client),
        Err(SentinelError::MasterNotFound)
    );
}

#[test]
fn sweep_passes_over_stale_sentinel_to_validated_candidate() {
    // The first sentinel still names the demoted node; the second names the
    // real primary. The demoted node fails validation, so the sweep must
    // continue and return the second candidate.
    let addrs = sentinel_addrs();
    let replies = vec![
        (addrs[0].0.clone(), addrs[0].1, TEST_SERVICE.to_string(), master_reply(MASTER_PORT)),
        (addrs[1].0.clone(), addrs[1].1, TEST_SERVICE.to_string(), master_reply(REPLICA_PORT)),
        (addrs[2].0.clone(), addrs[2].1, TEST_SERVICE.to_string(), master_reply(REPLICA_PORT)),
    ];
    let mut client = SnapshotClient::new(
        addrs,
        Vec::new(),
        replies,
        vec![replica_role_at(MASTER_PORT), master_role_at(REPLICA_PORT)],
    );
    let mut s = Sentinel::new(sentinel_endpoints()).unwrap();

    let m = s.master_for(TEST_SERVICE, &mut client).unwrap();
    assert_eq!(m, format!("redis://127.0.0.1:{}/", REPLICA_PORT));
}

#[test]
fn failed_and_malformed_replies_are_skipped() {
    let addrs = sentinel_addrs();
    let replies = vec![
        (addrs[0].0.clone(), addrs[0].1, TEST_SERVICE.to_string(), QueryReply::Failed),
        (addrs[1].0.clone(), addrs[1].1, TEST_SERVICE.to_string(), QueryReply::Malformed),
        (addrs[2].0.clone(), addrs[2].1, TEST_SERVICE.to_string(), master_reply(MASTER_PORT)),
    ];
    let mut client = SnapshotClient::new(
        addrs,
        Vec::new(),
        replies,
        vec![master_role_at(MASTER_PORT)],
    );
    let mut s = Sentinel::new(sentinel_endpoints()).unwrap();

    let m = s.master_for(TEST_SERVICE, &mut client).unwrap();
    assert_eq!(m, format!("redis://127.0.0.1:{}/", MASTER_PORT));
}

#[test]
fn healthy_connection_is_reused_not_reestablished() {
    let mut client = three_sentinel_client();
    let mut s = Sentinel::new(sentinel_endpoints()).unwrap();
    assert!(s.master_for(TEST_SERVICE, &mut client).is_ok());

    // The network now refuses every fresh connection, but the connections
    // opened by the first call still pass their health checks. A resolver
    // that reuses them keeps working; one that reconnected would find no
    // sentinel at all.
    client.reachable = Vec::new();
    client.healthy = sentinel_addrs();

    let m = s.master_for(TEST_SERVICE, &mut client).unwrap();
    assert_eq!(m, format!("redis://127.0.0.1:{}/", MASTER_PORT));

    // A freshly built resolver has no connection to reuse and must fail,
    // which shows the call above cannot have re-established its own.
    let mut fresh = Sentinel::new(sentinel_endpoints()).unwrap();
    assert_eq!(
        fresh.master_for(TEST_SERVICE, &mut client),
        Err(SentinelError::NoSentinelReachable)
    );
}

#[test]
fn duplicate_endpoints_are_harmless() {
    let mut client = three_sentinel_client();
    let mut s = Sentinel::new(vec![
        ep("127.0.0.1", 26379),
        ep("127.0.0.1", 26379),
        ep("127.0.0.1", 26380),
    ])
    .unwrap();

    let m = s.master_for(TEST_SERVICE, &mut client).unwrap();
    assert_eq!(m, format!("redis://127.0.0.1:{}/", MASTER_PORT));
}
