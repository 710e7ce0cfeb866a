use sentinel::QueryReply;
use sentinel::RoleReply;
use sentinel::Sentinel;
use sentinel::SentinelEndpoint;
use sentinel::SentinelError;
use sentinel::SnapshotClient;
use sentinel::resolver::master_addr_uri;
use sentinel::resolver::role_confirms_master;
use sentinel::validate_master_role;

fn ep(host: &str, port: u16) -> SentinelEndpoint {
    SentinelEndpoint { host: host.to_string(), port, password: None }
}

#[test]
fn master_addr_uri_is_normalized() {
    let uri = master_addr_uri(&"10.0.0.1".to_string(), &"6379".to_string());
    assert_eq!(uri, "redis://10.0.0.1:6379/");
}

#[test]
fn role_confirms_master_requires_first_element_master() {
    assert!(role_confirms_master(&vec!["master".to_string()]));
    assert!(role_confirms_master(&vec!["master".to_string(), "extra".to_string()]));
    assert!(!role_confirms_master(&vec!["slave".to_string(), "master".to_string()]));
    assert!(!role_confirms_master(&vec!["Master".to_string()]));
    assert!(!role_confirms_master(&Vec::new()));
}

#[test]
fn validate_master_role_confirms_primary() {
    let uri = "redis://127.0.0.1:6998/".to_string();
    let mut client = SnapshotClient::new(
        Vec::new(),
        Vec::new(),
        Vec::new(),
        vec![(uri.clone(), RoleReply::Roles(vec!["master".to_string()]))],
    );
    assert_eq!(validate_master_role(&mut client, &uri), Ok(true));
}

#[test]
fn validate_master_role_rejects_replica() {
    let uri = "redis://127.0.0.1:6999/".to_string();
    let mut client = SnapshotClient::new(
        Vec::new(),
        Vec::new(),
        Vec::new(),
        vec![(uri.clone(), RoleReply::Roles(vec!["slave".to_string()]))],
    );
    assert_eq!(validate_master_role(&mut client, &uri), Ok(false));
}

#[test]
fn validate_master_role_surfaces_probe_failure() {
    let uri = "redis://127.0.0.1:7000/".to_string();
    let mut client = SnapshotClient::new(Vec::new(), Vec::new(), Vec::new(), Vec::new());
    assert_eq!(
        validate_master_role(&mut client, &uri),
        Err(SentinelError::RoleQueryFailed)
    );
}

#[test]
fn empty_role_reply_is_not_validated() {
    let mut client = SnapshotClient::new(
        vec![("127.0.0.1".to_string(), 26379)],
        Vec::new(),
        vec![(
            "127.0.0.1".to_string(),
            26379,
            "svc".to_string(),
            QueryReply::Addr("127.0.0.1".to_string(), "6998".to_string()),
        )],
        vec![("redis://127.0.0.1:6998/".to_string(), RoleReply::Roles(Vec::new()))],
    );
    let mut s = Sentinel::new(vec![ep("127.0.0.1", 26379)]).unwrap();
    assert_eq!(s.master_for("svc", &mut client), Err(SentinelError::MasterNotFound));
}

#[test]
fn new_rejects_empty_host() {
    let r = Sentinel::new(vec![ep("127.0.0.1", 26379), ep("", 26380)]);
    assert!(matches!(r, Err(SentinelError::InvalidEndpoint)));
}

#[test]
fn new_keeps_endpoints_in_order() {
    let s = Sentinel::new(vec![ep("a", 1), ep("b", 2)]).unwrap();
    assert_eq!(s.initial_sentinels.len(), 2);
    assert_eq!(s.initial_sentinels[0].host, "a");
    assert_eq!(s.initial_sentinels[0].port, 1);
    assert_eq!(s.initial_sentinels[1].host, "b");
    assert_eq!(s.initial_sentinels[1].port, 2);
    assert_eq!(s.connections, vec![false, false]);
}

#[test]
fn reply_duplicate_preserves_contents() {
    let r = QueryReply::Addr("h".to_string(), "1".to_string());
    match r.duplicate() {
        QueryReply::Addr(h, p) => {
            assert_eq!(h, "h");
            assert_eq!(p, "1");
        }
        _ => panic!("wrong variant"),
    }
}
