use ephemerish::auth::{check, Credential, UserKeys};
use ephemerish::connection::{Auth, Handler};
use ephemerish::server::{Server, DEFAULT_GRACE_MS};
use ephemerish::session::{RemovalOutcome, UserState};

fn key(bytes: &[u8]) -> Credential {
    Credential::new(bytes.to_vec())
}

fn alice_server(grace: u64) -> Server {
    let users = vec![
        UserKeys::new("alice".to_string(), vec![key(b"K1")]),
        UserKeys::new("bob".to_string(), vec![key(b"B1"), key(b"B2")]),
    ];
    Server::new(users, grace)
}

#[test]
fn fresh_user_has_no_activity() {
    let server = alice_server(DEFAULT_GRACE_MS);
    assert_eq!(server.connection_count(Some("alice")), 0);
    assert_eq!(server.connection_count(Some("nobody")), 0);
    assert_eq!(server.connection_count(None), 0);
    assert_eq!(server.expiration_time("alice"), None);
    assert_eq!(server.expiration_time("nobody"), None);
    assert!(!server.expiration_due("alice", u64::MAX));
}

#[test]
fn acquire_then_release_records_closure() {
    let mut server = alice_server(1000);
    assert!(server.acquire("alice"));
    assert_eq!(server.connection_count(Some("alice")), 1);
    assert!(server.release("alice", 500));
    assert_eq!(server.connection_count(Some("alice")), 0);
    assert_eq!(server.expiration_time("alice"), Some(1500));
}

#[test]
fn release_without_token_changes_nothing() {
    let mut server = alice_server(1000);
    assert!(!server.release("alice", 10));
    assert_eq!(server.connection_count(Some("alice")), 0);
    assert_eq!(server.expiration_time("alice"), None);
    assert!(!server.acquire("nobody"));
    assert!(!server.release("nobody", 10));
    assert_eq!(server.connection_count(None), 0);
}

#[test]
fn live_session_blocks_expiration() {
    let mut server = alice_server(1000);
    assert!(server.acquire("alice"));
    assert!(server.acquire("alice"));
    assert!(!server.release("alice", 100));
    assert_eq!(server.expiration_time("alice"), None);
    assert!(!server.expiration_due("alice", 100));
    assert!(!server.expiration_due("alice", u64::MAX));
    assert!(server.set_container("alice", "c-1".to_string()));
    assert_eq!(server.expire_user("alice", false, u64::MAX), None);
}

#[test]
fn grace_boundary() {
    let t: u64 = 10_000;
    let g: u64 = 3_000;
    let mut server = alice_server(g);
    assert!(server.acquire("alice"));
    assert!(server.release("alice", t));
    assert!(!server.expiration_due("alice", t + g - 1));
    assert!(server.expiration_due("alice", t + g));
    assert!(server.expiration_due("alice", t + g + 1));
    assert_eq!(server.expiration_time("alice"), Some(t + g));
}

#[test]
fn expiration_time_saturates() {
    let mut s = UserState::new();
    s.acquire();
    assert!(s.release(u64::MAX - 5));
    assert_eq!(s.expiration_time(10), Some(u64::MAX));
    assert!(!s.expiration_due(10, u64::MAX - 1));
}

#[test]
fn no_closure_never_expires() {
    let mut server = alice_server(0);
    assert!(server.set_container("alice", "c-1".to_string()));
    assert!(!server.expiration_due("alice", u64::MAX));
    assert_eq!(server.expire_user("alice", false, u64::MAX), None);
}

#[test]
fn forced_reclaim_twice_is_noop() {
    let mut server = alice_server(DEFAULT_GRACE_MS);
    assert!(server.set_container("alice", "c-1".to_string()));
    assert_eq!(server.expire_user("alice", true, 0), Some("c-1".to_string()));
    server.finish_expire("alice", RemovalOutcome::Removed);
    assert_eq!(server.expire_user("alice", true, 1), None);
    server.finish_expire("alice", RemovalOutcome::NotFound);
    assert_eq!(server.expire_user("alice", true, 2), None);
}

#[test]
fn not_found_counts_as_removed() {
    let mut server = alice_server(DEFAULT_GRACE_MS);
    assert!(server.set_container("alice", "c-1".to_string()));
    assert_eq!(server.expire_user("alice", true, 0), Some("c-1".to_string()));
    server.finish_expire("alice", RemovalOutcome::NotFound);
    assert_eq!(server.expire_user("alice", true, 1), None);
}

#[test]
fn failed_removal_keeps_record_for_retry() {
    let mut server = alice_server(DEFAULT_GRACE_MS);
    assert!(server.set_container("alice", "c-1".to_string()));
    assert_eq!(server.expire_user("alice", true, 0), Some("c-1".to_string()));
    server.finish_expire("alice", RemovalOutcome::Failed);
    assert_eq!(server.expire_user("alice", true, 1), Some("c-1".to_string()));
}

#[test]
fn overlapping_reclaims_remove_once() {
    let mut server = alice_server(DEFAULT_GRACE_MS);
    assert!(server.set_container("alice", "c-1".to_string()));
    assert_eq!(server.expire_user("alice", true, 0), Some("c-1".to_string()));
    assert_eq!(server.expire_user("alice", true, 0), None);
    server.finish_expire("alice", RemovalOutcome::Removed);
    assert_eq!(server.expire_user("alice", true, 0), None);
}

#[test]
fn reclaim_without_container_is_noop() {
    let mut server = alice_server(0);
    assert_eq!(server.expire_user("alice", true, 0), None);
    assert_eq!(server.expire_user("nobody", true, 0), None);
}

#[test]
fn thousand_pairs_balance() {
    let mut server = alice_server(1000);
    for i in 0..1000u64 {
        assert!(server.acquire("alice"));
        if i % 2 == 1 {
            assert!(!server.release("alice", i));
        }
    }
    assert_eq!(server.connection_count(Some("alice")), 500);
    let mut zeros = 0;
    for i in 0..500u64 {
        if server.release("alice", 2000 + i) {
            zeros += 1;
        }
    }
    assert_eq!(zeros, 1);
    assert_eq!(server.connection_count(Some("alice")), 0);
    assert_eq!(server.expiration_time("alice"), Some(2499 + 1000));
    assert!(!server.release("alice", 5000));
    assert_eq!(server.connection_count(Some("alice")), 0);
}

#[test]
fn check_is_exact() {
    let users = vec![UserKeys::new("alice".to_string(), vec![key(b"K1")])];
    assert!(check(&users, "alice", &key(b"K1")));
    assert!(!check(&users, "alice", &key(b"K2")));
    assert!(!check(&users, "alice", &key(b"K")));
    assert!(!check(&users, "alice", &key(b"K1x")));
    assert!(!check(&users, "alic", &key(b"K1")));
    assert!(!check(&users, "mallory", &key(b"K1")));
    assert!(!check(&users, "alice", &key(b"")));
    let server = alice_server(0);
    assert!(server.check_key("bob", &key(b"B2")));
    assert!(!server.check_key("bob", &key(b"K1")));
}

#[test]
fn credential_equality() {
    assert!(key(b"abc").same(&key(b"abc")));
    assert!(!key(b"abc").same(&key(b"abd")));
    assert!(!key(b"abc").same(&key(b"ab")));
}

#[test]
fn connection_takes_one_token() {
    let mut server = alice_server(0);
    let mut conn = Handler::new();
    assert_eq!(conn.auth_publickey(&mut server, "alice", &key(b"K1")), Auth::Accept);
    assert!(conn.is_authenticated());
    assert_eq!(conn.auth_publickey(&mut server, "alice", &key(b"K1")), Auth::Reject);
    assert_eq!(server.connection_count(Some("alice")), 1);
    conn.disconnected(&mut server, 7);
    conn.disconnected(&mut server, 8);
    assert_eq!(server.connection_count(Some("alice")), 0);
    assert_eq!(server.expiration_time("alice"), Some(7));
    assert_eq!(conn.auth_publickey(&mut server, "alice", &key(b"K1")), Auth::Reject);
}

#[test]
fn rejected_connection_releases_nothing() {
    let mut server = alice_server(0);
    let mut other = Handler::new();
    assert_eq!(other.auth_publickey(&mut server, "alice", &key(b"K1")), Auth::Accept);
    let mut conn = Handler::new();
    assert_eq!(conn.auth_publickey(&mut server, "alice", &key(b"bad")), Auth::Reject);
    assert_eq!(conn.auth_publickey(&mut server, "nobody", &key(b"K1")), Auth::Reject);
    assert!(!conn.is_authenticated());
    conn.disconnected(&mut server, 3);
    assert_eq!(server.connection_count(Some("alice")), 1);
    assert_eq!(server.expiration_time("alice"), None);
}

#[test]
fn alice_two_connections() {
    let grace: u64 = 60_000;
    let mut server = alice_server(grace);
    assert!(server.set_container("alice", "alice-env".to_string()));
    let mut a = Handler::new();
    let mut b = Handler::new();
    assert_eq!(a.auth_publickey(&mut server, "alice", &key(b"K1")), Auth::Accept);
    assert_eq!(server.connection_count(Some("alice")), 1);
    assert_eq!(b.auth_publickey(&mut server, "alice", &key(b"K1")), Auth::Accept);
    assert_eq!(server.connection_count(Some("alice")), 2);
    assert_eq!(server.connection_count(None), 2);
    a.disconnected(&mut server, 1_000);
    assert_eq!(server.expiration_time("alice"), None);
    b.disconnected(&mut server, 2_000);
    assert_eq!(server.connection_count(Some("alice")), 0);
    assert_eq!(server.expiration_time("alice"), Some(2_000 + grace));
    assert_eq!(server.expire_user("alice", false, 2_000 + grace - 1), None);
    assert_eq!(
        server.expire_user("alice", false, 2_000 + grace),
        Some("alice-env".to_string())
    );
    server.finish_expire("alice", RemovalOutcome::Removed);
    assert_eq!(server.expire_user("alice", true, 2_000 + grace), None);
}

#[test]
fn total_counts_all_users() {
    let mut server = alice_server(0);
    assert!(server.acquire("alice"));
    assert!(server.acquire("bob"));
    assert!(server.acquire("bob"));
    assert_eq!(server.connection_count(None), 3);
    assert_eq!(server.connection_count(Some("bob")), 2);
}
