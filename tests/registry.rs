use hnet_server::bytes::{bytes_eq, copy_bytes};
use hnet_server::manager::{SendError, SessionManager};
use hnet_server::packet::Packet;
use hnet_server::session::Session;

#[test]
fn gate_allows_only_listed_packets_before_login() {
    let mut m = SessionManager::new();
    m.add_session(b"tmp".to_vec(), Session::new(b"tmp".to_vec(), 3, 0));
    let allowed = vec![
        Packet::Challenge { challenge: vec![0; 32] },
        Packet::LoginResponse { success: true, profile_exists: false },
        Packet::MessageDelivered { success: true },
        Packet::ProfileUpdated { success: true },
        Packet::MessageReceived { sender_pubkey: vec![], sender_enc_pubkey: vec![], encrypted_content: vec![] },
        Packet::Ping,
        Packet::Pong,
        Packet::SearchUser { query: String::new() },
        Packet::UserFound { public_key: vec![], encryption_pubkey: vec![], username: None, first_name: String::new(), last_name: None },
        Packet::UserNotFound,
    ];
    for p in &allowed {
        assert!(!p.requires_auth());
        assert_eq!(m.send_to_user(b"tmp", p), Ok(3));
    }
    let gated = vec![
        Packet::GetChallenge { public_key: vec![] },
        Packet::LoginRequest { public_key: vec![], signature: vec![] },
        Packet::SetProfile { encryption_pubkey: vec![], first_name: String::new(), username: None, last_name: None },
        Packet::SendMessage { recipient_pubkey: vec![], encrypted_content: vec![] },
    ];
    for p in &gated {
        assert!(p.requires_auth());
        assert_eq!(m.send_to_user(b"tmp", p), Err(SendError::NotAuthenticated));
        assert_eq!(m.send_to_user(b"absent", p), Err(SendError::NotFound));
    }
}

#[test]
fn set_authenticated_needs_signing_key_and_session() {
    let mut m = SessionManager::new();
    let key = vec![1u8; 32];
    let gated = Packet::SendMessage { recipient_pubkey: vec![], encrypted_content: vec![] };
    m.set_authenticated(&key);
    assert_eq!(m.send_to_user(&key, &gated), Err(SendError::NotFound));
    m.add_session(key.clone(), Session::new(key.clone(), 1, 0));
    m.set_authenticated(&key);
    m.set_authenticated(&key);
    assert_eq!(m.send_to_user(&key, &gated), Ok(1));
    m.add_session(b"short".to_vec(), Session::new(b"short".to_vec(), 2, 0));
    m.set_authenticated(b"short");
    assert_eq!(m.send_to_user(b"short", &gated), Err(SendError::NotAuthenticated));
}

#[test]
fn move_session_renames_atomically() {
    let mut m = SessionManager::new();
    m.add_session(b"old".to_vec(), Session::new(b"old".to_vec(), 4, 0));
    m.move_session(b"old", vec![2u8; 32]);
    assert_eq!(m.send_to_user(b"old", &Packet::Ping), Err(SendError::NotFound));
    assert_eq!(m.send_to_user(&[2u8; 32], &Packet::Ping), Ok(4));
    m.move_session(b"missing", b"x".to_vec());
    assert_eq!(m.send_to_user(b"x", &Packet::Ping), Err(SendError::NotFound));
    // A logged-in session only moves to another signing key.
    m.set_authenticated(&[2u8; 32]);
    m.move_session(&[2u8; 32], b"short".to_vec());
    assert_eq!(m.send_to_user(&[2u8; 32], &Packet::Ping), Ok(4));
    m.move_session(&[2u8; 32], vec![3u8; 32]);
    assert_eq!(m.send_to_user(&[3u8; 32], &Packet::SetProfile { encryption_pubkey: vec![], first_name: String::new(), username: None, last_name: None }), Ok(4));
}

#[test]
fn add_replaces_and_remove_drops() {
    let mut m = SessionManager::new();
    m.add_session(b"k".to_vec(), Session::new(b"k".to_vec(), 1, 0));
    m.add_session(b"k".to_vec(), Session::new(b"k".to_vec(), 2, 0));
    assert_eq!(m.send_to_user(b"k", &Packet::Ping), Ok(2));
    m.remove_session(b"k");
    m.remove_session(b"k");
    assert_eq!(m.send_to_user(b"k", &Packet::Ping), Err(SendError::NotFound));
}

#[test]
fn record_activity_stamps_session() {
    let mut s = Session::new(b"k".to_vec(), 1, 10);
    assert_eq!(s.last_activity, 10);
    s.update_activity(25);
    assert_eq!(s.last_activity, 25);
    assert!(!s.is_authenticated());
    let mut m = SessionManager::new();
    m.add_session(b"k".to_vec(), s);
    m.record_activity(b"k", 30);
    m.record_activity(b"absent", 30);
    assert_eq!(m.send_to_user(b"k", &Packet::Ping), Ok(1));
}

#[test]
fn enc_cache_returns_what_was_put() {
    let mut m = SessionManager::new();
    assert_eq!(m.get_session_enc_pubkey(b"a"), None);
    m.put_session_enc_pubkey(b"a".to_vec(), vec![1, 2, 3]);
    assert_eq!(m.get_session_enc_pubkey(b"a"), Some(vec![1, 2, 3]));
    m.put_session_enc_pubkey(b"a".to_vec(), vec![4]);
    assert_eq!(m.get_session_enc_pubkey(b"a"), Some(vec![4]));
}

#[test]
fn enc_cache_evicts_least_recently_used_at_capacity() {
    let mut m = SessionManager::new();
    for i in 0u32..10_000 {
        m.put_session_enc_pubkey(i.to_be_bytes().to_vec(), vec![1]);
    }
    // Touch the first key so that the second is now the oldest.
    assert_eq!(m.get_session_enc_pubkey(&0u32.to_be_bytes()), Some(vec![1]));
    m.put_session_enc_pubkey(10_000u32.to_be_bytes().to_vec(), vec![2]);
    assert_eq!(m.get_session_enc_pubkey(&10_000u32.to_be_bytes()), Some(vec![2]));
    assert_eq!(m.get_session_enc_pubkey(&0u32.to_be_bytes()), Some(vec![1]));
    assert_eq!(m.get_session_enc_pubkey(&1u32.to_be_bytes()), None);
    assert_eq!(m.get_session_enc_pubkey(&2u32.to_be_bytes()), Some(vec![1]));
}

#[test]
fn byte_helpers() {
    assert!(bytes_eq(b"abc", b"abc"));
    assert!(!bytes_eq(b"abc", b"abd"));
    assert!(!bytes_eq(b"abc", b"ab"));
    assert!(bytes_eq(b"", b""));
    assert_eq!(copy_bytes(b"xyz"), b"xyz".to_vec());
    assert_eq!(copy_bytes(b""), Vec::<u8>::new());
}

#[test]
fn enc_cache_update_of_cached_key_evicts_nothing() {
    let mut m = SessionManager::new();
    for i in 0u32..10_000 {
        m.put_session_enc_pubkey(i.to_be_bytes().to_vec(), vec![1]);
    }
    m.put_session_enc_pubkey(0u32.to_be_bytes().to_vec(), vec![9]);
    assert_eq!(m.get_session_enc_pubkey(&0u32.to_be_bytes()), Some(vec![9]));
    assert_eq!(m.get_session_enc_pubkey(&1u32.to_be_bytes()), Some(vec![1]));
    assert_eq!(m.get_session_enc_pubkey(&9_999u32.to_be_bytes()), Some(vec![1]));
    // The next new key pushes out the least recently used one, key 2.
    m.put_session_enc_pubkey(20_000u32.to_be_bytes().to_vec(), vec![3]);
    assert_eq!(m.get_session_enc_pubkey(&2u32.to_be_bytes()), None);
    assert_eq!(m.get_session_enc_pubkey(&3u32.to_be_bytes()), Some(vec![1]));
    assert_eq!(m.get_session_enc_pubkey(&20_000u32.to_be_bytes()), Some(vec![3]));
}

#[test]
fn live_connection_needs_login() {
    let mut m = SessionManager::new();
    let key = vec![4u8; 32];
    assert_eq!(m.live_connection(&key), Err(SendError::NotFound));
    m.add_session(key.clone(), Session::new(key.clone(), 6, 0));
    assert_eq!(m.live_connection(&key), Err(SendError::NotAuthenticated));
    m.set_authenticated(&key);
    assert_eq!(m.live_connection(&key), Ok(6));
}
