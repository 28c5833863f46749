use ed25519_dalek::{Signer, SigningKey};
use hnet_server::connection::Connection;
use hnet_server::handler::{Action, PacketHandler};
use hnet_server::manager::SendError;
use hnet_server::packet::Packet;

fn signing_key(seed: u8) -> SigningKey {
    SigningKey::from_bytes(&[seed; 32])
}

fn public_key(key: &SigningKey) -> Vec<u8> {
    key.verifying_key().to_bytes().to_vec()
}

fn challenge_of(action: Action) -> Vec<u8> {
    match action {
        Action::Send { packet: Packet::Challenge { challenge }, .. } => challenge,
        _ => panic!("expected a challenge to be sent"),
    }
}

/// Connects, asks for a challenge and answers it; returns the connection and
/// the signature that was sent.
fn log_in(handler: &mut PacketHandler, key: &SigningKey, addr: &str, conn: u64) -> (Connection, Vec<u8>) {
    let pk = public_key(key);
    let mut c = Connection::open(handler, addr.as_bytes().to_vec(), conn, 1);
    let step = c.on_packet(handler, Packet::GetChallenge { public_key: pk.clone() });
    let nonce = challenge_of(step.action);
    let sig = key.sign(&nonce).to_bytes().to_vec();
    let step = c.on_packet(handler, Packet::LoginRequest { public_key: pk.clone(), signature: sig.clone() });
    assert!(step.deliver_pending);
    match step.action {
        Action::CheckProfile { public_key } => assert_eq!(public_key, pk),
        _ => panic!("expected the login to be accepted"),
    }
    let reply = handler.finish_login(&c.current_identity, &pk, false);
    match reply {
        Action::Send { to, conn: written, packet: Packet::LoginResponse { success, profile_exists } } => {
            assert_eq!(to, pk);
            assert_eq!(written, conn);
            assert!(success);
            assert!(!profile_exists);
        }
        _ => panic!("expected a login response"),
    }
    (c, sig)
}

fn is_logged_in(handler: &PacketHandler, identity: &[u8]) -> bool {
    let probe = Packet::SendMessage { recipient_pubkey: vec![], encrypted_content: vec![] };
    handler.session_manager.send_to_user(identity, &probe).is_ok()
}

#[test]
fn happy_login_registers_authenticated_session() {
    let mut handler = PacketHandler::new();
    let key = signing_key(1);
    let pk = public_key(&key);
    let (c, _) = log_in(&mut handler, &key, "127.0.0.1:40000", 7);
    assert_eq!(c.current_identity, pk);
    assert!(!c.provisional);
    assert!(is_logged_in(&handler, &pk));
    assert_eq!(handler.session_manager.send_to_user(&pk, &Packet::Ping), Ok(7));
    assert_eq!(
        handler.session_manager.send_to_user(b"127.0.0.1:40000", &Packet::Ping),
        Err(SendError::NotFound)
    );
}

#[test]
fn replayed_login_is_refused() {
    let mut handler = PacketHandler::new();
    let key = signing_key(2);
    let pk = public_key(&key);
    let (mut c, sig) = log_in(&mut handler, &key, "127.0.0.1:40001", 3);
    let step = c.on_packet(&mut handler, Packet::LoginRequest { public_key: pk.clone(), signature: sig });
    match step.action {
        Action::Send { packet: Packet::LoginResponse { success, profile_exists }, .. } => {
            assert!(!success);
            assert!(!profile_exists);
        }
        _ => panic!("expected a refusal"),
    }
}

#[test]
fn wrong_signature_is_refused_but_identity_moves() {
    let mut handler = PacketHandler::new();
    let key = signing_key(3);
    let pk = public_key(&key);
    let mut c = Connection::open(&mut handler, b"10.0.0.1:1".to_vec(), 11, 5);
    let nonce = challenge_of(c.on_packet(&mut handler, Packet::GetChallenge { public_key: pk.clone() }).action);
    let mut sig = key.sign(&nonce).to_bytes().to_vec();
    sig[0] ^= 1;
    let step = c.on_packet(&mut handler, Packet::LoginRequest { public_key: pk.clone(), signature: sig });
    match step.action {
        Action::Send { to, packet: Packet::LoginResponse { success: false, profile_exists: false }, .. } => {
            assert_eq!(to, pk)
        }
        _ => panic!("expected a refusal"),
    }
    assert_eq!(c.current_identity, pk);
    assert_eq!(handler.session_manager.send_to_user(&pk, &Packet::Pong), Ok(11));
    assert!(!is_logged_in(&handler, &pk));
}

#[test]
fn login_without_challenge_is_refused() {
    let mut handler = PacketHandler::new();
    let key = signing_key(4);
    let pk = public_key(&key);
    let sig = key.sign(&[0u8; 32]).to_bytes().to_vec();
    assert!(!handler.auth_service.verify_login(&pk, &sig));
}

#[test]
fn malformed_key_or_signature_is_refused() {
    let mut handler = PacketHandler::new();
    let short_key = vec![9u8; 31];
    handler.auth_service.generate_challenge(short_key.clone()).expect("random source");
    assert!(!handler.auth_service.verify_login(&short_key, &[0u8; 64]));

    let key = signing_key(5);
    let pk = public_key(&key);
    let nonce = handler.auth_service.generate_challenge(pk.clone()).expect("random source");
    let sig = key.sign(&nonce).to_bytes().to_vec();
    assert!(!handler.auth_service.verify_login(&pk, &sig[..63]));
    // The failed attempt consumed the challenge.
    assert!(!handler.auth_service.verify_login(&pk, &sig));
}

#[test]
fn fresh_challenge_signed_verifies_once() {
    let mut handler = PacketHandler::new();
    let key = signing_key(6);
    let pk = public_key(&key);
    let nonce = handler.auth_service.generate_challenge(pk.clone()).expect("random source");
    assert_eq!(nonce.len(), 32);
    let sig = key.sign(&nonce).to_bytes().to_vec();
    assert!(handler.auth_service.verify_login(&pk, &sig));
    assert!(!handler.auth_service.verify_login(&pk, &sig));
}

#[test]
fn new_challenge_replaces_the_old_one() {
    let mut handler = PacketHandler::new();
    let key = signing_key(7);
    let pk = public_key(&key);
    let first = handler.auth_service.generate_challenge(pk.clone()).expect("random source");
    let second = handler.auth_service.generate_challenge(pk.clone()).expect("random source");
    assert_ne!(first, second);
    assert_ne!(first, vec![0u8; 32]);
    let old_sig = key.sign(&first).to_bytes().to_vec();
    assert!(!handler.auth_service.verify_login(&pk, &old_sig));
    let fresh = handler.auth_service.generate_challenge(pk.clone()).expect("random source");
    let sig = key.sign(&fresh).to_bytes().to_vec();
    assert!(handler.auth_service.verify_login(&pk, &sig));
}

#[test]
fn ping_gets_pong_on_provisional_session() {
    let mut handler = PacketHandler::new();
    let mut c = Connection::open(&mut handler, b"1.2.3.4:5".to_vec(), 2, 0);
    let step = c.on_packet(&mut handler, Packet::Ping);
    assert!(!step.deliver_pending);
    match step.action {
        Action::Send { to, conn, packet: Packet::Pong } => {
            assert_eq!(to, b"1.2.3.4:5".to_vec());
            assert_eq!(conn, 2);
        }
        _ => panic!("expected a pong"),
    }
}

#[test]
fn silent_connection_closed_leaves_no_session() {
    let mut handler = PacketHandler::new();
    let key = signing_key(8);
    let mut c = Connection::open(&mut handler, b"1.2.3.4:6".to_vec(), 4, 0);
    let _ = c.on_packet(&mut handler, Packet::GetChallenge { public_key: public_key(&key) });
    assert_eq!(handler.session_manager.send_to_user(b"1.2.3.4:6", &Packet::Ping), Ok(4));
    c.close(&mut handler);
    assert_eq!(
        handler.session_manager.send_to_user(b"1.2.3.4:6", &Packet::Ping),
        Err(SendError::NotFound)
    );
}

#[test]
fn logged_in_connection_keeps_identity_on_malformed_login() {
    let mut handler = PacketHandler::new();
    let key = signing_key(9);
    let pk = public_key(&key);
    let (mut c, _) = log_in(&mut handler, &key, "127.0.0.1:40009", 12);
    let step = c.on_packet(&mut handler, Packet::LoginRequest { public_key: b"short".to_vec(), signature: vec![0; 64] });
    assert!(!step.deliver_pending);
    assert_eq!(c.current_identity, pk);
    assert!(!c.provisional);
    match step.action {
        Action::Send { to, conn, packet: Packet::LoginResponse { success: false, .. } } => {
            assert_eq!(to, pk);
            assert_eq!(conn, 12);
        }
        _ => panic!("expected a refusal to the logged-in session"),
    }
    assert!(is_logged_in(&handler, &pk));
    assert_eq!(handler.session_manager.send_to_user(b"short", &Packet::Ping), Err(SendError::NotFound));
    c.close(&mut handler);
    assert_eq!(handler.session_manager.send_to_user(&pk, &Packet::Ping), Err(SendError::NotFound));
}
