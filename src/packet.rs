use vstd::prelude::*;

verus! {

/// The protocol's packets, as the server logic reads and builds them.
/// Framing and the wire encoding belong to the codec around the library.
pub enum Packet {
    GetChallenge { public_key: Vec<u8> },
    Challenge { challenge: Vec<u8> },
    LoginRequest { public_key: Vec<u8>, signature: Vec<u8> },
    LoginResponse { success: bool, profile_exists: bool },
    SetProfile {
        encryption_pubkey: Vec<u8>,
        first_name: String,
        username: Option<String>,
        last_name: Option<String>,
    },
    ProfileUpdated { success: bool },
    SearchUser { query: String },
    UserFound {
        public_key: Vec<u8>,
        encryption_pubkey: Vec<u8>,
        username: Option<String>,
        first_name: String,
        last_name: Option<String>,
    },
    UserNotFound,
    SendMessage { recipient_pubkey: Vec<u8>, encrypted_content: Vec<u8> },
    MessageReceived { sender_pubkey: Vec<u8>, sender_enc_pubkey: Vec<u8>, encrypted_content: Vec<u8> },
    MessageDelivered { success: bool },
    Ping,
    Pong,
}

/// The packets that may be sent to a session that has not logged in yet.
pub open spec fn allowed_before_login(p: Packet) -> bool {
    match p {
        Packet::Challenge { .. } | Packet::LoginResponse { .. } | Packet::MessageDelivered { .. }
        | Packet::ProfileUpdated { .. } | Packet::MessageReceived { .. } | Packet::Ping
        | Packet::Pong | Packet::SearchUser { .. } | Packet::UserFound { .. }
        | Packet::UserNotFound => true,
        _ => false,
    }
}

impl Packet {
    /// Whether this packet may only go to an authenticated session.
    pub fn requires_auth(&self) -> (r: bool)
        ensures
            r == !allowed_before_login(*self),
    {
        match self {
            Packet::Challenge { .. } | Packet::LoginResponse { .. } | Packet::MessageDelivered { .. }
            | Packet::ProfileUpdated { .. } | Packet::MessageReceived { .. } | Packet::Ping
            | Packet::Pong | Packet::SearchUser { .. } | Packet::UserFound { .. }
            | Packet::UserNotFound => false,
            _ => true,
        }
    }
}

} // verus!
