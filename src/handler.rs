use vstd::prelude::*;
use crate::auth::{AuthService, login_accepted};
use crate::bytes::copy_bytes;
use crate::challenge::NONCE_LEN;
use crate::manager::{SendError, SessionManager, lookup, send_outcome};
use crate::message::{RoutePlan, plans_route, route_message};
use crate::packet::Packet;
use crate::session::{Session, SIGNING_KEY_LEN};
use crate::user::{UserProfile, search_reply};

verus! {

/// What the caller does next on behalf of a connection.
pub enum Action {
    /// Nothing.
    Nothing,
    /// Write `packet` to connection `conn`, registered under `to`; after a
    /// successful write, stamp the session with `record_activity`.
    Send { to: Vec<u8>, conn: u64, packet: Packet },
    /// A reply could not be addressed.
    Undeliverable { error: SendError },
    /// The login was accepted: look up whether `public_key` has a profile
    /// and pass the answer to `finish_login`.
    CheckProfile { public_key: Vec<u8> },
    /// Insert or update `profile` in the profile table, then call
    /// `profile_saved`.
    SaveProfile { profile: UserProfile },
    /// Look up the profile whose username is exactly `username` and pass it
    /// to `search_result`.
    FindUser { username: String },
    /// Read the sender's encryption key from the profile table and pass it
    /// to `sender_resolved` with this message.
    LoadSenderKey { recipient_pubkey: Vec<u8>, encrypted_content: Vec<u8> },
    /// Carry out `plan`, then call `message_accepted`.
    Route { plan: RoutePlan },
}

/// Whether `r` addresses `p` to the session under `to` in `sessions`: a
/// write to its connection, or the reason there is none.
pub open spec fn addressed(sessions: Map<Seq<u8>, Session>, to: Seq<u8>, p: Packet, r: Action) -> bool {
    match send_outcome(lookup(sessions, to), p) {
        Ok(conn) => r matches Action::Send { to: t, conn: c, packet: q } && t@ == to && c == conn
            && q == p,
        Err(e) => r == Action::Undeliverable { error: e },
    }
}

/// Dispatches the packets of every connection to the services, over the
/// shared session table.
pub struct PacketHandler {
    pub auth_service: AuthService,
    pub session_manager: SessionManager,
}

/// Whether `handle` took `before` to `after` and returned `r` for `packet`
/// from `sender`; `provisional` says that the sender has not sent a login
/// yet and is still known by its temporary identity.
pub open spec fn handled(
    before: PacketHandler,
    after: PacketHandler,
    sender: Seq<u8>,
    provisional: bool,
    packet: Packet,
    r: Action,
) -> bool {
    let sessions = before.session_manager.sessions();
    let challenges = before.auth_service.challenges();
    let cache = before.session_manager.enc_cache();
    &&& after.session_manager.sessions() == sessions
    &&& after.session_manager.enc_cache() == cache
    &&& match packet {
        Packet::GetChallenge { public_key } => (exists|c: Vec<u8>|
            c@.len() == NONCE_LEN && after.auth_service.challenges() == challenges.insert(
                public_key@,
                c@,
            ) && addressed(sessions, sender, Packet::Challenge { challenge: c }, r)) || (
        after.auth_service.challenges() == challenges && r == Action::Nothing),
        Packet::LoginRequest { public_key, signature } => {
            &&& after.auth_service.challenges() == challenges.remove(public_key@)
            &&& login_accepted(challenges, public_key@, signature@) ==> (r matches Action::CheckProfile {
                public_key: k,
            } && k@ == public_key@)
            &&& !login_accepted(challenges, public_key@, signature@) ==> addressed(
                sessions,
                sender,
                Packet::LoginResponse { success: false, profile_exists: false },
                r,
            )
        },
        Packet::SetProfile { encryption_pubkey, first_name, username, last_name } => {
            &&& after.auth_service.challenges() == challenges
            &&& provisional ==> r == Action::Nothing
            &&& !provisional ==> (r matches Action::SaveProfile { profile: u } && u.public_key@
                == sender && u.encryption_pubkey == encryption_pubkey && u.first_name == first_name
                && u.username == username && u.last_name == last_name)
        },
        Packet::SearchUser { query } => {
            &&& after.auth_service.challenges() == challenges
            &&& r == Action::FindUser { username: query }
        },
        Packet::SendMessage { recipient_pubkey, encrypted_content } => {
            &&& after.auth_service.challenges() == challenges
            &&& cache.contains_key(sender) ==> (r matches Action::Route { plan } && plans_route(
                sessions,
                sender,
                cache[sender],
                recipient_pubkey@,
                encrypted_content@,
                plan,
            ))
            &&& !cache.contains_key(sender) ==> r == Action::LoadSenderKey {
                recipient_pubkey,
                encrypted_content,
            }
        },
        _ => {
            &&& after.auth_service.challenges() == challenges
            &&& r == Action::Nothing
        },
    }
}

/// Whether `after` is `before` with the session under `public_key`, if any,
/// marked as logged in. A key that is not a signing key changes nothing.
pub open spec fn logged_in(
    before: Map<Seq<u8>, Session>,
    after: Map<Seq<u8>, Session>,
    public_key: Seq<u8>,
) -> bool {
    if before.contains_key(public_key) && public_key.len() == SIGNING_KEY_LEN {
        after == before.insert(public_key, Session { authenticated: true, ..before[public_key] })
    } else {
        after == before
    }
}

/// Once a login with `signature` under `public_key` is accepted and
/// completed, the session registered under `public_key`, if any, is logged in.
pub proof fn lemma_accepted_login_authenticates(
    challenges: Map<Seq<u8>, Seq<u8>>,
    public_key: Seq<u8>,
    signature: Seq<u8>,
    before: Map<Seq<u8>, Session>,
    after: Map<Seq<u8>, Session>,
)
    requires
        login_accepted(challenges, public_key, signature),
        logged_in(before, after, public_key),
    ensures
        after.contains_key(public_key) ==> after[public_key].authenticated,
{
}

impl PacketHandler {
    pub open spec fn wf(&self) -> bool {
        self.auth_service.wf() && self.session_manager.wf()
    }

    pub fn new() -> (r: PacketHandler)
        ensures
            r.wf(),
            r.session_manager.sessions().is_empty(),
            r.session_manager.enc_cache().is_empty(),
            r.auth_service.challenges().is_empty(),
    {
        PacketHandler { auth_service: AuthService::new(), session_manager: SessionManager::new() }
    }

    /// Addresses `packet` to the session under `to`.
    pub fn reply(&self, to: &[u8], packet: Packet) -> (r: Action)
        ensures
            addressed(self.session_manager.sessions(), to@, packet, r),
    {
        match self.session_manager.send_to_user(to, &packet) {
            Ok(conn) => Action::Send { to: copy_bytes(to), conn, packet },
            Err(error) => Action::Undeliverable { error },
        }
    }

    /// Handles one packet from the connection known as `sender`. A challenge
    /// request gets no answer when the random source fails.
    pub fn handle(&mut self, sender: &[u8], provisional: bool, packet: Packet) -> (r: Action)
        requires
            old(self).wf(),
        ensures
            final(self).wf(),
            handled(*old(self), *final(self), sender@, provisional, packet, r),
    {
        match packet {
            Packet::GetChallenge { public_key } => {
                match self.auth_service.generate_challenge(public_key) {
                    Some(challenge) => {
                        let ghost c = challenge;
                        let r = self.reply(sender, Packet::Challenge { challenge });
                        assert(addressed(
                            self.session_manager.sessions(),
                            sender@,
                            Packet::Challenge { challenge: c },
                            r,
                        ));
                        r
                    },
                    None => Action::Nothing,
                }
            },
            Packet::LoginRequest { public_key, signature } => {
                if self.auth_service.verify_login(public_key.as_slice(), signature.as_slice()) {
                    Action::CheckProfile { public_key }
                } else {
                    self.reply(sender, Packet::LoginResponse { success: false, profile_exists: false })
                }
            },
            Packet::SetProfile { encryption_pubkey, first_name, username, last_name } => {
                if provisional {
                    Action::Nothing
                } else {
                    Action::SaveProfile {
                        profile: UserProfile {
                            public_key: copy_bytes(sender),
                            username,
                            first_name,
                            last_name,
                            encryption_pubkey,
                        },
                    }
                }
            },
            Packet::SearchUser { query } => Action::FindUser { username: query },
            Packet::SendMessage { recipient_pubkey, encrypted_content } => {
                match self.session_manager.get_session_enc_pubkey(sender) {
                    Some(enc) => Action::Route {
                        plan: route_message(
                            &self.session_manager,
                            sender,
                            enc.as_slice(),
                            recipient_pubkey,
                            encrypted_content,
                        ),
                    },
                    None => Action::LoadSenderKey { recipient_pubkey, encrypted_content },
                }
            },
            _ => Action::Nothing,
        }
    }

    /// Completes an accepted login of `public_key`: its session, if any, is
    /// marked as logged in, and `sender` is told so, with whether a profile
    /// exists.
    pub fn finish_login(&mut self, sender: &[u8], public_key: &[u8], profile_exists: bool) -> (r:
        Action)
        requires
            old(self).wf(),
        ensures
            final(self).wf(),
            final(self).auth_service == old(self).auth_service,
            final(self).session_manager.enc_cache() == old(self).session_manager.enc_cache(),
            logged_in(old(self).session_manager.sessions(), final(self).session_manager.sessions(), public_key@),
            addressed(
                final(self).session_manager.sessions(),
                sender@,
                Packet::LoginResponse { success: true, profile_exists },
                r,
            ),
    {
        self.session_manager.set_authenticated(public_key);
        self.reply(sender, Packet::LoginResponse { success: true, profile_exists })
    }

    /// Tells `sender` that its profile was stored.
    pub fn profile_saved(&self, sender: &[u8]) -> (r: Action)
        ensures
            addressed(self.session_manager.sessions(), sender@, Packet::ProfileUpdated { success: true }, r),
    {
        self.reply(sender, Packet::ProfileUpdated { success: true })
    }

    /// Answers the search of `requester` with the profile found, if any.
    pub fn search_result(&self, requester: &[u8], found: Option<UserProfile>) -> (r: Action)
        ensures
            found is None ==> addressed(self.session_manager.sessions(), requester@, Packet::UserNotFound, r),
            found matches Some(u) ==> addressed(
                self.session_manager.sessions(),
                requester@,
                Packet::UserFound {
                    public_key: u.public_key,
                    encryption_pubkey: u.encryption_pubkey,
                    username: u.username,
                    first_name: u.first_name,
                    last_name: u.last_name,
                },
                r,
            ),
    {
        self.reply(requester, search_reply(found))
    }

    /// Goes on with a message of `sender` once its encryption key was read
    /// from the profile table: the key is cached and the message routed. A
    /// sender without a profile has its message dropped.
    pub fn sender_resolved(
        &mut self,
        sender: &[u8],
        sender_enc_pubkey: Option<Vec<u8>>,
        recipient_pubkey: Vec<u8>,
        encrypted_content: Vec<u8>,
    ) -> (r: Action)
        requires
            old(self).wf(),
        ensures
            final(self).wf(),
            final(self).auth_service == old(self).auth_service,
            final(self).session_manager.sessions() == old(self).session_manager.sessions(),
            sender_enc_pubkey is None ==> r == Action::Nothing && final(self).session_manager.enc_cache()
                == old(self).session_manager.enc_cache(),
            sender_enc_pubkey matches Some(enc) ==> {
                &&& final(self).session_manager.enc_cache().contains_key(sender@)
                &&& final(self).session_manager.enc_cache()[sender@] == enc@
                &&& (r matches Action::Route { plan } && plans_route(
                    old(self).session_manager.sessions(),
                    sender@,
                    enc@,
                    recipient_pubkey@,
                    encrypted_content@,
                    plan,
                ))
            },
    {
        match sender_enc_pubkey {
            None => Action::Nothing,
            Some(enc) => {
                let plan = route_message(
                    &self.session_manager,
                    sender,
                    enc.as_slice(),
                    recipient_pubkey,
                    encrypted_content,
                );
                self.session_manager.put_session_enc_pubkey(copy_bytes(sender), enc);
                Action::Route { plan }
            },
        }
    }

    /// Acknowledges to `sender` that the server accepted its message.
    pub fn message_accepted(&self, sender: &[u8]) -> (r: Action)
        ensures
            addressed(self.session_manager.sessions(), sender@, Packet::MessageDelivered { success: true }, r),
    {
        self.reply(sender, Packet::MessageDelivered { success: true })
    }
}

} // verus!
