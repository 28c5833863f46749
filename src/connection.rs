use vstd::prelude::*;
use crate::handler::{Action, PacketHandler, addressed, handled};
use crate::manager::{can_move, lookup};
use crate::packet::Packet;
use crate::session::Session;

verus! {

/// The decisions of one connection: which identity it answers to, and what
/// each packet read from it leads to. The caller reads frames, enforces the
/// idle timeout and the shutdown signal, and calls `close` at the end.
pub struct Connection {
    /// Identity under which the connection's session is registered.
    pub current_identity: Vec<u8>,
    /// True until a login request arrives: the identity is still the one
    /// derived from the peer address.
    pub provisional: bool,
}

/// What one packet leads to.
pub struct Step {
    pub action: Action,
    /// After a login request: deliver the queued messages of the new
    /// identity, after a short pause.
    pub deliver_pending: bool,
}

/// Whether `after` is `before` with the session under `old_key` moved to
/// `new_key`, as `move_session` does.
pub open spec fn moved(
    before: Map<Seq<u8>, Session>,
    after: Map<Seq<u8>, Session>,
    old_key: Seq<u8>,
    new_key: Seq<u8>,
) -> bool {
    if can_move(lookup(before, old_key), new_key) {
        exists|v: Vec<u8>|
            v@ == new_key && after == before.remove(old_key).insert(
                new_key,
                Session { public_key: v, ..before[old_key] },
            )
    } else {
        after == before
    }
}

/// A login request keeps the connection's session under the identity the
/// connection answers to: when the session moves, it sits under the new key
/// (and no longer under the old one) on the same connection; when it cannot
/// move, nothing changes and the identity stays. So closing the connection
/// removes exactly its session.
pub proof fn lemma_session_follows_identity(
    before: Map<Seq<u8>, Session>,
    after: Map<Seq<u8>, Session>,
    current: Seq<u8>,
    new_key: Seq<u8>,
)
    requires
        moved(before, after, current, new_key),
        before.contains_key(current),
    ensures
        can_move(lookup(before, current), new_key) ==> after.contains_key(new_key)
            && after[new_key].conn == before[current].conn && after[new_key].authenticated
            == before[current].authenticated && (current != new_key ==> !after.contains_key(
            current,
        )),
        !can_move(lookup(before, current), new_key) ==> after == before,
{
}

impl Connection {
    /// Registers a fresh session for connection `conn` under the temporary
    /// identity `temp_id`.
    pub fn open(handler: &mut PacketHandler, temp_id: Vec<u8>, conn: u64, now: u64) -> (r:
        Connection)
        requires
            old(handler).wf(),
        ensures
            final(handler).wf(),
            final(handler).auth_service == old(handler).auth_service,
            final(handler).session_manager.enc_cache() == old(handler).session_manager.enc_cache(),
            r.current_identity@ == temp_id@,
            r.provisional,
            exists|s: Session|
                s.public_key@ == temp_id@ && s.conn == conn && !s.authenticated && s.last_activity
                    == now && final(handler).session_manager.sessions() == old(
                    handler,
                ).session_manager.sessions().insert(temp_id@, s),
    {
        let session = Session::new(temp_id.clone(), conn, now);
        let ghost s = session;
        handler.session_manager.add_session(temp_id.clone(), session);
        Connection { current_identity: temp_id, provisional: true }
    }

    /// Handles one packet read from the connection. A ping is answered with
    /// a pong. A login request first moves the session to the key it names,
    /// whether or not the login then succeeds, and the connection answers to
    /// that key from then on; where the session cannot move (a logged-in
    /// session and a key that is not a signing key) the identity stays. Every
    /// other packet goes to the handler.
    ///
    /// Moving on a refused login is deliberate but has consequences: after a
    /// refused login under another user's key, this connection answers to
    /// that key, so it can store that user's profile and is handed that
    /// user's queued messages. A session that logged in earlier keeps its
    /// flag when it moves to another 32-byte key, so it then also receives
    /// that user's live messages. Moving only on an accepted login would
    /// close this.
    pub fn on_packet(&mut self, handler: &mut PacketHandler, packet: Packet) -> (r: Step)
        requires
            old(handler).wf(),
        ensures
            final(handler).wf(),
            match packet {
                Packet::Ping => {
                    &&& *final(handler) == *old(handler)
                    &&& final(self).current_identity@ == old(self).current_identity@
                    &&& final(self).provisional == old(self).provisional
                    &&& !r.deliver_pending
                    &&& addressed(
                        old(handler).session_manager.sessions(),
                        old(self).current_identity@,
                        Packet::Pong,
                        r.action,
                    )
                },
                Packet::LoginRequest { public_key, signature } => {
                    let ok = can_move(
                        lookup(old(handler).session_manager.sessions(), old(self).current_identity@),
                        public_key@,
                    );
                    &&& ok ==> final(self).current_identity@ == public_key@ && !final(self).provisional
                    &&& !ok ==> final(self).current_identity@ == old(self).current_identity@
                        && final(self).provisional == old(self).provisional
                    &&& r.deliver_pending == ok
                    &&& exists|mid: PacketHandler|
                        mid.auth_service == old(handler).auth_service
                            && mid.session_manager.enc_cache()
                            == old(handler).session_manager.enc_cache() && moved(
                            old(handler).session_manager.sessions(),
                            mid.session_manager.sessions(),
                            old(self).current_identity@,
                            public_key@,
                        ) && handled(
                            mid,
                            *final(handler),
                            final(self).current_identity@,
                            final(self).provisional,
                            packet,
                            r.action,
                        )
                },
                _ => {
                    &&& final(self).current_identity@ == old(self).current_identity@
                    &&& final(self).provisional == old(self).provisional
                    &&& !r.deliver_pending
                    &&& handled(
                        *old(handler),
                        *final(handler),
                        old(self).current_identity@,
                        old(self).provisional,
                        packet,
                        r.action,
                    )
                },
            },
    {
        match packet {
            Packet::Ping => {
                let action = handler.reply(self.current_identity.as_slice(), Packet::Pong);
                Step { action, deliver_pending: false }
            },
            Packet::LoginRequest { public_key, signature } => {
                let ghost before = handler.session_manager.sessions();
                let new_key = public_key.clone();
                let ok = handler.session_manager.move_session(
                    self.current_identity.as_slice(),
                    new_key,
                );
                let ghost mid = *handler;
                assert(moved(before, mid.session_manager.sessions(), self.current_identity@, public_key@));
                if ok {
                    self.current_identity = public_key.clone();
                    self.provisional = false;
                }
                let action = handler.handle(
                    self.current_identity.as_slice(),
                    self.provisional,
                    Packet::LoginRequest { public_key, signature },
                );
                assert(handled(
                    mid,
                    *handler,
                    self.current_identity@,
                    self.provisional,
                    Packet::LoginRequest { public_key, signature },
                    action,
                ));
                Step { action, deliver_pending: ok }
            },
            other => {
                let action = handler.handle(
                    self.current_identity.as_slice(),
                    self.provisional,
                    other,
                );
                Step { action, deliver_pending: false }
            },
        }
    }

    /// Ends the connection: its session leaves the table.
    pub fn close(self, handler: &mut PacketHandler)
        requires
            old(handler).wf(),
        ensures
            final(handler).wf(),
            final(handler).auth_service == old(handler).auth_service,
            final(handler).session_manager.enc_cache() == old(handler).session_manager.enc_cache(),
            final(handler).session_manager.sessions() == old(
                handler,
            ).session_manager.sessions().remove(self.current_identity@),
    {
        handler.session_manager.remove_session(self.current_identity.as_slice());
    }
}

} // verus!
