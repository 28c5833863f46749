use vstd::prelude::*;

verus! {

/// Length in bytes of an Ed25519 signing public key, the permanent identity.
pub const SIGNING_KEY_LEN: usize = 32;

/// The live record of one connection. The connection's write half stays with
/// the caller, which finds it again by `conn`.
pub struct Session {
    /// Identity under which the session is registered.
    pub public_key: Vec<u8>,
    /// Handle of the connection whose write half carries this session's output.
    pub conn: u64,
    /// Set once the owner proved possession of the signing key; never cleared.
    pub authenticated: bool,
    /// Time of the last successful write, in the caller's monotonic clock.
    pub last_activity: u64,
}

impl Session {
    /// Only a session registered under a signing key can be authenticated.
    pub open spec fn wf(&self) -> bool {
        self.authenticated ==> self.public_key@.len() == SIGNING_KEY_LEN
    }

    pub fn new(public_key: Vec<u8>, conn: u64, now: u64) -> (s: Session)
        ensures
            s.public_key@ == public_key@,
            s.conn == conn,
            !s.authenticated,
            s.last_activity == now,
            s.wf(),
    {
        Session { public_key, conn, authenticated: false, last_activity: now }
    }

    pub fn update_activity(&mut self, now: u64)
        ensures
            final(self).last_activity == now,
            final(self).public_key == old(self).public_key,
            final(self).conn == old(self).conn,
            final(self).authenticated == old(self).authenticated,
    {
        self.last_activity = now;
    }

    pub fn is_authenticated(&self) -> (r: bool)
        ensures
            r == self.authenticated,
    {
        self.authenticated
    }
}

} // verus!
