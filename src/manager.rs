use vstd::prelude::*;
use dashmap::DashMap;
use lrumap::{LruHashMap, LruMap};
use crate::packet::{Packet, allowed_before_login};
use crate::session::{Session, SIGNING_KEY_LEN};

verus! {

/// Most entries the signing-key to encryption-key cache holds.
pub const ENC_CACHE_CAPACITY: usize = 10000;

#[verifier::external_type_specification]
#[verifier::external_body]
#[verifier::reject_recursive_types(K)]
#[verifier::reject_recursive_types(V)]
#[verifier::reject_recursive_types(S)]
pub struct ExDashMap<K, V, S>(DashMap<K, V, S>);

#[verifier::external_type_specification]
#[verifier::external_body]
#[verifier::reject_recursive_types(K)]
#[verifier::reject_recursive_types(V)]
#[verifier::reject_recursive_types(S)]
pub struct ExLruHashMap<K, V, S>(LruHashMap<K, V, S>);

/// The sessions a `DashMap` holds, keyed by the bytes of their identity.
pub uninterp spec fn registered(m: DashMap<Vec<u8>, Session>) -> Map<Seq<u8>, Session>;

/// The entries an `LruHashMap` holds, whatever their order of use.
pub uninterp spec fn cached(m: LruHashMap<Vec<u8>, Vec<u8>>) -> Map<Seq<u8>, Seq<u8>>;

/// Relies on `DashMap::new`: the map starts empty.
#[verifier::external_body]
fn sessions_new() -> (r: DashMap<Vec<u8>, Session>)
    ensures
        registered(r).is_empty(),
{
    DashMap::new()
}

/// Relies on `DashMap::insert`: the key now maps to the value, others stay.
#[verifier::external_body]
fn sessions_insert(m: &mut DashMap<Vec<u8>, Session>, key: Vec<u8>, value: Session)
    ensures
        registered(*final(m)) == registered(*old(m)).insert(key@, value),
{
    m.insert(key, value);
}

/// Relies on `DashMap::remove`: the entry under the key leaves the map and is
/// handed back.
#[verifier::external_body]
fn sessions_remove(m: &mut DashMap<Vec<u8>, Session>, key: &[u8]) -> (r: Option<Session>)
    ensures
        registered(*final(m)) == registered(*old(m)).remove(key@),
        registered(*old(m)).contains_key(key@) ==> r == Some(registered(*old(m))[key@]),
        !registered(*old(m)).contains_key(key@) ==> r is None,
{
    m.remove(key).map(|(_, s)| s)
}

/// Relies on `DashMap::get`: reads the connection handle and the login flag
/// of the entry under the key, if there is one.
#[verifier::external_body]
fn sessions_get(m: &DashMap<Vec<u8>, Session>, key: &[u8]) -> (r: Option<(u64, bool)>)
    ensures
        registered(*m).contains_key(key@) ==> r == Some(
            (registered(*m)[key@].conn, registered(*m)[key@].authenticated),
        ),
        !registered(*m).contains_key(key@) ==> r is None,
{
    m.get(key).map(|s| (s.conn, s.authenticated))
}

/// The keys an `LruHashMap` holds, from the most to the least recently used.
pub uninterp spec fn use_order(m: LruHashMap<Vec<u8>, Vec<u8>>) -> Seq<Seq<u8>>;

/// The capacity an `LruHashMap` was created with.
pub uninterp spec fn cache_capacity(m: LruHashMap<Vec<u8>, Vec<u8>>) -> nat;

/// Whether the order of use of `m` lists each of its keys exactly once.
pub open spec fn order_consistent(m: LruHashMap<Vec<u8>, Vec<u8>>) -> bool {
    &&& use_order(m).no_duplicates()
    &&& use_order(m).len() == cached(m).len()
    &&& cached(m).dom().finite()
    &&& forall|k: Seq<u8>| #[trigger] cached(m).contains_key(k) <==> use_order(m).contains(k)
}

/// `order` with `k` moved to the front.
pub open spec fn touched(order: Seq<Seq<u8>>, k: Seq<u8>) -> Seq<Seq<u8>> {
    seq![k] + order.filter(|x: Seq<u8>| x != k)
}

/// Relies on `LruHashMap::new`, which panics on a capacity below 2: the map
/// starts empty, with that capacity.
#[verifier::external_body]
fn cache_new(capacity: usize) -> (r: LruHashMap<Vec<u8>, Vec<u8>>)
    requires
        capacity > 1,
    ensures
        cached(r).is_empty(),
        use_order(r).len() == 0,
        cache_capacity(r) == capacity,
        order_consistent(r),
{
    LruHashMap::new(capacity)
}

/// Relies on `LruHashMap::push`: the key now maps to the value and becomes
/// the most recently used. A key already present is only updated. An absent
/// key is simply added while the map holds fewer entries than its capacity
/// (its node storage is allocated for at least that many, and a removed
/// entry's node is reused first).
#[verifier::external_body]
fn cache_push(m: &mut LruHashMap<Vec<u8>, Vec<u8>>, key: Vec<u8>, value: Vec<u8>)
    ensures
        cache_capacity(*final(m)) == cache_capacity(*old(m)),
        order_consistent(*final(m)),
        cached(*final(m)).contains_key(key@),
        cached(*final(m))[key@] == value@,
        cached(*old(m)).contains_key(key@) ==> cached(*final(m)) == cached(*old(m)).insert(
            key@,
            value@,
        ) && use_order(*final(m)) == touched(use_order(*old(m)), key@),
        !cached(*old(m)).contains_key(key@) && cached(*old(m)).len() < cache_capacity(*old(m))
            ==> cached(*final(m)) == cached(*old(m)).insert(key@, value@) && use_order(*final(m))
            == seq![key@] + use_order(*old(m)),
{
    m.push(key, value);
}

/// Relies on `LruHashMap::get_without_update`: whether the key is present,
/// leaving the order of use alone.
#[verifier::external_body]
fn cache_contains(m: &LruHashMap<Vec<u8>, Vec<u8>>, key: &[u8]) -> (r: bool)
    ensures
        r == cached(*m).contains_key(key@),
{
    m.get_without_update(key).is_some()
}

/// Relies on `LruHashMap::get`: the value under the key, if any; a key found
/// becomes the most recently used.
#[verifier::external_body]
fn cache_get(m: &mut LruHashMap<Vec<u8>, Vec<u8>>, key: &[u8]) -> (r: Option<Vec<u8>>)
    ensures
        cached(*final(m)) == cached(*old(m)),
        cache_capacity(*final(m)) == cache_capacity(*old(m)),
        order_consistent(*final(m)),
        cached(*old(m)).contains_key(key@) ==> r is Some && r->0@ == cached(*old(m))[key@]
            && use_order(*final(m)) == touched(use_order(*old(m)), key@),
        !cached(*old(m)).contains_key(key@) ==> r is None && use_order(*final(m)) == use_order(
            *old(m),
        ),
{
    m.get(key).cloned()
}

/// Relies on `LruMap::len` of `LruHashMap`: the number of entries held.
#[verifier::external_body]
fn cache_len(m: &LruHashMap<Vec<u8>, Vec<u8>>) -> (r: usize)
    ensures
        r == cached(*m).len(),
{
    m.len()
}

/// Relies on `LruMap::tail` and `EntryRef::take` of `LruHashMap`: the least
/// recently used entry, if any, leaves the map.
#[verifier::external_body]
fn cache_drop_oldest(m: &mut LruHashMap<Vec<u8>, Vec<u8>>)
    ensures
        cache_capacity(*final(m)) == cache_capacity(*old(m)),
        order_consistent(*final(m)),
        use_order(*old(m)).len() == 0 ==> cached(*final(m)) == cached(*old(m)) && use_order(
            *final(m),
        ) == use_order(*old(m)),
        use_order(*old(m)).len() > 0 ==> cached(*final(m)) == cached(*old(m)).remove(
            use_order(*old(m)).last(),
        ) && use_order(*final(m)) == use_order(*old(m)).drop_last(),
{
    if let Some(entry) = m.tail() {
        let _ = entry.take();
    }
}

/// Outcome of addressing a packet to an identity.
#[derive(PartialEq, Eq, Structural, Debug, Clone, Copy)]
pub enum SendError {
    /// No session is registered under the identity.
    NotFound,
    /// The session has not logged in and the packet needs a login.
    NotAuthenticated,
    /// Writing to the connection failed.
    Io,
}

/// What addressing `p` to the session `s` (if any) gives: the connection to
/// write to, or why nothing is written.
pub open spec fn send_outcome(s: Option<Session>, p: Packet) -> Result<u64, SendError> {
    match s {
        None => Err(SendError::NotFound),
        Some(s) => if !allowed_before_login(p) && !s.authenticated {
            Err(SendError::NotAuthenticated)
        } else {
            Ok(s.conn)
        },
    }
}

/// Every session in `m` sits under its own identity and respects the
/// session invariant.
pub open spec fn keyed_by_identity(m: Map<Seq<u8>, Session>) -> bool {
    forall|k: Seq<u8>| #[trigger] m.contains_key(k) ==> m[k].public_key@ == k && m[k].wf()
}

/// The session registered under `k` in `m`, if any.
pub open spec fn lookup(m: Map<Seq<u8>, Session>, k: Seq<u8>) -> Option<Session> {
    if m.contains_key(k) {
        Some(m[k])
    } else {
        None
    }
}

/// A table whose sessions sit under their own identities holds one session
/// per identity, and no session under two identities.
pub proof fn lemma_one_identity_per_session(m: Map<Seq<u8>, Session>, k1: Seq<u8>, k2: Seq<u8>)
    requires
        keyed_by_identity(m),
        m.contains_key(k1),
        m.contains_key(k2),
        m[k1] == m[k2],
    ensures
        k1 == k2,
{
}

/// In a well-formed table every logged-in session sits under a 32-byte
/// signing key.
pub proof fn lemma_authenticated_identity_len(m: Map<Seq<u8>, Session>, k: Seq<u8>)
    requires
        keyed_by_identity(m),
        m.contains_key(k),
        m[k].authenticated,
    ensures
        k.len() == SIGNING_KEY_LEN,
        m[k].public_key@.len() == SIGNING_KEY_LEN,
{
}

/// Whether `move_session` moves the session `s` to the identity `new_key`.
pub open spec fn can_move(s: Option<Session>, new_key: Seq<u8>) -> bool {
    match s {
        None => false,
        Some(s) => !s.authenticated || new_key.len() == SIGNING_KEY_LEN,
    }
}

/// Where a message for the session `s` (if any) can be written at once: to
/// a logged-in session's connection; otherwise it is queued.
pub open spec fn live_outcome(s: Option<Session>) -> Result<u64, SendError> {
    match s {
        None => Err(SendError::NotFound),
        Some(s) => if s.authenticated {
            Ok(s.conn)
        } else {
            Err(SendError::NotAuthenticated)
        },
    }
}

/// The shared table of live sessions, with a bounded cache of the encryption
/// keys that users published.
pub struct SessionManager {
    sessions: DashMap<Vec<u8>, Session>,
    session_enc_pubkeys: LruHashMap<Vec<u8>, Vec<u8>>,
}

impl SessionManager {
    /// The sessions by identity.
    pub closed spec fn sessions(&self) -> Map<Seq<u8>, Session> {
        registered(self.sessions)
    }

    /// The cached encryption keys by signing key.
    pub closed spec fn enc_cache(&self) -> Map<Seq<u8>, Seq<u8>> {
        cached(self.session_enc_pubkeys)
    }

    /// The session registered under `k`, if any.
    pub open spec fn session_at(&self, k: Seq<u8>) -> Option<Session> {
        lookup(self.sessions(), k)
    }

    /// Every session is registered under its own identity and respects the
    /// session invariant; the key cache is finite and within its capacity.
    pub open spec fn wf(&self) -> bool {
        &&& keyed_by_identity(self.sessions())
        &&& self.cache_ok()
        &&& self.enc_cache().dom().finite()
        &&& self.enc_cache().len() <= ENC_CACHE_CAPACITY
        &&& self.enc_use_order().len() == self.enc_cache().len()
    }

    /// The cached signing keys, from the most to the least recently used.
    pub closed spec fn enc_use_order(&self) -> Seq<Seq<u8>> {
        use_order(self.session_enc_pubkeys)
    }

    /// The cache was made with `ENC_CACHE_CAPACITY` and its order of use
    /// lists each cached key once.
    pub closed spec fn cache_ok(&self) -> bool {
        &&& order_consistent(self.session_enc_pubkeys)
        &&& cache_capacity(self.session_enc_pubkeys) == ENC_CACHE_CAPACITY
    }

    pub fn new() -> (r: SessionManager)
        ensures
            r.wf(),
            r.sessions().is_empty(),
            r.enc_cache().is_empty(),
    {
        SessionManager {
            sessions: sessions_new(),
            session_enc_pubkeys: cache_new(ENC_CACHE_CAPACITY),
        }
    }

    /// Registers `session` under its identity, replacing what was there.
    pub fn add_session(&mut self, public_key: Vec<u8>, session: Session)
        requires
            old(self).wf(),
            session.public_key@ == public_key@,
            session.wf(),
        ensures
            final(self).wf(),
            final(self).sessions() == old(self).sessions().insert(public_key@, session),
            final(self).enc_cache() == old(self).enc_cache(),
    {
        sessions_insert(&mut self.sessions, public_key, session);
        assert forall|k: Seq<u8>| #[trigger] self.sessions().contains_key(k) implies
            self.sessions()[k].public_key@ == k && self.sessions()[k].wf() by {
            if k != public_key@ {
                assert(old(self).sessions().contains_key(k));
            }
        }
    }

    /// Drops the session under `public_key`, if any.
    pub fn remove_session(&mut self, public_key: &[u8])
        requires
            old(self).wf(),
        ensures
            final(self).wf(),
            final(self).sessions() == old(self).sessions().remove(public_key@),
            final(self).enc_cache() == old(self).enc_cache(),
    {
        let _ = sessions_remove(&mut self.sessions, public_key);
        assert forall|k: Seq<u8>| #[trigger] self.sessions().contains_key(k) implies
            self.sessions()[k].public_key@ == k && self.sessions()[k].wf() by {
            assert(old(self).sessions().contains_key(k));
        }
    }

    /// Decides where `packet` addressed to `public_key` goes: the connection
    /// to write it to, or `NotFound` / `NotAuthenticated`. The caller writes
    /// the packet and reports success with `record_activity`.
    pub fn send_to_user(&self, public_key: &[u8], packet: &Packet) -> (r: Result<u64, SendError>)
        ensures
            r == send_outcome(self.session_at(public_key@), *packet),
    {
        match sessions_get(&self.sessions, public_key) {
            None => Err(SendError::NotFound),
            Some((conn, authenticated)) => {
                if packet.requires_auth() && !authenticated {
                    Err(SendError::NotAuthenticated)
                } else {
                    Ok(conn)
                }
            },
        }
    }

    /// The connection to which a message for `public_key` can be written at
    /// once: only a logged-in session takes live messages.
    pub fn live_connection(&self, public_key: &[u8]) -> (r: Result<u64, SendError>)
        ensures
            r == live_outcome(self.session_at(public_key@)),
    {
        match sessions_get(&self.sessions, public_key) {
            None => Err(SendError::NotFound),
            Some((conn, authenticated)) => {
                if authenticated {
                    Ok(conn)
                } else {
                    Err(SendError::NotAuthenticated)
                }
            },
        }
    }

    /// Stamps the session under `public_key`, if any, with the time of a
    /// successful write.
    pub fn record_activity(&mut self, public_key: &[u8], now: u64)
        requires
            old(self).wf(),
        ensures
            final(self).wf(),
            final(self).enc_cache() == old(self).enc_cache(),
            old(self).sessions().contains_key(public_key@) ==> final(self).sessions()
                == old(self).sessions().insert(
                public_key@,
                Session { last_activity: now, ..old(self).sessions()[public_key@] },
            ),
            !old(self).sessions().contains_key(public_key@) ==> final(self).sessions()
                == old(self).sessions(),
    {
        if let Some(mut s) = sessions_remove(&mut self.sessions, public_key) {
            s.update_activity(now);
            let key = s.public_key.clone();
            sessions_insert(&mut self.sessions, key, s);
            proof {
                assert(self.sessions() =~= old(self).sessions().insert(
                    public_key@,
                    Session { last_activity: now, ..old(self).sessions()[public_key@] },
                ));
            }
        } else {
            proof {
                assert(self.sessions() =~= old(self).sessions());
            }
        }
    }

    /// Marks the session under `public_key` as logged in. Nothing happens
    /// when no session is there, or when the key is not a signing key.
    pub fn set_authenticated(&mut self, public_key: &[u8])
        requires
            old(self).wf(),
        ensures
            final(self).wf(),
            final(self).enc_cache() == old(self).enc_cache(),
            old(self).sessions().contains_key(public_key@) && public_key@.len() == SIGNING_KEY_LEN
                ==> final(self).sessions() == old(self).sessions().insert(
                public_key@,
                Session { authenticated: true, ..old(self).sessions()[public_key@] },
            ),
            !(old(self).sessions().contains_key(public_key@) && public_key@.len()
                == SIGNING_KEY_LEN) ==> final(self).sessions() == old(self).sessions(),
    {
        if public_key.len() != SIGNING_KEY_LEN {
            return;
        }
        if let Some(mut s) = sessions_remove(&mut self.sessions, public_key) {
            s.authenticated = true;
            let key = s.public_key.clone();
            sessions_insert(&mut self.sessions, key, s);
            assert(self.sessions() =~= old(self).sessions().insert(
                public_key@,
                Session { authenticated: true, ..old(self).sessions()[public_key@] },
            ));
        } else {
            assert(self.sessions() =~= old(self).sessions());
        }
    }

    /// Moves the session under `old_key` to `new_key`, which becomes its
    /// identity; a session already under `new_key` is replaced. Nothing
    /// happens when no session is under `old_key`, or when it is logged in and
    /// `new_key` is not a signing key.
    pub fn move_session(&mut self, old_key: &[u8], new_key: Vec<u8>) -> (r: bool)
        requires
            old(self).wf(),
        ensures
            final(self).wf(),
            r == can_move(old(self).session_at(old_key@), new_key@),
            final(self).enc_cache() == old(self).enc_cache(),
            can_move(old(self).session_at(old_key@), new_key@) ==> final(self).sessions()
                == old(self).sessions().remove(old_key@).insert(
                new_key@,
                Session { public_key: new_key, ..old(self).sessions()[old_key@] },
            ),
            !can_move(old(self).session_at(old_key@), new_key@) ==> final(self).sessions()
                == old(self).sessions(),
    {
        let ghost before = self.sessions();
        match sessions_get(&self.sessions, old_key) {
            None => {
                assert(self.sessions() =~= before);
                return false;
            },
            Some((_, authenticated)) => {
                if authenticated && new_key.len() != SIGNING_KEY_LEN {
                    return false;
                }
            },
        }
        if let Some(mut s) = sessions_remove(&mut self.sessions, old_key) {
            s.public_key = new_key;
            let key = s.public_key.clone();
            sessions_insert(&mut self.sessions, key, s);
            assert(self.sessions() =~= before.remove(old_key@).insert(
                new_key@,
                Session { public_key: new_key, ..before[old_key@] },
            ));
            true
        } else {
            false
        }
    }

    /// Caches `enc_pub_key` as the encryption key of `auth_pub_key`, which
    /// becomes the most recently used. A key already cached is only updated;
    /// a new key added to a full cache pushes out the least recently used one.
    pub fn put_session_enc_pubkey(&mut self, auth_pub_key: Vec<u8>, enc_pub_key: Vec<u8>)
        requires
            old(self).wf(),
        ensures
            final(self).wf(),
            final(self).sessions() == old(self).sessions(),
            final(self).enc_cache().contains_key(auth_pub_key@),
            final(self).enc_cache()[auth_pub_key@] == enc_pub_key@,
            old(self).enc_cache().contains_key(auth_pub_key@) ==> final(self).enc_cache() == old(
                self,
            ).enc_cache().insert(auth_pub_key@, enc_pub_key@) && final(self).enc_use_order()
                == touched(old(self).enc_use_order(), auth_pub_key@),
            !old(self).enc_cache().contains_key(auth_pub_key@) && old(self).enc_cache().len()
                < ENC_CACHE_CAPACITY ==> final(self).enc_cache() == old(self).enc_cache().insert(
                auth_pub_key@,
                enc_pub_key@,
            ) && final(self).enc_use_order() == seq![auth_pub_key@] + old(self).enc_use_order(),
            !old(self).enc_cache().contains_key(auth_pub_key@) && old(self).enc_cache().len()
                >= ENC_CACHE_CAPACITY ==> final(self).enc_cache() == old(
                self,
            ).enc_cache().remove(old(self).enc_use_order().last()).insert(
                auth_pub_key@,
                enc_pub_key@,
            ) && final(self).enc_use_order() == seq![auth_pub_key@] + old(
                self,
            ).enc_use_order().drop_last(),
    {
        let ghost k = auth_pub_key@;
        let ghost v = enc_pub_key@;
        let ghost before = self.enc_cache();
        let ghost order = self.enc_use_order();
        let present = cache_contains(&self.session_enc_pubkeys, auth_pub_key.as_slice());
        if !present && cache_len(&self.session_enc_pubkeys) >= ENC_CACHE_CAPACITY {
            proof {
                let last = order.last();
                assert(order[order.len() - 1] == last);
                assert(order.contains(last));
                assert(before.contains_key(last));
            }
            cache_drop_oldest(&mut self.session_enc_pubkeys);
            assert(self.enc_cache().len() < ENC_CACHE_CAPACITY);
        }
        let ghost mid = self.enc_cache();
        assert(!present ==> !mid.contains_key(k));
        cache_push(&mut self.session_enc_pubkeys, auth_pub_key, enc_pub_key);
        proof {
            if present {
                assert(self.enc_cache().dom() =~= before.dom());
            } else {
                assert(self.enc_cache().dom() =~= mid.dom().insert(k));
            }
        }
    }

    /// The cached encryption key of `auth_pub_key`, if any.
    pub fn get_session_enc_pubkey(&mut self, auth_pub_key: &[u8]) -> (r: Option<Vec<u8>>)
        requires
            old(self).wf(),
        ensures
            final(self).wf(),
            final(self).sessions() == old(self).sessions(),
            final(self).enc_cache() == old(self).enc_cache(),
            old(self).enc_cache().contains_key(auth_pub_key@) ==> (r is Some) && r->0@
                == old(self).enc_cache()[auth_pub_key@] && final(self).enc_use_order() == touched(
                old(self).enc_use_order(),
                auth_pub_key@,
            ),
            !old(self).enc_cache().contains_key(auth_pub_key@) ==> (r is None)
                && final(self).enc_use_order() == old(self).enc_use_order(),
    {
        cache_get(&mut self.session_enc_pubkeys, auth_pub_key)
    }
}

} // verus!
