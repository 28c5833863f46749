use vstd::prelude::*;
use rand::RngCore;
use crate::bytes::bytes_eq;

verus! {

/// Length in bytes of a login challenge.
pub const NONCE_LEN: usize = 32;

/// Relies on `RngCore::try_fill_bytes` of `rand::rngs::OsRng`: asks the
/// operating system's secure random source to overwrite the buffer, keeping
/// its length, and reports whether it succeeded.
#[verifier::external_body]
pub(crate) fn fill_random(buf: &mut Vec<u8>) -> (r: bool)
    ensures
        final(buf)@.len() == old(buf)@.len(),
{
    rand::rngs::OsRng.try_fill_bytes(buf.as_mut_slice()).is_ok()
}

/// The outstanding login challenges, at most one per signing key. The store
/// is a vector of (key, nonce) pairs with unique keys: vstd's model of std's
/// `HashMap` only covers key types it knows to hash consistently with their
/// equality (primitive types), and byte-vector keys are not among them.
pub struct ChallengeStore {
    entries: Vec<(Vec<u8>, Vec<u8>)>,
    pending: Ghost<Map<Seq<u8>, Seq<u8>>>,
}

impl View for ChallengeStore {
    type V = Map<Seq<u8>, Seq<u8>>;

    /// The nonce issued to each signing key and not yet consumed.
    closed spec fn view(&self) -> Map<Seq<u8>, Seq<u8>> {
        self.pending@
    }
}

impl ChallengeStore {
    /// Keys are unique and the entries hold exactly the issued nonces.
    pub closed spec fn wf(&self) -> bool {
        &&& forall|i: int, j: int|
            0 <= i < j < self.entries@.len() ==> #[trigger] self.entries@[i].0@
                != #[trigger] self.entries@[j].0@
        &&& forall|i: int|
            0 <= i < self.entries@.len() ==> self.pending@.contains_key(
                #[trigger] self.entries@[i].0@,
            ) && self.pending@[self.entries@[i].0@] == self.entries@[i].1@
        &&& forall|k: Seq<u8>| #[trigger]
            self.pending@.contains_key(k) ==> exists|i: int|
                0 <= i < self.entries@.len() && #[trigger] self.entries@[i].0@ == k
    }

    pub fn new() -> (r: ChallengeStore)
        ensures
            r.wf(),
            r@ == Map::<Seq<u8>, Seq<u8>>::empty(),
    {
        ChallengeStore { entries: Vec::new(), pending: Ghost(Map::empty()) }
    }

    /// Position of the entry for `key`, if there is one.
    fn find(&self, key: &[u8]) -> (r: Option<usize>)
        requires
            self.wf(),
        ensures
            r matches Some(i) ==> i < self.entries@.len() && self.entries@[i as int].0@ == key@,
            r is None ==> !self@.contains_key(key@),
    {
        let mut i: usize = 0;
        while i < self.entries.len()
            invariant
                self.wf(),
                i <= self.entries@.len(),
                forall|j: int| 0 <= j < i ==> #[trigger] self.entries@[j].0@ != key@,
            decreases self.entries@.len() - i,
        {
            if bytes_eq(self.entries[i].0.as_slice(), key) {
                return Some(i);
            }
            i = i + 1;
        }
        None
    }

    /// Drops the entry at `i`, whose key is `key`.
    fn remove_at(&mut self, i: usize, key: Ghost<Seq<u8>>) -> (r: Vec<u8>)
        requires
            old(self).wf(),
            i < old(self).entries@.len(),
            old(self).entries@[i as int].0@ == key@,
        ensures
            final(self).wf(),
            final(self)@ == old(self)@.remove(key@),
            r@ == old(self)@[key@],
    {
        let ghost before = self.entries@;
        let (_, nonce) = self.entries.remove(i);
        self.pending = Ghost(self.pending@.remove(key@));
        assert forall|k: Seq<u8>| #[trigger] self.pending@.contains_key(k) implies exists|j: int|
            0 <= j < self.entries@.len() && #[trigger] self.entries@[j].0@ == k by {
            let j0 = choose|j: int| 0 <= j < before.len() && #[trigger] before[j].0@ == k;
            assert(j0 != i);
            if j0 < i {
                assert(self.entries@[j0].0@ == k);
            } else {
                assert(self.entries@[j0 - 1].0@ == k);
            }
        }
        nonce
    }

    /// Records `nonce` as the challenge of `key`, replacing an earlier one.
    pub fn issue(&mut self, key: Vec<u8>, nonce: Vec<u8>)
        requires
            old(self).wf(),
        ensures
            final(self).wf(),
            final(self)@ == old(self)@.insert(key@, nonce@),
    {
        if let Some(i) = self.find(key.as_slice()) {
            let _ = self.remove_at(i, Ghost(key@));
        }
        let ghost before = self.entries@;
        let ghost k = key@;
        let ghost n = nonce@;
        assert(!self.pending@.contains_key(k));
        self.entries.push((key, nonce));
        self.pending = Ghost(self.pending@.insert(k, n));
        assert forall|i: int, j: int|
            0 <= i < j < self.entries@.len() implies #[trigger] self.entries@[i].0@
            != #[trigger] self.entries@[j].0@ by {
            if j == before.len() {
                assert(self.entries@[i] == before[i]);
            }
        }
        assert forall|k2: Seq<u8>| #[trigger] self.pending@.contains_key(k2) implies exists|j: int|
            0 <= j < self.entries@.len() && #[trigger] self.entries@[j].0@ == k2 by {
            if k2 == k {
                assert(self.entries@[before.len() as int].0@ == k2);
            } else {
                let j0 = choose|j: int| 0 <= j < before.len() && #[trigger] before[j].0@ == k2;
                assert(self.entries@[j0] == before[j0]);
            }
        }
        assert(self@ == old(self)@.insert(key@, nonce@));
    }

    /// Takes the challenge of `key` out of the store, if there is one.
    pub fn consume(&mut self, key: &[u8]) -> (r: Option<Vec<u8>>)
        requires
            old(self).wf(),
        ensures
            final(self).wf(),
            final(self)@ == old(self)@.remove(key@),
            old(self)@.contains_key(key@) ==> r is Some && r->0@ == old(self)@[key@],
            !old(self)@.contains_key(key@) ==> r is None,
    {
        match self.find(key) {
            None => {
                assert(self@ =~= old(self)@.remove(key@));
                None
            },
            Some(i) => Some(self.remove_at(i, Ghost(key@))),
        }
    }
}

} // verus!
