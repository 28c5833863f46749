use vstd::prelude::*;
use ed25519_dalek::{Signature, Verifier, VerifyingKey};
use crate::challenge::{ChallengeStore, NONCE_LEN, fill_random};
use crate::session::SIGNING_KEY_LEN;

verus! {

/// Length in bytes of an Ed25519 signature.
pub const SIGNATURE_LEN: usize = 64;

/// Whether Ed25519 accepts `signature` over `message` under the encoded
/// verifying key `public_key`: the key decodes to a curve point and the
/// signature checks against it.
pub uninterp spec fn ed25519_accepts(
    public_key: Seq<u8>,
    message: Seq<u8>,
    signature: Seq<u8>,
) -> bool;

/// Relies on ed25519-dalek's `VerifyingKey::from_bytes` (decoding the key),
/// `Signature::from_bytes` and `Verifier::verify` (checking the signature),
/// which together decide Ed25519 verification from the three byte strings.
#[verifier::external_body]
fn signature_valid(public_key: &[u8], message: &[u8], signature: &[u8]) -> (r: bool)
    requires
        public_key@.len() == SIGNING_KEY_LEN,
        signature@.len() == SIGNATURE_LEN,
    ensures
        r == ed25519_accepts(public_key@, message@, signature@),
{
    let key: &[u8; 32] = public_key.try_into().unwrap();
    let sig: &[u8; 64] = signature.try_into().unwrap();
    match VerifyingKey::from_bytes(key) {
        Ok(k) => k.verify(message, &Signature::from_bytes(sig)).is_ok(),
        Err(_) => false,
    }
}

/// Whether a login with `signature` under `public_key` succeeds against the
/// outstanding challenges `challenges`.
pub open spec fn login_accepted(
    challenges: Map<Seq<u8>, Seq<u8>>,
    public_key: Seq<u8>,
    signature: Seq<u8>,
) -> bool {
    &&& challenges.contains_key(public_key)
    &&& public_key.len() == SIGNING_KEY_LEN
    &&& signature.len() == SIGNATURE_LEN
    &&& ed25519_accepts(public_key, challenges[public_key], signature)
}

/// Issues login challenges and checks the answers.
pub struct AuthService {
    challenges: ChallengeStore,
}

impl AuthService {
    /// The outstanding challenge of each signing key.
    pub closed spec fn challenges(&self) -> Map<Seq<u8>, Seq<u8>> {
        self.challenges@
    }

    pub closed spec fn wf(&self) -> bool {
        self.challenges.wf()
    }

    pub fn new() -> (r: AuthService)
        ensures
            r.wf(),
            r.challenges().is_empty(),
    {
        AuthService { challenges: ChallengeStore::new() }
    }

    /// Draws a fresh random nonce and makes it the challenge of `public_key`,
    /// replacing any earlier one. When the random source fails, nothing is
    /// issued and the store is left as it was.
    pub fn generate_challenge(&mut self, public_key: Vec<u8>) -> (r: Option<Vec<u8>>)
        requires
            old(self).wf(),
        ensures
            final(self).wf(),
            r matches Some(c) ==> c@.len() == NONCE_LEN && final(self).challenges() == old(
                self,
            ).challenges().insert(public_key@, c@),
            r is None ==> final(self).challenges() == old(self).challenges(),
    {
        let mut challenge: Vec<u8> = vec![0u8; NONCE_LEN];
        if !fill_random(&mut challenge) {
            return None;
        }
        self.challenges.issue(public_key, challenge.clone());
        Some(challenge)
    }

    /// Checks a login: the challenge of `public_key` is consumed whatever the
    /// outcome, and the login is accepted when there was one, the key and the
    /// signature have the right lengths, and the signature over the challenge
    /// verifies.
    pub fn verify_login(&mut self, public_key: &[u8], signature: &[u8]) -> (r: bool)
        requires
            old(self).wf(),
        ensures
            final(self).wf(),
            final(self).challenges() == old(self).challenges().remove(public_key@),
            r == login_accepted(old(self).challenges(), public_key@, signature@),
    {
        let challenge = match self.challenges.consume(public_key) {
            Some(c) => c,
            None => return false,
        };
        if public_key.len() != SIGNING_KEY_LEN || signature.len() != SIGNATURE_LEN {
            return false;
        }
        signature_valid(public_key, challenge.as_slice(), signature)
    }
}

/// A challenge answered with a valid signature is accepted once: the first
/// login consumes it, so the same answer is refused the second time.
pub proof fn lemma_challenge_single_use(
    challenges: Map<Seq<u8>, Seq<u8>>,
    public_key: Seq<u8>,
    nonce: Seq<u8>,
    signature: Seq<u8>,
)
    requires
        public_key.len() == SIGNING_KEY_LEN,
        signature.len() == SIGNATURE_LEN,
        ed25519_accepts(public_key, nonce, signature),
    ensures
        login_accepted(challenges.insert(public_key, nonce), public_key, signature),
        !login_accepted(
            challenges.insert(public_key, nonce).remove(public_key),
            public_key,
            signature,
        ),
{
}

} // verus!
