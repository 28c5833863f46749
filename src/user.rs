use vstd::prelude::*;
use crate::packet::Packet;

verus! {

/// A user's published profile, as the profile table stores it.
pub struct UserProfile {
    pub public_key: Vec<u8>,
    pub username: Option<String>,
    pub first_name: String,
    pub last_name: Option<String>,
    pub encryption_pubkey: Vec<u8>,
}

/// The answer to a username search: the profile found, or `UserNotFound`.
pub fn search_reply(found: Option<UserProfile>) -> (r: Packet)
    ensures
        found is None ==> r == Packet::UserNotFound,
        found matches Some(u) ==> r == (Packet::UserFound {
            public_key: u.public_key,
            encryption_pubkey: u.encryption_pubkey,
            username: u.username,
            first_name: u.first_name,
            last_name: u.last_name,
        }),
{
    match found {
        Some(u) => Packet::UserFound {
            public_key: u.public_key,
            encryption_pubkey: u.encryption_pubkey,
            username: u.username,
            first_name: u.first_name,
            last_name: u.last_name,
        },
        None => Packet::UserNotFound,
    }
}

} // verus!
