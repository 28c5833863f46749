use vstd::prelude::*;
use crate::manager::{SendError, SessionManager, live_outcome, lookup, send_outcome};
use crate::packet::Packet;
use crate::session::Session;
use crate::bytes::copy_bytes;

verus! {

/// An envelope waiting in the offline queue of its recipient.
pub struct PendingMessage {
    pub recipient_pubkey: Vec<u8>,
    pub sender_pubkey: Vec<u8>,
    pub sender_enc_pubkey: Vec<u8>,
    pub encrypted_content: Vec<u8>,
}

/// Whether `p` is the `MessageReceived` packet that carries `m`.
pub open spec fn carries(p: Packet, m: PendingMessage) -> bool {
    p matches Packet::MessageReceived { sender_pubkey, sender_enc_pubkey, encrypted_content }
        && sender_pubkey@ == m.sender_pubkey@ && sender_enc_pubkey@ == m.sender_enc_pubkey@
        && encrypted_content@ == m.encrypted_content@
}

/// How one message is routed: `live` says whether and where it can be
/// written at once. When it cannot, or the write fails, `envelope` goes to
/// the offline queue. Either way the sender is acknowledged afterwards.
pub struct RoutePlan {
    pub live: Result<u64, SendError>,
    pub packet: Packet,
    pub envelope: PendingMessage,
}

/// Whether `plan` routes `encrypted_content` from `sender` (encryption key
/// `sender_enc`) to `recipient` against the sessions `sessions`.
pub open spec fn plans_route(
    sessions: Map<Seq<u8>, Session>,
    sender: Seq<u8>,
    sender_enc: Seq<u8>,
    recipient: Seq<u8>,
    encrypted_content: Seq<u8>,
    plan: RoutePlan,
) -> bool {
    &&& plan.envelope.recipient_pubkey@ == recipient
    &&& plan.envelope.sender_pubkey@ == sender
    &&& plan.envelope.sender_enc_pubkey@ == sender_enc
    &&& plan.envelope.encrypted_content@ == encrypted_content
    &&& carries(plan.packet, plan.envelope)
    &&& plan.live == live_outcome(lookup(sessions, recipient))
}

/// A message is written at once only to a logged-in session registered
/// under its recipient, and then to that session's connection. With no
/// session there, or one that has not logged in, it goes to the queue.
pub proof fn lemma_live_delivery_needs_session(
    sessions: Map<Seq<u8>, Session>,
    sender: Seq<u8>,
    sender_enc: Seq<u8>,
    recipient: Seq<u8>,
    encrypted_content: Seq<u8>,
    plan: RoutePlan,
)
    requires
        plans_route(sessions, sender, sender_enc, recipient, encrypted_content, plan),
    ensures
        plan.live is Ok ==> sessions.contains_key(recipient) && sessions[recipient].authenticated
            && plan.live == Ok::<u64, SendError>(sessions[recipient].conn),
        plan.live is Err ==> !sessions.contains_key(recipient) || !sessions[recipient].authenticated,
{
}

/// After the live attempt of a route plan with outcome `live` and envelope
/// `envelope`: the envelope to queue, unless the message was written live.
/// `written` says whether the write to the planned connection succeeded.
pub fn after_live_write(live: Result<u64, SendError>, envelope: PendingMessage, written: bool) -> (r:
    Option<PendingMessage>)
    ensures
        (r is None) == (written && live is Ok),
        r matches Some(e) ==> e == envelope,
{
    if written && live.is_ok() {
        None
    } else {
        Some(envelope)
    }
}

/// The `MessageReceived` packet for an envelope.
pub fn received_packet(m: &PendingMessage) -> (p: Packet)
    ensures
        carries(p, *m),
{
    Packet::MessageReceived {
        sender_pubkey: m.sender_pubkey.clone(),
        sender_enc_pubkey: m.sender_enc_pubkey.clone(),
        encrypted_content: m.encrypted_content.clone(),
    }
}

/// Plans the delivery of `encrypted_content` from `sender_pubkey`, whose
/// encryption key is `sender_enc_pubkey`, to `recipient_pubkey`: live when a
/// logged-in session is registered under the recipient, otherwise through
/// the queue.
pub fn route_message(
    sessions: &SessionManager,
    sender_pubkey: &[u8],
    sender_enc_pubkey: &[u8],
    recipient_pubkey: Vec<u8>,
    encrypted_content: Vec<u8>,
) -> (r: RoutePlan)
    ensures
        plans_route(
            sessions.sessions(),
            sender_pubkey@,
            sender_enc_pubkey@,
            recipient_pubkey@,
            encrypted_content@,
            r,
        ),
{
    let envelope = PendingMessage {
        recipient_pubkey,
        sender_pubkey: copy_bytes(sender_pubkey),
        sender_enc_pubkey: copy_bytes(sender_enc_pubkey),
        encrypted_content,
    };
    let packet = received_packet(&envelope);
    let live = sessions.live_connection(envelope.recipient_pubkey.as_slice());
    RoutePlan { live, packet, envelope }
}

/// Where the next drained packet for `user` is written: nowhere once an
/// earlier write of the same drain failed, since delivery stops at the first
/// failure; otherwise to the connection that `send_to_user` gives, if any.
pub fn next_delivery(sessions: &SessionManager, user: &[u8], packet: &Packet, failed: bool) -> (r:
    Option<u64>)
    ensures
        failed ==> r is None,
        !failed ==> r == match send_outcome(lookup(sessions.sessions(), user@), *packet) {
            Ok(conn) => Some(conn),
            Err(_) => None::<u64>,
        },
{
    if failed {
        return None;
    }
    match sessions.send_to_user(user, packet) {
        Ok(conn) => Some(conn),
        Err(_) => None,
    }
}

/// The packets that hand the drained envelopes to their recipient, in the
/// order in which they were queued.
pub fn pending_packets(pending: &Vec<PendingMessage>) -> (r: Vec<Packet>)
    ensures
        r@.len() == pending@.len(),
        forall|i: int| 0 <= i < r@.len() ==> carries(#[trigger] r@[i], pending@[i]),
{
    let mut out: Vec<Packet> = Vec::new();
    let mut i: usize = 0;
    while i < pending.len()
        invariant
            i <= pending@.len(),
            out@.len() == i,
            forall|j: int| 0 <= j < i ==> carries(#[trigger] out@[j], pending@[j]),
        decreases pending@.len() - i,
    {
        out.push(received_packet(&pending[i]));
        i = i + 1;
    }
    out
}

} // verus!
