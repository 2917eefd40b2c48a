use vstd::prelude::*;
use vstd::bytes::{
    lemma_auto_spec_u32_to_from_le_bytes, spec_u32_from_le_bytes, spec_u32_to_le_bytes,
    u32_from_le_bytes, u32_to_le_bytes,
};
use vstd::slice::slice_subrange;

use crate::message::{Message, MessageView};
use crate::paths::{read_pipe_path, spec_read_path, spec_write_path, write_pipe_path};

verus! {

/// Width of the session identity on the rendezvous pipe: one unsigned
/// 32-bit integer, written once, with no framing.
pub const SESSION_ID_LEN: usize = 4;

/// The handshake wire form of a session identity: its four bytes in
/// little-endian order.
pub open spec fn spec_session_id_bytes(id: u32) -> Seq<u8> {
    spec_u32_to_le_bytes(id)
}

/// Encodes a session identity as the client writes it into the rendezvous
/// pipe.
pub fn session_id_to_bytes(id: u32) -> (r: Vec<u8>)
    ensures
        r@ == spec_session_id_bytes(id),
        r@.len() == SESSION_ID_LEN,
{
    u32_to_le_bytes(id)
}

/// Recovers the session identity from what the server read off the
/// rendezvous pipe; anything but exactly four bytes is no identity.
pub fn session_id_from_bytes(bytes: &[u8]) -> (r: Option<u32>)
    ensures
        match r {
            Some(id) => bytes@.len() == SESSION_ID_LEN && spec_session_id_bytes(id) == bytes@,
            None => bytes@.len() != SESSION_ID_LEN,
        },
{
    if bytes.len() != SESSION_ID_LEN {
        return None;
    }
    let id = u32_from_le_bytes(slice_subrange(bytes, 0, SESSION_ID_LEN));
    proof {
        lemma_auto_spec_u32_to_from_le_bytes();
        assert(bytes@.subrange(0, SESSION_ID_LEN as int) =~= bytes@);
    }
    Some(id)
}

/// Identity round trip: the server always reads back exactly the identity
/// the client wrote.
pub proof fn lemma_session_id_roundtrip(id: u32)
    ensures
        spec_u32_from_le_bytes(spec_session_id_bytes(id)) == id,
        spec_session_id_bytes(id).len() == SESSION_ID_LEN,
{
    lemma_auto_spec_u32_to_from_le_bytes();
}

/// The two private pipe paths one endpoint opens for a session, in the
/// order the handshake prescribes: first the pipe it reads from, then the
/// pipe it writes to.
pub struct ChannelPaths {
    pub read_from: String,
    pub write_to: String,
}

/// The server's view of a session's private pipes: it reads requests from
/// the request pipe and writes replies into the reply pipe.
pub fn server_channel_paths(id: u32) -> (r: ChannelPaths)
    ensures
        r.read_from@ == spec_read_path(id),
        r.write_to@ == spec_write_path(id),
{
    ChannelPaths { read_from: read_pipe_path(id), write_to: write_pipe_path(id) }
}

/// The client's view of the same pipes, with the roles inverted: it writes
/// its request into the request pipe and reads the reply from the reply
/// pipe.
pub fn client_channel_paths(id: u32) -> (r: ChannelPaths)
    ensures
        r.read_from@ == spec_write_path(id),
        r.write_to@ == spec_read_path(id),
{
    ChannelPaths { read_from: write_pipe_path(id), write_to: read_pipe_path(id) }
}

/// The server handler's decision on the one request of a session: a
/// `Print` is answered with `Ack`; an `Ack` is no request, so there is
/// nothing to answer and the session is in error.
pub fn handler_reply(request: &Message) -> (r: Option<Message>)
    ensures
        request@ matches MessageView::Print(_) ==> r matches Some(reply) && reply@
            == MessageView::Ack,
        request@ is Ack ==> r is None,
{
    match request {
        Message::Print(_) => Some(Message::Ack),
        Message::Ack => None,
    }
}

/// The text a received message asks its receiver to print: the payload of a
/// `Print`, nothing for an `Ack`.
pub fn printable_text(m: &Message) -> (r: Option<&String>)
    ensures
        m@ matches MessageView::Print(text) ==> r matches Some(s) && s@ == text,
        m@ is Ack ==> r is None,
{
    match m {
        Message::Print(s) => Some(s),
        Message::Ack => None,
    }
}

/// The one-shot request a client sends for a text.
pub fn client_request(text: String) -> (m: Message)
    ensures
        m@ == MessageView::Print(text@),
{
    Message::Print(text)
}

} // verus!
