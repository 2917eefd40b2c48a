use vstd::prelude::*;
use vstd::bytes::{
    lemma_auto_spec_u64_to_from_le_bytes, spec_u64_from_le_bytes, spec_u64_to_le_bytes,
    u64_from_le_bytes, u64_to_le_bytes,
};
use vstd::slice::{slice_subrange, slice_to_vec};
use vstd::utf8::encode_utf8;

use crate::error::IpcError;
use crate::message::{
    decode_message, encode_message, lemma_message_roundtrip, spec_decode_message,
    spec_encode_message, Message, MessageView,
};

verus! {

/// Width of the length prefix that delimits every frame: one 64-bit word.
pub const PREFIX_LEN: usize = 8;

/// One frame on the wire: a 64-bit little-endian length prefix followed by
/// exactly that many payload bytes.  The prefix is the sole delimiter; a
/// frame carries exactly one encoded message.
pub open spec fn spec_frame(payload: Seq<u8>) -> Seq<u8> {
    spec_u64_to_le_bytes(payload.len() as u64) + payload
}

/// What one `receive` observes on a byte stream of which `bytes` is all that
/// the peer wrote before closing: fewer bytes than the prefix announces fail
/// with `UnexpectedEof`; a complete frame yields its payload, whatever may
/// follow it on the stream.
pub open spec fn spec_parse_frame(bytes: Seq<u8>) -> Result<Seq<u8>, IpcError> {
    if bytes.len() < PREFIX_LEN {
        Err(IpcError::UnexpectedEof)
    } else {
        let n = spec_u64_from_le_bytes(bytes.subrange(0, PREFIX_LEN as int));
        if bytes.len() - PREFIX_LEN < n {
            Err(IpcError::UnexpectedEof)
        } else {
            Ok(bytes.subrange(PREFIX_LEN as int, PREFIX_LEN as int + n as int))
        }
    }
}

/// A full `receive` on such a stream: frame reassembly, then decoding.
pub open spec fn spec_receive(bytes: Seq<u8>) -> Result<MessageView, IpcError> {
    match spec_parse_frame(bytes) {
        Ok(payload) => match spec_decode_message(payload) {
            Some(m) => Ok(m),
            None => Err(IpcError::DecodeError),
        },
        Err(e) => Err(e),
    }
}

/// Serializes a message and delimits it with its length prefix: the exact
/// byte sequence that one `send` writes to the pipe.
pub fn encode_frame(m: &Message) -> (r: Vec<u8>)
    ensures
        r@ == spec_frame(spec_encode_message(m@)),
{
    let mut payload = encode_message(m);
    let mut out = u64_to_le_bytes(payload.len() as u64);
    out.append(&mut payload);
    proof {
        assert(out@ =~= spec_frame(spec_encode_message(m@)));
    }
    out
}

/// Reassembles the first frame of `bytes` and returns its payload.
///
/// A frame with prefix `L` followed by at least `L` bytes is reassembled
/// without the caller knowing `L` in advance; a stream cut short — inside
/// the prefix or inside the payload — fails with `UnexpectedEof` and never
/// yields bytes the peer did not write.
pub fn parse_frame(bytes: &[u8]) -> (r: Result<Vec<u8>, IpcError>)
    ensures
        match spec_parse_frame(bytes@) {
            Ok(payload) => r matches Ok(v) && v@ == payload,
            Err(e) => r matches Err(a) && a == e,
        },
{
    if bytes.len() < PREFIX_LEN {
        return Err(IpcError::UnexpectedEof);
    }
    let n = u64_from_le_bytes(slice_subrange(bytes, 0, PREFIX_LEN));
    let rest = bytes.len() - PREFIX_LEN;
    if (rest as u64) < n {
        return Err(IpcError::UnexpectedEof);
    }
    let payload = slice_subrange(bytes, PREFIX_LEN, PREFIX_LEN + (n as usize));
    Ok(slice_to_vec(payload))
}

/// Announced payload length of a complete prefix, or `None` when what was
/// read is not a whole prefix or announces more than this host can address.
/// The caller reads exactly this many payload bytes next.
pub fn frame_payload_len(prefix: &[u8]) -> (r: Option<usize>)
    ensures
        match r {
            Some(n) => prefix@.len() == PREFIX_LEN
                && n == spec_u64_from_le_bytes(prefix@)
                && n <= usize::MAX,
            None => prefix@.len() != PREFIX_LEN
                || spec_u64_from_le_bytes(prefix@) > usize::MAX,
        },
{
    if prefix.len() != PREFIX_LEN {
        return None;
    }
    let n = u64_from_le_bytes(prefix);
    if n > (usize::MAX as u64) {
        return None;
    }
    Some(n as usize)
}

/// One whole `receive` over the bytes the peer wrote before closing:
/// reassembles the first frame and decodes its payload into a message,
/// failing with `UnexpectedEof` on a cut-short stream and with
/// `DecodeError` on a payload that is not one whole message.
pub fn receive_from_bytes(bytes: &[u8]) -> (r: Result<Message, IpcError>)
    ensures
        match spec_receive(bytes@) {
            Ok(v) => r matches Ok(m) && m@ == v,
            Err(e) => r matches Err(a) && a == e,
        },
{
    match parse_frame(bytes) {
        Ok(payload) => decode_message(payload.as_slice()),
        Err(e) => Err(e),
    }
}

/// Frame-delimiting law: for any payload length, a frame with prefix `L`
/// followed by exactly `L` bytes — whatever else follows on the stream —
/// reassembles to exactly that payload.
pub proof fn lemma_frame_roundtrip(payload: Seq<u8>, tail: Seq<u8>)
    requires
        payload.len() <= u64::MAX,
    ensures
        spec_parse_frame(spec_frame(payload) + tail) == Ok::<Seq<u8>, IpcError>(payload),
{
    lemma_auto_spec_u64_to_from_le_bytes();
    let bytes = spec_frame(payload) + tail;
    assert(bytes.subrange(0, PREFIX_LEN as int) =~= spec_u64_to_le_bytes(payload.len() as u64));
    assert(bytes.subrange(PREFIX_LEN as int, PREFIX_LEN as int + payload.len() as int)
        =~= payload);
}

/// Truncation law: when the peer closes after writing only part of the
/// length prefix, the receive fails with `UnexpectedEof` — it never yields
/// a message, corrupt or otherwise.
pub proof fn lemma_partial_prefix_eof(bytes: Seq<u8>)
    requires
        bytes.len() < PREFIX_LEN,
    ensures
        spec_receive(bytes) == Err::<MessageView, IpcError>(IpcError::UnexpectedEof),
{
}

/// End-to-end law: what one side sends, the other receives unchanged — a
/// full frame written with [`encode_frame`] comes back as the very message,
/// for every supported variant.
pub proof fn lemma_send_receive(m: MessageView)
    requires
        m matches MessageView::Print(text) ==> encode_utf8(text).len() + 12 <= u64::MAX,
    ensures
        spec_receive(spec_frame(spec_encode_message(m))) == Ok::<MessageView, IpcError>(m),
{
    assert(spec_encode_message(m).len() <= u64::MAX) by {
        vstd::bytes::lemma_auto_spec_u32_to_from_le_bytes();
        lemma_auto_spec_u64_to_from_le_bytes();
    }
    lemma_frame_roundtrip(spec_encode_message(m), Seq::empty());
    assert(spec_frame(spec_encode_message(m)) + Seq::<u8>::empty() =~= spec_frame(
        spec_encode_message(m),
    ));
    lemma_message_roundtrip(m);
}

} // verus!
