use vstd::prelude::*;
use vstd::bytes::{
    lemma_auto_spec_u32_to_from_le_bytes, lemma_auto_spec_u64_to_from_le_bytes,
    spec_u32_from_le_bytes, spec_u32_to_le_bytes, spec_u64_from_le_bytes, spec_u64_to_le_bytes,
    u32_to_le_bytes, u64_to_le_bytes, u32_from_le_bytes, u64_from_le_bytes,
};
use vstd::slice::{slice_subrange, slice_to_vec};
use vstd::string::StrSliceExecFns;
use vstd::utf8::{
    decode_utf8, encode_utf8, encode_utf8_decode_utf8, encode_utf8_valid_utf8, valid_utf8,
};

use crate::error::IpcError;

verus! {

/// A tagged, finite-variant payload with a length-prefixed binary encoding.
///
/// `Print` carries a text to be printed by the peer; `Ack` is the empty
/// acknowledgment.  A message is created at the call site, serialized
/// immediately before transmission and deserialized immediately after
/// receipt.
#[derive(Debug, PartialEq)]
pub enum Message {
    Print(String),
    Ack,
}

/// The mathematical model of a [`Message`]: the text of a `Print` is seen as
/// its character sequence.
pub enum MessageView {
    Print(Seq<char>),
    Ack,
}

impl View for Message {
    type V = MessageView;

    open spec fn view(&self) -> MessageView {
        match self {
            Message::Print(s) => MessageView::Print(s@),
            Message::Ack => MessageView::Ack,
        }
    }
}

/// Wire tag of the `Print` variant: a 32-bit little-endian discriminant.
pub const PRINT_TAG: u32 = 0;

/// Wire tag of the `Ack` variant.
pub const ACK_TAG: u32 = 1;

/// The schema of the message payload: a 32-bit little-endian variant tag;
/// for `Print`, the 64-bit little-endian byte length of the text followed by
/// its UTF-8 bytes; for `Ack`, nothing after the tag.
pub open spec fn spec_encode_message(m: MessageView) -> Seq<u8> {
    match m {
        MessageView::Print(text) => spec_u32_to_le_bytes(PRINT_TAG)
            + spec_u64_to_le_bytes(encode_utf8(text).len() as u64) + encode_utf8(text),
        MessageView::Ack => spec_u32_to_le_bytes(ACK_TAG),
    }
}

/// What a payload byte sequence decodes to: `Some` exactly when the bytes
/// are a complete encoding of one message, `None` otherwise.  There is no
/// zero-byte-valid variant: fewer than four bytes never decode.
pub open spec fn spec_decode_message(bytes: Seq<u8>) -> Option<MessageView> {
    if bytes.len() < 4 {
        None
    } else {
        let tag = spec_u32_from_le_bytes(bytes.subrange(0, 4));
        if tag == PRINT_TAG {
            if bytes.len() < 12 {
                None
            } else {
                let n = spec_u64_from_le_bytes(bytes.subrange(4, 12));
                let text_bytes = bytes.skip(12);
                if text_bytes.len() == n && valid_utf8(text_bytes) {
                    Some(MessageView::Print(decode_utf8(text_bytes)))
                } else {
                    None
                }
            }
        } else if tag == ACK_TAG {
            if bytes.len() == 4 {
                Some(MessageView::Ack)
            } else {
                None
            }
        } else {
            None
        }
    }
}

/// Relies on `String::from_utf8`: it returns the string made of exactly the
/// given bytes when they are valid UTF-8, and an error otherwise.
#[verifier::external_body]
fn string_from_utf8(bytes: Vec<u8>) -> (r: Option<String>)
    ensures
        match r {
            Some(s) => valid_utf8(bytes@) && s@ == decode_utf8(bytes@),
            None => !valid_utf8(bytes@),
        },
{
    String::from_utf8(bytes).ok()
}

/// Serializes a message into its payload byte sequence.
pub fn encode_message(m: &Message) -> (r: Vec<u8>)
    ensures
        r@ == spec_encode_message(m@),
{
    match m {
        Message::Print(s) => {
            let mut out = u32_to_le_bytes(PRINT_TAG);
            let mut text_bytes = s.as_str().as_bytes_vec();
            let mut len_bytes = u64_to_le_bytes(text_bytes.len() as u64);
            out.append(&mut len_bytes);
            out.append(&mut text_bytes);
            proof {
                assert(out@ =~= spec_encode_message(m@));
            }
            out
        },
        Message::Ack => u32_to_le_bytes(ACK_TAG),
    }
}

/// Deserializes a payload byte sequence, failing with `DecodeError` on any
/// bytes that are not the complete encoding of one message.
pub fn decode_message(bytes: &[u8]) -> (r: Result<Message, IpcError>)
    ensures
        match spec_decode_message(bytes@) {
            Some(v) => r matches Ok(m) && m@ == v,
            None => r matches Err(e) && e == IpcError::DecodeError,
        },
{
    if bytes.len() < 4 {
        return Err(IpcError::DecodeError);
    }
    let tag = u32_from_le_bytes(slice_subrange(bytes, 0, 4));
    if tag == PRINT_TAG {
        if bytes.len() < 12 {
            return Err(IpcError::DecodeError);
        }
        let n = u64_from_le_bytes(slice_subrange(bytes, 4, 12));
        let text_slice = slice_subrange(bytes, 12, bytes.len());
        proof {
            assert(text_slice@ =~= bytes@.skip(12));
        }
        if (text_slice.len() as u64) != n {
            return Err(IpcError::DecodeError);
        }
        match string_from_utf8(slice_to_vec(text_slice)) {
            Some(s) => Ok(Message::Print(s)),
            None => Err(IpcError::DecodeError),
        }
    } else if tag == ACK_TAG {
        if bytes.len() == 4 {
            Ok(Message::Ack)
        } else {
            Err(IpcError::DecodeError)
        }
    } else {
        Err(IpcError::DecodeError)
    }
}

/// Round-trip law: every supported message variant decodes back to itself
/// from its own encoding.  The bound on the text's byte length is the
/// machine limit built into the 64-bit length field.
pub proof fn lemma_message_roundtrip(m: MessageView)
    requires
        m matches MessageView::Print(text) ==> encode_utf8(text).len() <= u64::MAX,
    ensures
        spec_decode_message(spec_encode_message(m)) == Some(m),
{
    lemma_auto_spec_u32_to_from_le_bytes();
    lemma_auto_spec_u64_to_from_le_bytes();
    match m {
        MessageView::Ack => {
            let bytes = spec_encode_message(m);
            assert(bytes.subrange(0, 4) =~= bytes);
        },
        MessageView::Print(text) => {
            let tag = spec_u32_to_le_bytes(PRINT_TAG);
            let text_bytes = encode_utf8(text);
            let len = spec_u64_to_le_bytes(text_bytes.len() as u64);
            let bytes = spec_encode_message(m);
            assert(bytes =~= (tag + len) + text_bytes);
            assert(bytes.subrange(0, 4) =~= tag);
            assert(bytes.subrange(4, 12) =~= len);
            assert(bytes.skip(12) =~= text_bytes);
            encode_utf8_valid_utf8(text);
            encode_utf8_decode_utf8(text);
        },
    }
}

} // verus!
