use ipc_messager::error::IpcError;
use ipc_messager::message::{decode_message, encode_message, Message};

#[test]
fn print_round_trip() {
    let m = Message::Print(String::from("hello"));
    let bytes = encode_message(&m);
    assert_eq!(decode_message(&bytes), Ok(Message::Print(String::from("hello"))));
}

#[test]
fn empty_print_round_trip() {
    let m = Message::Print(String::new());
    let bytes = encode_message(&m);
    assert_eq!(decode_message(&bytes), Ok(Message::Print(String::new())));
}

#[test]
fn unicode_print_round_trip() {
    let text = "héllo wörld — ≤≥";
    let m = Message::Print(String::from(text));
    let bytes = encode_message(&m);
    assert_eq!(decode_message(&bytes), Ok(Message::Print(String::from(text))));
}

#[test]
fn ack_round_trip() {
    let bytes = encode_message(&Message::Ack);
    assert_eq!(decode_message(&bytes), Ok(Message::Ack));
}

#[test]
fn exact_print_encoding() {
    // tag 0, then the byte length as a 64-bit little-endian word, then the text
    let bytes = encode_message(&Message::Print(String::from("hi")));
    assert_eq!(bytes, vec![0, 0, 0, 0, 2, 0, 0, 0, 0, 0, 0, 0, b'h', b'i']);
}

#[test]
fn exact_ack_encoding() {
    assert_eq!(encode_message(&Message::Ack), vec![1, 0, 0, 0]);
}

#[test]
fn payload_encoding_matches_bincode() {
    // The payload schema is the one bincode's default (fixint, little-endian)
    // configuration gives a two-variant enum: a u32 variant index, and for the
    // text-carrying variant a u64 byte length followed by the UTF-8 bytes.
    let ours = encode_message(&Message::Print(String::from("hello")));
    let theirs = bincode::serialize(&(0u32, String::from("hello"))).unwrap();
    assert_eq!(ours, theirs);

    let ours_ack = encode_message(&Message::Ack);
    let theirs_ack = bincode::serialize(&1u32).unwrap();
    assert_eq!(ours_ack, theirs_ack);
}

#[test]
fn bincode_payload_decodes() {
    let bytes = bincode::serialize(&(0u32, String::from("printed line"))).unwrap();
    assert_eq!(decode_message(&bytes), Ok(Message::Print(String::from("printed line"))));
}

#[test]
fn empty_payload_is_decode_error() {
    assert_eq!(decode_message(&[]), Err(IpcError::DecodeError));
}

#[test]
fn unknown_tag_is_decode_error() {
    assert_eq!(decode_message(&[2, 0, 0, 0]), Err(IpcError::DecodeError));
}

#[test]
fn truncated_print_is_decode_error() {
    let mut bytes = encode_message(&Message::Print(String::from("hello")));
    bytes.pop();
    assert_eq!(decode_message(&bytes), Err(IpcError::DecodeError));
}

#[test]
fn oversized_ack_is_decode_error() {
    assert_eq!(decode_message(&[1, 0, 0, 0, 9]), Err(IpcError::DecodeError));
}

#[test]
fn wrong_length_field_is_decode_error() {
    // announces three text bytes but carries two
    let bytes = vec![0, 0, 0, 0, 3, 0, 0, 0, 0, 0, 0, 0, b'h', b'i'];
    assert_eq!(decode_message(&bytes), Err(IpcError::DecodeError));
}

#[test]
fn invalid_utf8_is_decode_error() {
    let bytes = vec![0, 0, 0, 0, 2, 0, 0, 0, 0, 0, 0, 0, 0xff, 0xfe];
    assert_eq!(decode_message(&bytes), Err(IpcError::DecodeError));
}
