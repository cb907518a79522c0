use courier::proto::response::{Error, Message};
use courier::proto::{
    decode_frame, encode_frame, frame_len, u64_from_be_bytes, u64_to_be_bytes, FrameError, Payload,
};

#[test]
fn big_endian_length_prefix() {
    assert_eq!(u64_to_be_bytes(0x0102030405060708), vec![1, 2, 3, 4, 5, 6, 7, 8]);
    assert_eq!(u64_from_be_bytes(&[0, 0, 0, 0, 0, 0, 1, 0]), 256);
}

#[test]
fn envelope_round_trip() {
    let body = b"hello!!!!".to_vec();
    let wire = encode_frame(&body);
    assert_eq!(&wire[..8], &[0, 0, 0, 0, 0, 0, 0, 9]);
    assert_eq!(decode_frame(&wire), Ok((body, 17)));
}

#[test]
fn two_envelopes_back_to_back() {
    let mut wire = encode_frame(&[1, 2, 3]);
    wire.extend(encode_frame(&[]));
    let (first, used) = decode_frame(&wire).unwrap();
    assert_eq!(first, vec![1, 2, 3]);
    let (second, used2) = decode_frame(&wire[used..]).unwrap();
    assert_eq!(second, Vec::<u8>::new());
    assert_eq!(used + used2, wire.len());
}

#[test]
fn truncated_envelopes() {
    assert_eq!(decode_frame(&[0, 0, 0]), Err(FrameError::Truncated));
    assert_eq!(decode_frame(&[0, 0, 0, 0, 0, 0, 0, 4, 1, 2]), Err(FrameError::Truncated));
}

#[test]
fn oversized_length_on_this_platform() {
    let header = [0xff; 8];
    if (u64::MAX as u128) > (usize::MAX as u128) {
        assert_eq!(frame_len(&header), Err(FrameError::TooLarge));
    } else {
        assert_eq!(frame_len(&header), Ok(usize::MAX));
    }
    assert_eq!(frame_len(&[0, 0, 0, 0, 0, 0, 0, 42]), Ok(42));
}

#[test]
fn payload_wraps_value() {
    let p = Payload::new(Message::Failure(Error::unspecified("oops")));
    assert_eq!(p.as_ref(), &Message::Failure(Error::Unspecified("oops".to_string())));
    assert_eq!(p.into_inner().into_result(), Err(Error::Unspecified("oops".to_string())));
    assert_eq!(Message::from_result(Ok(())), Message::Success);
    assert_eq!(Error::message_exec("no"), Error::MessageExec("no".to_string()));
}
