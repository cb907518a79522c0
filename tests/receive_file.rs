use courier::proto::request::{Message, StreamedFile};
use courier::proto::response;
use courier::receive_file::{
    copy_bytes, decide_streamed_file_result, inline_info, receive_frames, Step, StreamFileError, StreamReceiver,
};

fn hex(bytes: &[u8]) -> String {
    bytes.iter().map(|b| format!("{b:02x}")).collect()
}

#[test]
fn test_decide_streamed_file_result_equal() {
    let received = 10;
    let expected = 10;
    let result = decide_streamed_file_result(received, expected);

    assert!(result.is_ok());
}

#[test]
fn test_decide_streamed_file_result_less() {
    let received = 5;
    let expected = 10;
    let result = decide_streamed_file_result(received, expected);

    assert!(matches!(result, Err(StreamFileError::ExpectedMore { .. })));
}

#[test]
fn test_decide_streamed_file_result_more() {
    let received = 15;
    let expected = 10;
    let result = decide_streamed_file_result(received, expected);

    assert!(matches!(result, Err(StreamFileError::ExpectedLess { .. })));
}

#[test]
fn test_copy_bytes() {
    let src = [1, 2, 3, 4, 5];
    let mut dest = [0; 3];

    let copied = copy_bytes(&src, &mut dest);

    assert_eq!(copied, 3);
    assert_eq!(dest, [1, 2, 3]);
}

#[test]
fn copy_bytes_into_larger_buffer_keeps_the_rest() {
    let src = [7, 8];
    let mut dest = [1, 1, 1, 1];
    assert_eq!(copy_bytes(&src, &mut dest), 2);
    assert_eq!(dest, [7, 8, 1, 1]);
}

fn feed(rx: &mut StreamReceiver, frame: StreamedFile) -> Step {
    assert!(rx.wants_more());
    rx.step(frame)
}

#[test]
fn streamed_file_in_two_chunks_is_accepted() {
    let mut rx = StreamReceiver::new(10);
    let first: Vec<u8> = (1..=5).collect();
    let second: Vec<u8> = (6..=10).collect();
    match feed(&mut rx, StreamedFile::Payload(first.clone())) {
        Step::Store(d) => assert_eq!(d, first),
        _ => panic!("expected the chunk to be stored"),
    }
    match feed(&mut rx, StreamedFile::Payload(second.clone())) {
        Step::Store(d) => assert_eq!(d, second),
        _ => panic!("expected the chunk to be stored"),
    }
    assert_eq!(rx.received(), 10);
    assert!(matches!(feed(&mut rx, StreamedFile::End), Step::Finish));
    let info = rx.finish().unwrap();
    assert_eq!(info.length, 10);
    assert_eq!(hex(&info.hash), "c848e1013f9f04a9d63fa43ce7fd4af035152c7c669a4a404b67107cee5f2e4e");
    assert!(info.mime.is_some());
}

#[test]
fn streamed_and_inline_hashes_agree() {
    let data: Vec<u8> = (1..=10).collect();
    let inline = inline_info(&data);
    for split in 0..=10 {
        let mut rx = StreamReceiver::new(10);
        let _ = feed(&mut rx, StreamedFile::Payload(data[..split].to_vec()));
        let _ = feed(&mut rx, StreamedFile::Payload(data[split..].to_vec()));
        assert!(matches!(feed(&mut rx, StreamedFile::End), Step::Finish));
        let info = rx.finish().unwrap();
        assert_eq!(info.hash, inline.hash);
        assert_eq!(info.length, inline.length);
    }
    assert_eq!(hex(&inline.hash), "c848e1013f9f04a9d63fa43ce7fd4af035152c7c669a4a404b67107cee5f2e4e");
}

#[test]
fn empty_inline_file_hash() {
    let info = inline_info(&[]);
    assert_eq!(info.length, 0);
    assert_eq!(hex(&info.hash), "e3b0c44298fc1c149afbf4c8996fb92427ae41e4649b934ca495991b7852b855");
}

#[test]
fn abort_asks_for_removal_and_answers_client_abort() {
    let mut rx = StreamReceiver::new(100);
    let _ = feed(&mut rx, StreamedFile::Payload((1..=50).collect()));
    match feed(&mut rx, StreamedFile::Abort) {
        Step::Remove(e) => {
            assert!(matches!(e, StreamFileError::Abort { received: 50, expected: 100 }));
            assert_eq!(e.to_response(), response::Error::ClientAbort);
        }
        _ => panic!("expected removal"),
    }
}

#[test]
fn early_end_answers_read_error_expected_more() {
    let mut rx = StreamReceiver::new(10);
    let _ = feed(&mut rx, StreamedFile::Payload((1..=5).collect()));
    assert!(matches!(feed(&mut rx, StreamedFile::End), Step::Finish));
    let err = rx.finish().err().unwrap();
    assert!(matches!(err, StreamFileError::ExpectedMore { expected: 10, received: 5 }));
    assert_eq!(
        err.to_response(),
        response::Error::Read("Expected 10 bytes but received 5 bytes (not enough)".to_string())
    );
}

#[test]
fn overshoot_stops_reading_and_fails_expected_less() {
    let mut rx = StreamReceiver::new(4);
    let _ = feed(&mut rx, StreamedFile::Payload(vec![1, 2, 3]));
    let _ = feed(&mut rx, StreamedFile::Payload(vec![4, 5, 6]));
    assert!(!rx.wants_more());
    let err = rx.finish().err().unwrap();
    assert!(matches!(err, StreamFileError::ExpectedLess { expected: 4, received: 6 }));
    assert_eq!(
        err.message(),
        "Expected 4 bytes but received 6 bytes (too many)".to_string()
    );
}

#[test]
fn zero_byte_stream_with_end_succeeds() {
    let mut rx = StreamReceiver::new(0);
    assert!(matches!(feed(&mut rx, StreamedFile::End), Step::Finish));
    let info = rx.finish().unwrap();
    assert_eq!(info.length, 0);
    assert_eq!(hex(&info.hash), "e3b0c44298fc1c149afbf4c8996fb92427ae41e4649b934ca495991b7852b855");
}

#[test]
fn stream_error_responses() {
    assert_eq!(
        StreamFileError::fs("disk full".to_string()).to_response(),
        response::Error::MessageExec("disk full".to_string())
    );
    assert_eq!(
        StreamFileError::read("eof".to_string()).to_response(),
        response::Error::Read("Client read error: eof".to_string())
    );
    let abort = StreamFileError::Abort { received: 3, expected: 9 };
    assert_eq!(
        abort.message(),
        "Client explicitly aborted file transfer without `end` message. Received 3 out of 9 bytes"
    );
    assert_eq!(
        StreamFileError::fs("x".to_string()).message(),
        "File system error: x".to_string()
    );
}

#[test]
fn request_types_compare() {
    assert_eq!(Message::FileStream("a".to_string(), 1), Message::FileStream("a".to_string(), 1));
}

#[test]
fn frames_played_in_memory() {
    let frames = vec![
        StreamedFile::Payload((1..=5).collect()),
        StreamedFile::Payload((6..=10).collect()),
        StreamedFile::End,
    ];
    let (out, written) = receive_frames(10, frames).unwrap();
    assert_eq!(written, (1..=10).collect::<Vec<u8>>());
    let info = out.unwrap();
    assert_eq!(info.length, 10);
    assert_eq!(hex(&info.hash), "c848e1013f9f04a9d63fa43ce7fd4af035152c7c669a4a404b67107cee5f2e4e");

    let frames = vec![StreamedFile::Payload((1..=50).collect()), StreamedFile::Abort];
    let (out, written) = receive_frames(100, frames).unwrap();
    assert_eq!(written.len(), 50);
    assert!(matches!(out, Err(StreamFileError::Abort { received: 50, expected: 100 })));

    let frames = vec![StreamedFile::Payload((1..=5).collect()), StreamedFile::End];
    let (out, _) = receive_frames(10, frames).unwrap();
    assert!(matches!(out, Err(StreamFileError::ExpectedMore { expected: 10, received: 5 })));

    let frames = vec![
        StreamedFile::Payload(vec![1; 6]),
        StreamedFile::Payload(vec![2; 6]),
        StreamedFile::End,
    ];
    let (out, written) = receive_frames(5, frames).unwrap();
    assert_eq!(written, vec![1; 6]);
    assert!(matches!(out, Err(StreamFileError::ExpectedLess { expected: 5, received: 6 })));

    assert!(receive_frames(3, vec![StreamedFile::Payload(vec![1])]).is_none());
}
