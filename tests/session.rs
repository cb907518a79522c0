use courier::msg_exec::{file_message, Folder, Message as Record, MessageExecutor, Plan};
use courier::proto::request::Message;
use courier::proto::response;
use courier::receive_file::inline_info;
use courier::server::{after_response, tick_response, Client, LoopInstruction};

fn executor() -> MessageExecutor {
    MessageExecutor::new("store".to_string()).with_notifications()
}

#[test]
fn text_is_answered_ok_and_reported_without_nickname() {
    let ex = executor();
    let mut client = Client::new("10.0.0.1".to_string(), ());
    let plan = ex.exec(Message::Text("hello".to_string()), &mut client);
    let record = match plan {
        Plan::Report(r) => r,
        _ => panic!("expected a report"),
    };
    assert_eq!(tick_response(Ok(Ok(()))), response::Message::Success);
    let n = ex.notification(&client, record, 7).unwrap();
    assert_eq!(n.client_nickname, None);
    assert_eq!(n.client_ip, "10.0.0.1");
    assert_eq!(n.timestamp_millis, 7);
    assert!(matches!(n.message, Record::Text(ref s) if s == "hello"));
}

#[test]
fn nickname_is_carried_by_later_notifications() {
    let ex = executor();
    let mut client = Client::new("10.0.0.1".to_string(), ());
    assert!(matches!(
        ex.exec(Message::AnnounceNickname("alice".to_string()), &mut client),
        Plan::Nothing
    ));
    let record = match ex.exec(Message::Text("hi".to_string()), &mut client) {
        Plan::Report(r) => r,
        _ => panic!("expected a report"),
    };
    let n = ex.notification(&client, record, 0).unwrap();
    assert_eq!(n.client_nickname, Some("alice".to_string()));
}

#[test]
fn nickname_stays_in_its_session() {
    let ex = executor();
    let mut a = Client::new("10.0.0.1".to_string(), ());
    let mut b = Client::new("10.0.0.2".to_string(), ());
    let _ = ex.exec(Message::AnnounceNickname("x".to_string()), &mut a);
    let record = match ex.exec(Message::Text("from b".to_string()), &mut b) {
        Plan::Report(r) => r,
        _ => panic!("expected a report"),
    };
    let n = ex.notification(&b, record, 0).unwrap();
    assert_eq!(n.client_nickname, None);
    assert_eq!(n.client_ip, "10.0.0.2");
    assert_eq!(a.get_nickname(), Some(&"x".to_string()));
}

#[test]
fn non_png_image_is_rejected() {
    let ex = executor();
    let mut client = Client::new("h".to_string(), ());
    match ex.exec(Message::Image("cat.jpg".to_string(), vec![0xFF]), &mut client) {
        Plan::Reject(e) => {
            let answer = tick_response(Ok(Err(e)));
            assert_eq!(
                answer,
                response::Message::Failure(response::Error::MessageExec(
                    "Only .png images are supported".to_string()
                ))
            );
        }
        _ => panic!("expected a rejection"),
    }
    assert!(matches!(
        ex.exec(Message::ImageStream("cat.gif".to_string(), 3), &mut client),
        Plan::Reject(_)
    ));
}

#[test]
fn png_image_and_files_are_stored() {
    let ex = executor();
    let mut client = Client::new("h".to_string(), ());
    match ex.exec(Message::Image("cat.png".to_string(), vec![1]), &mut client) {
        Plan::StoreInline { folder, filename, data } => {
            assert_eq!(folder, Folder::Images);
            assert_eq!(folder.name(), "images");
            assert_eq!(filename, "cat.png");
            assert_eq!(data, vec![1]);
        }
        _ => panic!("expected storing"),
    }
    match ex.exec(Message::FileStream("a.bin".to_string(), 10), &mut client) {
        Plan::ReceiveStream { folder, filename, size } => {
            assert_eq!(folder.name(), "files");
            assert_eq!(filename, "a.bin");
            assert_eq!(size, 10);
        }
        _ => panic!("expected a stream"),
    }
}

#[test]
fn file_record_carries_hash_and_length() {
    let data: Vec<u8> = (1..=10).collect();
    let rec = file_message("a.bin".to_string(), "store/files/a.bin".to_string(), inline_info(&data));
    match rec {
        Record::File { filename, filepath, length, hash, mime } => {
            assert_eq!(filename, "a.bin");
            assert_eq!(filepath, "store/files/a.bin");
            assert_eq!(length, 10);
            assert_eq!(hash.len(), 32);
            assert!(mime.is_some());
        }
        _ => panic!("expected a file record"),
    }
}

#[test]
fn no_sink_no_notification() {
    let ex = MessageExecutor::new(".".to_string());
    let client = Client::new("h".to_string(), ());
    assert!(!ex.has_notifications());
    assert_eq!(ex.root(), ".");
    assert!(ex.notification(&client, Record::Text("t".to_string()), 0).is_none());
}

#[test]
fn read_failure_is_soft_and_write_failure_ends_session() {
    assert_eq!(
        tick_response(Err("bad frame".to_string())),
        response::Message::Failure(response::Error::Read("bad frame".to_string()))
    );
    assert_eq!(after_response(true), LoopInstruction::Continue);
    assert_eq!(after_response(false), LoopInstruction::Break);
}

#[test]
fn client_stream_and_nickname() {
    let mut client = Client::new("h".to_string(), 5u32);
    *client.get_stream() += 1;
    assert_eq!(*client.get_stream(), 6);
    client.set_nickname("n".to_string());
    client.set_nickname("m".to_string());
    assert_eq!(client.get_nickname(), Some(&"m".to_string()));
    assert_eq!(client.get_address(), "h");
}

#[test]
fn interleaved_sessions_get_their_own_answers() {
    let mut a: Client<Vec<response::Message>> = Client::new("10.0.0.1".to_string(), vec![]);
    let mut b: Client<Vec<response::Message>> = Client::new("10.0.0.2".to_string(), vec![]);
    a.get_stream().push(tick_response(Ok(Ok(()))));
    b.get_stream().push(tick_response(Err("garbled".to_string())));
    a.get_stream().push(tick_response(Ok(Err(response::Error::ClientAbort))));
    assert_eq!(
        *a.get_stream(),
        vec![
            response::Message::Success,
            response::Message::Failure(response::Error::ClientAbort)
        ]
    );
    assert_eq!(
        *b.get_stream(),
        vec![response::Message::Failure(response::Error::Read("garbled".to_string()))]
    );
}
