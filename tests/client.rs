use courier::client::{
    extract_basename, plan_command, upload_request, Command, Error, FileMeta, Outgoing,
};
use courier::proto::request::Message;

#[test]
fn commands_are_parsed() {
    assert!(matches!(Command::parse(".quit"), Command::Quit));
    assert!(matches!(Command::parse(".quit now"), Command::Message(ref s) if s == ".quit now"));
    assert!(matches!(Command::parse(".file a/b.txt"), Command::File(ref p) if p == "a/b.txt"));
    assert!(matches!(Command::parse(".image x.png"), Command::Image(ref p) if p == "x.png"));
    assert!(matches!(Command::parse(".nick bob"), Command::AnnounceNickname(ref n) if n == "bob"));
    assert!(matches!(Command::parse("hello"), Command::Message(ref s) if s == "hello"));
    assert!(matches!(Command::parse(".file"), Command::Message(ref s) if s == ".file"));
}

#[test]
fn commands_become_requests() {
    assert!(matches!(plan_command(Command::Quit), Outgoing::Exit));
    assert!(matches!(
        plan_command(Command::Message("hi".to_string())),
        Outgoing::Send(Message::Text(ref s)) if s == "hi"
    ));
    assert!(matches!(
        plan_command(Command::Image("p.png".to_string())),
        Outgoing::Upload { image: true, .. }
    ));
}

#[test]
fn basenames() {
    assert_eq!(extract_basename("dir/file.txt").ok(), Some("file.txt".to_string()));
    assert!(matches!(extract_basename("dir/.."), Err(Error::Hard(_))));
}

#[test]
fn upload_checks() {
    let file = || Ok(FileMeta { is_file: true, len: 12 });
    assert_eq!(
        upload_request("d/a.bin", false, file()).ok(),
        Some(Message::FileStream("a.bin".to_string(), 12))
    );
    assert_eq!(
        upload_request("d/a.png", true, file()).ok(),
        Some(Message::ImageStream("a.png".to_string(), 12))
    );
    assert!(matches!(
        upload_request("d/a.jpg", true, file()),
        Err(Error::Soft(ref m)) if m == "Only .png images are supported"
    ));
    assert!(matches!(
        upload_request("d", false, Ok(FileMeta { is_file: false, len: 0 })),
        Err(Error::Soft(ref m)) if m == "Only files are supported"
    ));
    assert!(matches!(
        upload_request("d/x", false, Err("missing".to_string())),
        Err(Error::Soft(ref m)) if m == "missing"
    ));
    assert!(matches!(Error::hard("h".to_string()), Error::Hard(_)));
    assert!(matches!(Error::soft("s".to_string()), Error::Soft(_)));
}
