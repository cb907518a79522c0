//! What the server does with each request: the decision for each kind of
//! message, and the records handed to the persistence sink.
use vstd::prelude::*;
use vstd::string::StringExecFns;

use crate::proto::request;
use crate::proto::response;
use crate::receive_file::StreamInfo;
use crate::server::Client;
use crate::text::{ends_with, has_suffix};

verus! {

/// The folder under the root where a kind of upload is stored.
#[derive(Debug, Clone, Copy, PartialEq, Eq, Structural)]
pub enum Folder {
    Files,
    Images,
}

impl Folder {
    /// The folder's name under the root.
    pub fn name(&self) -> (r: &'static str)
        ensures
            r@ == match self {
                Folder::Files => "files"@,
                Folder::Images => "images"@,
            },
    {
        match self {
            Folder::Files => "files",
            Folder::Images => "images",
        }
    }
}

/// A shortened record of a request, for the persistence sink.
#[derive(Debug)]
pub enum Message {
    /// A text message and its content.
    Text(String),
    /// A file or image: its name, where it was stored, and what is known of it.
    File { filename: String, filepath: String, mime: Option<String>, hash: Vec<u8>, length: u64 },
}

/// One record for the persistence sink.
#[derive(Debug)]
pub struct ExecNotification {
    pub client_nickname: Option<String>,
    pub client_ip: String,
    /// Milliseconds since the Unix epoch, UTC.
    pub timestamp_millis: i64,
    pub message: Message,
}

/// What is to be done for one request.
pub enum Plan {
    /// Write `data` to `filename` in `folder` (creating the folder), then
    /// report the file.
    StoreInline { folder: Folder, filename: String, data: Vec<u8> },
    /// Create `filename` in `folder` and receive `size` bytes into it as
    /// streamed frames, then report the file.
    ReceiveStream { folder: Folder, filename: String, size: u64 },
    /// Nothing to do but report this.
    Report(Message),
    /// Nothing to do and nothing to report.
    Nothing,
    /// The request fails with this error, and nothing is written.
    Reject(response::Error),
}

/// The only image names accepted end with this.
pub open spec fn image_suffix() -> Seq<char> {
    ".png"@
}

/// The error for an image whose name does not end with `.png`.
pub open spec fn png_only() -> Seq<char> {
    "Only .png images are supported"@
}

/// The nickname a session has after `msg`.
pub open spec fn nickname_after(nickname: Option<Seq<char>>, msg: request::Message) -> Option<
    Seq<char>,
> {
    match msg {
        request::Message::AnnounceNickname(n) => Some(n@),
        _ => nickname,
    }
}

/// The nickname a session has after handling `msgs` in order.
pub open spec fn nickname_after_all(nickname: Option<Seq<char>>, msgs: Seq<request::Message>) -> Option<
    Seq<char>,
>
    decreases msgs.len(),
{
    if msgs.len() == 0 {
        nickname
    } else {
        nickname_after(nickname_after_all(nickname, msgs.drop_last()), msgs.last())
    }
}

/// The nicknames of several sessions after `events`, each a session's index
/// and a request handled on it, in the order they were handled.
pub open spec fn nicknames_after(
    nicknames: Seq<Option<Seq<char>>>,
    events: Seq<(int, request::Message)>,
) -> Seq<Option<Seq<char>>>
    decreases events.len(),
{
    if events.len() == 0 {
        nicknames
    } else {
        let before = nicknames_after(nicknames, events.drop_last());
        let (k, msg) = events.last();
        if 0 <= k < before.len() {
            before.update(k, nickname_after(before[k], msg))
        } else {
            before
        }
    }
}

/// The requests among `events` handled on session `k`, in order.
pub open spec fn requests_on(events: Seq<(int, request::Message)>, k: int) -> Seq<request::Message>
    decreases events.len(),
{
    if events.len() == 0 {
        Seq::empty()
    } else if events.last().0 == k {
        requests_on(events.drop_last(), k).push(events.last().1)
    } else {
        requests_on(events.drop_last(), k)
    }
}

/// Nickname locality: however the requests of several sessions interleave,
/// each session's nickname (which its notifications carry) is what its own
/// requests alone make of it; what other sessions announce plays no part.
pub proof fn lemma_nickname_locality(
    nicknames: Seq<Option<Seq<char>>>,
    events: Seq<(int, request::Message)>,
    k: int,
)
    requires
        0 <= k < nicknames.len(),
    ensures
        nicknames_after(nicknames, events).len() == nicknames.len(),
        nicknames_after(nicknames, events)[k] == nickname_after_all(
            nicknames[k],
            requests_on(events, k),
        ),
    decreases events.len(),
{
    if events.len() > 0 {
        lemma_nickname_locality(nicknames, events.drop_last(), k);
        let own = requests_on(events.drop_last(), k);
        if events.last().0 == k {
            assert(own.push(events.last().1).drop_last() =~= own);
        }
    }
}

/// Carries out the message rules shared by all sessions: where uploads go,
/// and whether a sink wants records.
pub struct MessageExecutor {
    root: String,
    notify: bool,
}

impl MessageExecutor {
    pub closed spec fn root_spec(&self) -> Seq<char> {
        self.root@
    }

    pub closed spec fn notifies(&self) -> bool {
        self.notify
    }

    /// An executor storing under `root`, with no sink.
    pub fn new(root: String) -> (r: Self)
        ensures
            r.root_spec() == root@,
            !r.notifies(),
    {
        MessageExecutor { root, notify: false }
    }

    /// The same executor, with a sink that wants a record of each request that
    /// produces one.
    pub fn with_notifications(self) -> (r: Self)
        ensures
            r.root_spec() == self.root_spec(),
            r.notifies(),
    {
        MessageExecutor { root: self.root, notify: true }
    }

    /// The folder that holds the stored files and images.
    pub fn root(&self) -> (r: &str)
        ensures
            r@ == self.root_spec(),
    {
        self.root.as_str()
    }

    /// Whether a sink wants records.
    pub fn has_notifications(&self) -> (r: bool)
        ensures
            r == self.notifies(),
    {
        self.notify
    }

    /// Decides what `msg` asks for. A nickname is stored in `client` at once;
    /// an image whose name does not end with `.png` is refused.
    pub fn exec<S>(&self, msg: request::Message, client: &mut Client<S>) -> (r: Plan)
        ensures
            final(client).nickname() == nickname_after(old(client).nickname(), msg),
            final(client).address() == old(client).address(),
            match msg {
                request::Message::Text(s) => r == Plan::Report(Message::Text(s)),
                request::Message::File(name, data) => r == Plan::StoreInline {
                    folder: Folder::Files,
                    filename: name,
                    data,
                },
                request::Message::FileStream(name, size) => r == Plan::ReceiveStream {
                    folder: Folder::Files,
                    filename: name,
                    size,
                },
                request::Message::Image(name, data) => if has_suffix(name@, image_suffix()) {
                    r == Plan::StoreInline { folder: Folder::Images, filename: name, data }
                } else {
                    r matches Plan::Reject(response::Error::MessageExec(m)) && m@ == png_only()
                },
                request::Message::ImageStream(name, size) => if has_suffix(
                    name@,
                    image_suffix(),
                ) {
                    r == Plan::ReceiveStream { folder: Folder::Images, filename: name, size }
                } else {
                    r matches Plan::Reject(response::Error::MessageExec(m)) && m@ == png_only()
                },
                request::Message::AnnounceNickname(_) => r == Plan::Nothing,
            },
    {
        match msg {
            request::Message::Text(s) => Plan::Report(Message::Text(s)),
            request::Message::File(name, data) => Plan::StoreInline {
                folder: Folder::Files,
                filename: name,
                data,
            },
            request::Message::FileStream(name, size) => Plan::ReceiveStream {
                folder: Folder::Files,
                filename: name,
                size,
            },
            request::Message::Image(name, data) => {
                if ends_with(name.as_str(), ".png") {
                    Plan::StoreInline { folder: Folder::Images, filename: name, data }
                } else {
                    Plan::Reject(response::Error::message_exec("Only .png images are supported"))
                }
            },
            request::Message::ImageStream(name, size) => {
                if ends_with(name.as_str(), ".png") {
                    Plan::ReceiveStream { folder: Folder::Images, filename: name, size }
                } else {
                    Plan::Reject(response::Error::message_exec("Only .png images are supported"))
                }
            },
            request::Message::AnnounceNickname(nickname) => {
                client.set_nickname(nickname);
                Plan::Nothing
            },
        }
    }

    /// The record for a message handled on `client` at `timestamp_millis`, if a
    /// sink wants one. It carries `client`'s own nickname and address.
    pub fn notification<S>(&self, client: &Client<S>, message: Message, timestamp_millis: i64) -> (r:
        Option<ExecNotification>)
        ensures
            self.notifies() <==> r is Some,
            r matches Some(n) ==> {
                &&& n.client_ip@ == client.address()
                &&& n.timestamp_millis == timestamp_millis
                &&& n.message == message
                &&& match n.client_nickname {
                    Some(s) => client.nickname() == Some(s@),
                    None => client.nickname() is None,
                }
            },
    {
        if self.notify {
            let client_nickname = match client.get_nickname() {
                Some(n) => Some(String::from_str(n.as_str())),
                None => None,
            };
            let client_ip = String::from_str(client.get_address().as_str());
            Some(ExecNotification { client_nickname, client_ip, timestamp_millis, message })
        } else {
            None
        }
    }
}

/// The record of a stored file.
pub fn file_message(filename: String, filepath: String, info: StreamInfo) -> (r: Message)
    ensures
        r == (Message::File {
            filename,
            filepath,
            mime: info.mime,
            hash: info.hash,
            length: info.length,
        }),
{
    Message::File { filename, filepath, mime: info.mime, hash: info.hash, length: info.length }
}

} // verus!
