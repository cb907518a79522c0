//! The client's command language and the checks made before a request is sent.
use vstd::prelude::*;
use vstd::string::StringExecFns;

use crate::proto::request;
use crate::text::{ends_with, has_suffix, strip_prefix};

verus! {

/// A line typed by the user.
#[derive(Debug)]
pub enum Command {
    /// `.file <path>`: upload a file.
    File(String),
    /// `.image <path>`: upload a `.png` image.
    Image(String),
    /// Any other line: a text message.
    Message(String),
    /// `.nick <name>`: change nickname.
    AnnounceNickname(String),
    /// `.quit`: leave.
    Quit,
}

/// A command as a value.
pub enum CommandModel {
    File(Seq<char>),
    Image(Seq<char>),
    Message(Seq<char>),
    AnnounceNickname(Seq<char>),
    Quit,
}

impl View for Command {
    type V = CommandModel;

    open spec fn view(&self) -> CommandModel {
        match self {
            Command::File(p) => CommandModel::File(p@),
            Command::Image(p) => CommandModel::Image(p@),
            Command::Message(s) => CommandModel::Message(s@),
            Command::AnnounceNickname(n) => CommandModel::AnnounceNickname(n@),
            Command::Quit => CommandModel::Quit,
        }
    }
}

/// The command a line stands for: `.quit` exactly, or one of the prefixes
/// `.file `, `.image `, `.nick ` followed by its argument; anything else is text.
pub open spec fn command_of(s: Seq<char>) -> CommandModel {
    if s == ".quit"@ {
        CommandModel::Quit
    } else if ".file "@.is_prefix_of(s) {
        CommandModel::File(s.skip(6))
    } else if ".image "@.is_prefix_of(s) {
        CommandModel::Image(s.skip(7))
    } else if ".nick "@.is_prefix_of(s) {
        CommandModel::AnnounceNickname(s.skip(6))
    } else {
        CommandModel::Message(s)
    }
}

impl Command {
    /// Reads a line as a command.
    pub fn parse(s: &str) -> (r: Self)
        ensures
            r@ == command_of(s@),
    {
        proof {
            reveal_strlit(".quit");
            reveal_strlit(".file ");
            reveal_strlit(".image ");
            reveal_strlit(".nick ");
        }
        match strip_prefix(s, ".quit") {
            Some(rest) => {
                if rest.unicode_len() == 0 {
                    assert(s@ =~= ".quit"@);
                    return Command::Quit;
                }
            },
            None => {},
        }
        if let Some(suffix) = strip_prefix(s, ".file ") {
            return Command::File(String::from_str(suffix));
        }
        if let Some(suffix) = strip_prefix(s, ".image ") {
            return Command::Image(String::from_str(suffix));
        }
        if let Some(nickname) = strip_prefix(s, ".nick ") {
            return Command::AnnounceNickname(String::from_str(nickname));
        }
        Command::Message(String::from_str(s))
    }
}

/// A client-side failure: a soft one is reported and the next command is
/// read; a hard one ends the client.
#[derive(Debug)]
pub enum Error {
    Soft(String),
    Hard(String),
}

impl Error {
    pub fn soft(detail: String) -> (r: Self)
        ensures
            r == Error::Soft(detail),
    {
        Error::Soft(detail)
    }

    pub fn hard(detail: String) -> (r: Self)
        ensures
            r == Error::Hard(detail),
    {
        Error::Hard(detail)
    }
}

/// The last component of a path, as the platform's path rules give it.
pub uninterp spec fn file_name_of(path: Seq<char>) -> Option<Seq<char>>;

/// Relies on `std::path::Path::file_name`: the last component of `path`, if it
/// has one (none for a path ending in `..` or for a root).
#[verifier::external_body]
fn path_file_name(path: &str) -> (r: Option<String>)
    ensures
        match r {
            Some(n) => file_name_of(path@) == Some(n@),
            None => file_name_of(path@) is None,
        },
{
    std::path::Path::new(path).file_name().and_then(|n| n.to_str()).map(|n| n.to_string())
}

/// The file name that `path` ends with, sent as the upload's name.
pub fn extract_basename(path: &str) -> (r: Result<String, Error>)
    ensures
        match r {
            Ok(n) => file_name_of(path@) == Some(n@),
            Err(e) => file_name_of(path@) is None && (e matches Error::Hard(m) && m@
                == "Failed to extract basename of file"@),
        },
{
    match path_file_name(path) {
        Some(n) => Ok(n),
        None => Err(Error::hard(String::from_str("Failed to extract basename of file"))),
    }
}

/// What the client does for a command.
pub enum Outgoing {
    /// Leave.
    Exit,
    /// Send this request.
    Send(request::Message),
    /// Look the file at this path up on disk and pass what was found to
    /// `upload_request`; `image` tells an image from a file.
    Upload { path: String, image: bool },
}

/// What a command asks of the client.
pub fn plan_command(cmd: Command) -> (r: Outgoing)
    ensures
        match cmd {
            Command::Quit => r == Outgoing::Exit,
            Command::Message(s) => r == Outgoing::Send(request::Message::Text(s)),
            Command::AnnounceNickname(n) => r == Outgoing::Send(
                request::Message::AnnounceNickname(n),
            ),
            Command::File(p) => r == (Outgoing::Upload { path: p, image: false }),
            Command::Image(p) => r == (Outgoing::Upload { path: p, image: true }),
        },
{
    match cmd {
        Command::Quit => Outgoing::Exit,
        Command::Message(s) => Outgoing::Send(request::Message::Text(s)),
        Command::AnnounceNickname(n) => Outgoing::Send(request::Message::AnnounceNickname(n)),
        Command::File(p) => Outgoing::Upload { path: p, image: false },
        Command::Image(p) => Outgoing::Upload { path: p, image: true },
    }
}

/// What is known on disk of a file to upload.
pub struct FileMeta {
    pub is_file: bool,
    pub len: u64,
}

/// The request announcing the upload of `path`, given what was found on disk:
/// a path without a file name is a hard error; a lookup failure, something
/// other than a file, or an image not named `.png`, a soft one. The data follows
/// as streamed frames.
pub fn upload_request(path: &str, image: bool, meta: Result<FileMeta, String>) -> (r: Result<
    request::Message,
    Error,
>)
    ensures
        match file_name_of(path@) {
            None => r matches Err(Error::Hard(m)) && m@ == "Failed to extract basename of file"@,
            Some(name) => match meta {
                Err(d) => r == Err::<request::Message, Error>(Error::Soft(d)),
                Ok(m) => if !m.is_file {
                    r matches Err(Error::Soft(e)) && e@ == "Only files are supported"@
                } else if image && !has_suffix(name, ".png"@) {
                    r matches Err(Error::Soft(e)) && e@ == "Only .png images are supported"@
                } else if image {
                    r matches Ok(request::Message::ImageStream(n, size)) && n@ == name && size
                        == m.len
                } else {
                    r matches Ok(request::Message::FileStream(n, size)) && n@ == name && size
                        == m.len
                },
            },
        },
{
    let basename = match extract_basename(path) {
        Ok(n) => n,
        Err(e) => return Err(e),
    };
    let meta = match meta {
        Ok(m) => m,
        Err(d) => return Err(Error::soft(d)),
    };
    if !meta.is_file {
        return Err(Error::soft(String::from_str("Only files are supported")));
    }
    if image {
        if !ends_with(basename.as_str(), ".png") {
            return Err(Error::soft(String::from_str("Only .png images are supported")));
        }
        Ok(request::Message::ImageStream(basename, meta.len))
    } else {
        Ok(request::Message::FileStream(basename, meta.len))
    }
}

} // verus!
