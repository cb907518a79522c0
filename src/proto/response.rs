//! What the server answers to each request.
use vstd::prelude::*;
use vstd::string::StringExecFns;

verus! {

/// The server's answer to one request.
#[derive(Debug, PartialEq, Eq)]
pub enum Message {
    /// The request was handled successfully.
    Success,
    /// The request failed.
    Failure(Error),
}

/// Why a request failed.
#[derive(Debug, PartialEq, Eq)]
pub enum Error {
    /// The message could not be read, e.g. because the client is incompatible.
    Read(String),
    /// The client aborted a streamed transfer.
    ClientAbort,
    /// The message could not be carried out, e.g. for lack of disk space.
    MessageExec(String),
    /// Any other failure.
    Unspecified(String),
}

impl Error {
    pub fn message_exec(msg: &str) -> (r: Self)
        ensures
            r matches Error::MessageExec(m) && m@ == msg@,
    {
        Error::MessageExec(String::from_str(msg))
    }

    pub fn unspecified(msg: &str) -> (r: Self)
        ensures
            r matches Error::Unspecified(m) && m@ == msg@,
    {
        Error::Unspecified(String::from_str(msg))
    }
}

impl Message {
    /// The answer that reports `result`.
    pub fn from_result(result: Result<(), Error>) -> (r: Self)
        ensures
            match result {
                Ok(()) => r == Message::Success,
                Err(e) => r == Message::Failure(e),
            },
    {
        match result {
            Ok(()) => Message::Success,
            Err(e) => Message::Failure(e),
        }
    }

    /// The outcome this answer reports.
    pub fn into_result(self) -> (r: Result<(), Error>)
        ensures
            match self {
                Message::Success => r == Ok::<(), Error>(()),
                Message::Failure(e) => r == Err::<(), Error>(e),
            },
    {
        match self {
            Message::Success => Ok(()),
            Message::Failure(e) => Err(e),
        }
    }
}

} // verus!
