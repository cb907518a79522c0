//! What a client sends to the server.
use vstd::prelude::*;

verus! {

/// A request from a client.
#[derive(Debug, PartialEq, Eq)]
pub enum Message {
    /// Filename and file data.
    File(String, Vec<u8>),
    /// Filename and how many bytes of file data will follow as streamed frames.
    FileStream(String, u64),
    /// Filename and image data.
    Image(String, Vec<u8>),
    /// Filename and how many bytes of image data will follow as streamed frames.
    ImageStream(String, u64),
    /// Text message.
    Text(String),
    /// The nickname the client wants to be known by for the rest of its session.
    AnnounceNickname(String),
}

/// A frame a client sends while streaming a file or image after a `*Stream` request.
#[derive(Debug, PartialEq, Eq)]
pub enum StreamedFile {
    /// File data chunk.
    Payload(Vec<u8>),
    /// Abort the current file transfer.
    Abort,
    /// End of the current file transfer: the whole file has been sent.
    End,
}

/// A streamed frame as a mathematical value.
pub enum FrameModel {
    Chunk(Seq<u8>),
    Abort,
    End,
}

impl View for StreamedFile {
    type V = FrameModel;

    open spec fn view(&self) -> FrameModel {
        match self {
            StreamedFile::Payload(d) => FrameModel::Chunk(d@),
            StreamedFile::Abort => FrameModel::Abort,
            StreamedFile::End => FrameModel::End,
        }
    }
}

} // verus!
