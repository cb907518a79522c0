//! Receiving a file streamed in chunks after a `FileStream` or `ImageStream`
//! request: the decisions taken on each frame, the running hash, the bytes kept
//! for type detection, and the final size reconciliation.
use vstd::prelude::*;
use vstd::string::StringExecFns;

use crate::hashing::{absorbed, sha256_of, Sha256Hasher};
use crate::proto::request::{FrameModel, StreamedFile};
use crate::proto::response;
use crate::text::{decimal, decimal_of};

verus! {

/// How many leading bytes of a file are kept for guessing its type.
pub const MIME_DETECTION_BUFFER_SIZE: usize = 4096;

/// What is known of a received file.
pub struct StreamInfo {
    /// Bytes written.
    pub length: u64,
    /// SHA-256 of the bytes written.
    pub hash: Vec<u8>,
    /// The guessed MIME type.
    pub mime: Option<String>,
}

/// Why a streamed transfer failed.
#[derive(Debug)]
pub enum StreamFileError {
    /// The transfer ended before the announced size was reached.
    ExpectedMore { expected: u64, received: u64 },
    /// More bytes arrived than were announced.
    ExpectedLess { expected: u64, received: u64 },
    /// The client aborted the transfer.
    Abort { received: u64, expected: u64 },
    /// The file could not be written.
    Fs(String),
    /// A frame could not be read.
    Read(String),
}

/// Relies on `tree_magic_mini::from_u8`: a MIME type guessed from `bytes`. The
/// guess comes from the MIME database found on the machine, so nothing is
/// stated of it.
#[verifier::external_body]
fn sniff_mime(bytes: &[u8]) -> (r: String) {
    tree_magic_mini::from_u8(bytes).to_string()
}

/// Appends the decimal form of `n`, then `b`, to `s`.
fn with_number(s: &mut String, n: u64, b: &str)
    ensures
        final(s)@ == old(s)@ + decimal_of(n as nat) + b@,
{
    let d = decimal(n);
    s.append(d.as_str());
    s.append(b);
}

impl StreamFileError {
    pub fn fs(detail: String) -> (r: Self)
        ensures
            r == StreamFileError::Fs(detail),
    {
        StreamFileError::Fs(detail)
    }

    pub fn read(detail: String) -> (r: Self)
        ensures
            r == StreamFileError::Read(detail),
    {
        StreamFileError::Read(detail)
    }

    /// The text that describes this error.
    pub fn message(&self) -> (r: String)
        ensures
            r@ == self.message_spec(),
    {
        match self {
            StreamFileError::ExpectedMore { expected, received } => {
                let mut s = String::from_str("Expected ");
                with_number(&mut s, *expected, " bytes but received ");
                with_number(&mut s, *received, " bytes (not enough)");
                s
            },
            StreamFileError::ExpectedLess { expected, received } => {
                let mut s = String::from_str("Expected ");
                with_number(&mut s, *expected, " bytes but received ");
                with_number(&mut s, *received, " bytes (too many)");
                s
            },
            StreamFileError::Abort { received, expected } => {
                let mut s = String::from_str(
                    "Client explicitly aborted file transfer without `end` message. Received ",
                );
                with_number(&mut s, *received, " out of ");
                with_number(&mut s, *expected, " bytes");
                s
            },
            StreamFileError::Fs(d) => {
                let mut s = String::from_str("File system error: ");
                s.append(d.as_str());
                s
            },
            StreamFileError::Read(d) => {
                let mut s = String::from_str("Client read error: ");
                s.append(d.as_str());
                s
            },
        }
    }

    pub open spec fn message_spec(&self) -> Seq<char> {
        match self {
            StreamFileError::ExpectedMore { expected, received } => "Expected "@ + decimal_of(
                *expected as nat,
            ) + " bytes but received "@ + decimal_of(*received as nat) + " bytes (not enough)"@,
            StreamFileError::ExpectedLess { expected, received } => "Expected "@ + decimal_of(
                *expected as nat,
            ) + " bytes but received "@ + decimal_of(*received as nat) + " bytes (too many)"@,
            StreamFileError::Abort { received, expected } =>
                "Client explicitly aborted file transfer without `end` message. Received "@
                + decimal_of(*received as nat) + " out of "@ + decimal_of(*expected as nat)
                + " bytes"@,
            StreamFileError::Fs(d) => "File system error: "@ + d@,
            StreamFileError::Read(d) => "Client read error: "@ + d@,
        }
    }

    /// The error reported to the client: a file system failure is an execution
    /// error, an abort is acknowledged as such, and everything else (a frame that
    /// could not be read, a size mismatch) is a read error carrying the message.
    pub fn to_response(self) -> (r: response::Error)
        ensures
            match self {
                StreamFileError::Fs(d) => r == response::Error::MessageExec(d),
                StreamFileError::Abort { .. } => r == response::Error::ClientAbort,
                _ => r matches response::Error::Read(m) && m@ == self.message_spec(),
            },
    {
        match self {
            StreamFileError::Fs(d) => response::Error::MessageExec(d),
            StreamFileError::Abort { .. } => response::Error::ClientAbort,
            _ => response::Error::Read(self.message()),
        }
    }
}

/// The outcome owed once a transfer announced as `expected` bytes has stopped
/// with `received` bytes in: success exactly when the two agree.
pub open spec fn reconcile(received: u64, expected: u64) -> Result<(), StreamFileError> {
    if expected == received {
        Ok(())
    } else if expected > received {
        Err(StreamFileError::ExpectedMore { expected, received })
    } else {
        Err(StreamFileError::ExpectedLess { expected, received })
    }
}

/// Compares the bytes received with the bytes announced.
pub fn decide_streamed_file_result(received: u64, expected: u64) -> (r: Result<(), StreamFileError>)
    ensures
        r == reconcile(received, expected),
{
    if expected == received {
        Ok(())
    } else if expected > received {
        Err(StreamFileError::ExpectedMore { expected, received })
    } else {
        Err(StreamFileError::ExpectedLess { expected, received })
    }
}

/// Copies from the front of `src` to the front of `dest` as many bytes as both
/// hold, and returns how many that was.
pub fn copy_bytes(src: &[u8], dest: &mut [u8]) -> (r: usize)
    ensures
        r == if src@.len() < old(dest)@.len() { src@.len() } else { old(dest)@.len() },
        final(dest)@ == src@.take(r as int) + old(dest)@.skip(r as int),
{
    let length = if src.len() < dest.len() { src.len() } else { dest.len() };
    let mut i: usize = 0;
    while i < length
        invariant
            length <= src@.len(),
            length <= old(dest)@.len(),
            i <= length,
            dest@.len() == old(dest)@.len(),
            dest@ == src@.take(i as int) + old(dest)@.skip(i as int),
        decreases length - i,
    {
        dest[i] = src[i];
        i += 1;
        assert(dest@ =~= src@.take(i as int) + old(dest)@.skip(i as int));
    }
    length
}


/// What the caller does after a frame has been taken in.
pub enum Step {
    /// Append these bytes to the file, then read the next frame if `wants_more`
    /// holds, else `finish`.
    Store(Vec<u8>),
    /// Remove the file (best effort), then fail with this error.
    Remove(StreamFileError),
    /// Fail with this error; the file stays as it is.
    Fail(StreamFileError),
    /// The client ended the transfer: `finish`.
    Finish,
}

/// Where a transfer stands after a sequence of frames.
pub enum Progress {
    /// More frames are needed.
    Pending,
    /// The transfer stopped: by `End`, or because more than announced arrived.
    Stopped,
    /// The client aborted.
    Aborted,
    /// A chunk would take the byte count past what a `u64` holds.
    Overflowed,
}

/// Plays the receiving loop over `frames`, starting with `stored` kept:
/// where it stands and what has been kept.
pub open spec fn run_frames(expected: u64, stored: Seq<u8>, frames: Seq<FrameModel>) -> (
    Progress,
    Seq<u8>,
)
    decreases frames.len(),
{
    if stored.len() > expected {
        (Progress::Stopped, stored)
    } else if frames.len() == 0 {
        (Progress::Pending, stored)
    } else {
        match frames[0] {
            FrameModel::Chunk(d) => if stored.len() + d.len() > u64::MAX {
                (Progress::Overflowed, stored)
            } else {
                run_frames(expected, stored + d, frames.drop_first())
            },
            FrameModel::Abort => (Progress::Aborted, stored),
            FrameModel::End => (Progress::Stopped, stored),
        }
    }
}

/// The result of a transfer announced as `expected` bytes that stopped with
/// `stored` kept: the length and hash on success.
pub open spec fn stopped_result(expected: u64, stored: Seq<u8>) -> Result<
    (u64, Seq<u8>),
    StreamFileError,
> {
    match reconcile(stored.len() as u64, expected) {
        Ok(()) => Ok((expected, sha256_of(stored))),
        Err(e) => Err(e),
    }
}

/// The result of the transfer once `frames` have been played, if it is over.
pub open spec fn transfer_result(expected: u64, frames: Seq<FrameModel>) -> Option<
    Result<(u64, Seq<u8>), StreamFileError>,
> {
    let (progress, stored) = run_frames(expected, Seq::empty(), frames);
    match progress {
        Progress::Pending => None,
        Progress::Stopped => Some(stopped_result(expected, stored)),
        Progress::Aborted => Some(
            Err(StreamFileError::Abort { received: stored.len() as u64, expected }),
        ),
        Progress::Overflowed => Some(
            Err(StreamFileError::ExpectedLess { expected, received: u64::MAX }),
        ),
    }
}

/// The state of one streamed transfer on the receiving side.
pub struct StreamReceiver {
    expected: u64,
    received: u64,
    detection: Vec<u8>,
    detected: usize,
    hasher: Sha256Hasher,
    kept: Ghost<Seq<u8>>,
}

impl StreamReceiver {
    /// Every byte stored so far, in order.
    pub closed spec fn stored(&self) -> Seq<u8> {
        self.kept@
    }

    /// The number of bytes announced.
    pub closed spec fn expected(&self) -> u64 {
        self.expected
    }

    pub closed spec fn wf(&self) -> bool {
        &&& self.received as int == self.stored().len()
        &&& absorbed(self.hasher) == self.stored()
        &&& self.detection@.len() == MIME_DETECTION_BUFFER_SIZE
        &&& self.detected as int == if self.stored().len() < MIME_DETECTION_BUFFER_SIZE {
            self.stored().len() as int
        } else {
            MIME_DETECTION_BUFFER_SIZE as int
        }
        &&& self.detection@.take(self.detected as int) == self.stored().take(self.detected as int)
    }

    /// A transfer of `expected` bytes with nothing received yet.
    pub fn new(expected: u64) -> (r: Self)
        ensures
            r.wf(),
            r.expected() == expected,
            r.stored() == Seq::<u8>::empty(),
    {
        let r = StreamReceiver {
            expected,
            received: 0,
            detection: vec![0u8; MIME_DETECTION_BUFFER_SIZE],
            detected: 0,
            hasher: Sha256Hasher::new(),
            kept: Ghost(Seq::empty()),
        };
        assert(r.detection@.take(0) =~= r.stored().take(0));
        r
    }

    /// Whether another frame is to be read: not more than announced has arrived.
    pub fn wants_more(&self) -> (r: bool)
        requires
            self.wf(),
        ensures
            r == (self.stored().len() <= self.expected()),
    {
        self.received <= self.expected
    }

    /// Bytes received so far.
    pub fn received(&self) -> (r: u64)
        requires
            self.wf(),
        ensures
            r == self.stored().len(),
    {
        self.received
    }

    fn keep(&mut self, data: &[u8])
        requires
            old(self).wf(),
            old(self).stored().len() + data@.len() <= u64::MAX,
        ensures
            final(self).wf(),
            final(self).expected() == old(self).expected(),
            final(self).stored() == old(self).stored() + data@,
    {
        let ghost old_stored = self.stored();
        let ghost old_detection = self.detection@;
        let ghost d0 = self.detected as int;
        self.hasher.update(data);
        self.received = self.received + data.len() as u64;
        self.kept = Ghost(self.kept@ + data@);
        let detected = self.detected;
        let (_, tail) = self.detection.as_mut_slice().split_at_mut(detected);
        let n = copy_bytes(data, tail);
        self.detected = detected + n;
        proof {
            let new_stored = old_stored + data@;
            assert(self.detection@.len() == MIME_DETECTION_BUFFER_SIZE);
            let d1 = self.detected as int;
            assert(self.detection@.take(d1) =~= old_detection.take(d0) + data@.take(n as int));
            if old_stored.len() < MIME_DETECTION_BUFFER_SIZE {
                assert(old_stored.take(d0) =~= old_stored);
            } else {
                assert(n == 0);
            }
            assert(new_stored.take(d1) =~= old_stored.take(d0) + data@.take(n as int));
        }
    }

    /// Takes in one frame while `wants_more` holds.
    pub fn step(&mut self, frame: StreamedFile) -> (r: Step)
        requires
            old(self).wf(),
            old(self).stored().len() <= old(self).expected(),
        ensures
            final(self).wf(),
            final(self).expected() == old(self).expected(),
            match frame@ {
                FrameModel::Chunk(d) => if old(self).stored().len() + d.len() > u64::MAX {
                    final(self).stored() == old(self).stored() && r == Step::Fail(
                        StreamFileError::ExpectedLess {
                            expected: old(self).expected(),
                            received: u64::MAX,
                        },
                    )
                } else {
                    final(self).stored() == old(self).stored() + d && (r matches Step::Store(v)
                        && v@ == d)
                },
                FrameModel::Abort => final(self).stored() == old(self).stored() && r == Step::Remove(
                    StreamFileError::Abort {
                        received: old(self).stored().len() as u64,
                        expected: old(self).expected(),
                    },
                ),
                FrameModel::End => final(self).stored() == old(self).stored() && r == Step::Finish,
            },
    {
        match frame {
            StreamedFile::Payload(data) => {
                if data.len() as u64 > u64::MAX - self.received {
                    Step::Fail(
                        StreamFileError::ExpectedLess { expected: self.expected, received: u64::MAX },
                    )
                } else {
                    self.keep(data.as_slice());
                    Step::Store(data)
                }
            },
            StreamedFile::Abort => Step::Remove(
                StreamFileError::Abort { received: self.received, expected: self.expected },
            ),
            StreamedFile::End => Step::Finish,
        }
    }

    /// Closes the transfer: the length, hash and guessed type of what was
    /// stored, if it is exactly what was announced.
    pub fn finish(self) -> (r: Result<StreamInfo, StreamFileError>)
        requires
            self.wf(),
        ensures
            match stopped_result(self.expected(), self.stored()) {
                Ok((length, hash)) => (r matches Ok(info) && info.length == length && info.hash@
                    == hash && info.mime is Some),
                Err(e) => r == Err::<StreamInfo, StreamFileError>(e),
            },
    {
        let received = self.received;
        let expected = self.expected;
        let StreamReceiver { detection, detected, hasher, .. } = self;
        let hash = hasher.finalize();
        let mime = sniff_mime(&detection.as_slice()[0..detected]);
        match decide_streamed_file_result(received, expected) {
            Ok(()) => Ok(StreamInfo { length: received, hash, mime: Some(mime) }),
            Err(e) => Err(e),
        }
    }
}

/// The frames as values.
pub open spec fn frame_models(frames: Seq<StreamedFile>) -> Seq<FrameModel> {
    frames.map_values(|f: StreamedFile| f@)
}

/// Plays the receiving loop over frames already read: what the transfer
/// yields and the bytes it stored, in order (the file's contents), or `None`
/// where the frames run out while more are wanted. Frames after the transfer
/// stopped are left unread.
pub fn receive_frames(expected: u64, frames: Vec<StreamedFile>) -> (r: Option<
    (Result<StreamInfo, StreamFileError>, Vec<u8>),
>)
    ensures
        match transfer_result(expected, frame_models(frames@)) {
            None => r is None,
            Some(res) => r matches Some((out, written)) && written@ == run_frames(
                expected,
                Seq::empty(),
                frame_models(frames@),
            ).1 && match res {
                Ok((length, hash)) => out matches Ok(info) && info.length == length
                    && info.hash@ == hash,
                Err(e) => out == Err::<StreamInfo, StreamFileError>(e),
            },
        },
{
    let ghost all = frame_models(frames@);
    let mut rest = frames;
    let mut rx = StreamReceiver::new(expected);
    let mut written: Vec<u8> = Vec::new();
    loop
        invariant_except_break
            run_frames(expected, Seq::empty(), all) == run_frames(
                expected,
                rx.stored(),
                frame_models(rest@),
            ),
        invariant
            all == frame_models(frames@),
            rx.wf(),
            rx.expected() == expected,
            written@ == rx.stored(),
        ensures
            run_frames(expected, Seq::empty(), all) == (Progress::Stopped, rx.stored()),
        decreases rest@.len(),
    {
        if !rx.wants_more() {
            break;
        }
        if rest.len() == 0 {
            return None;
        }
        let ghost models = frame_models(rest@);
        let frame = rest.remove(0);
        proof {
            assert(models[0] == frame@);
            assert(frame_models(rest@) =~= models.drop_first());
        }
        match rx.step(frame) {
            Step::Store(data) => {
                written.extend_from_slice(data.as_slice());
            },
            Step::Remove(e) => {
                return Some((Err(e), written));
            },
            Step::Fail(e) => {
                return Some((Err(e), written));
            },
            Step::Finish => {
                break;
            },
        }
    }
    Some((rx.finish(), written))
}

/// What is known of a file received in one piece.
pub fn inline_info(data: &[u8]) -> (r: StreamInfo)
    requires
        data@.len() <= u64::MAX,
    ensures
        r.length == data@.len(),
        r.hash@ == sha256_of(data@),
        r.mime is Some,
{
    let hash = crate::hashing::sha256(data);
    StreamInfo { length: data.len() as u64, hash, mime: Some(sniff_mime(data)) }
}


/// The frames that carry `chunks` as payloads, in order.
pub open spec fn chunk_frames(chunks: Seq<Seq<u8>>) -> Seq<FrameModel> {
    chunks.map_values(|c: Seq<u8>| FrameModel::Chunk(c))
}

proof fn lemma_chunk_frames_front(chunks: Seq<Seq<u8>>, rest: Seq<FrameModel>)
    requires
        chunks.len() > 0,
    ensures
        (chunk_frames(chunks) + rest).len() > 0,
        (chunk_frames(chunks) + rest)[0] == FrameModel::Chunk(chunks[0]),
        (chunk_frames(chunks) + rest).drop_first() == chunk_frames(chunks.drop_first()) + rest,
        chunks.flatten() == chunks[0] + chunks.drop_first().flatten(),
{
    assert((chunk_frames(chunks) + rest).drop_first() =~= chunk_frames(chunks.drop_first()) + rest);
}

/// Chunks that stay within the announced size are all stored, in order.
proof fn lemma_run_within(
    expected: u64,
    stored: Seq<u8>,
    chunks: Seq<Seq<u8>>,
    rest: Seq<FrameModel>,
)
    requires
        stored.len() + chunks.flatten().len() <= expected,
    ensures
        run_frames(expected, stored, chunk_frames(chunks) + rest) == run_frames(
            expected,
            stored + chunks.flatten(),
            rest,
        ),
    decreases chunks.len(),
{
    if chunks.len() == 0 {
        assert(chunk_frames(chunks) + rest =~= rest);
        assert(stored + chunks.flatten() =~= stored);
    } else {
        lemma_chunk_frames_front(chunks, rest);
        lemma_run_within(expected, stored + chunks[0], chunks.drop_first(), rest);
        assert(stored + chunks[0] + chunks.drop_first().flatten() =~= stored + chunks.flatten());
    }
}

/// Chunks that go past the announced size stop the transfer with more than
/// announced stored, or overflow the count.
proof fn lemma_run_beyond(
    expected: u64,
    stored: Seq<u8>,
    chunks: Seq<Seq<u8>>,
    rest: Seq<FrameModel>,
)
    requires
        stored.len() <= expected,
        stored.len() + chunks.flatten().len() > expected,
    ensures
        ({
            let (p, kept) = run_frames(expected, stored, chunk_frames(chunks) + rest);
            p == Progress::Overflowed || (p == Progress::Stopped && expected < kept.len()
                <= u64::MAX)
        }),
    decreases chunks.len(),
{
    if chunks.len() == 0 {
    } else {
        lemma_chunk_frames_front(chunks, rest);
        let s1 = stored + chunks[0];
        if stored.len() + chunks[0].len() > u64::MAX {
        } else if s1.len() > expected {
            assert(run_frames(expected, s1, chunk_frames(chunks.drop_first()) + rest).0
                == Progress::Stopped);
        } else {
            lemma_run_beyond(expected, s1, chunks.drop_first(), rest);
        }
    }
}

/// Size reconciliation: with `chunks` summing to `M` bytes announced as `N`,
/// ending with `End` succeeds exactly when `M = N`, reports `ExpectedMore` when
/// `M < N`, and whatever follows the chunks, `M > N` reports `ExpectedLess`.
pub proof fn lemma_size_reconciliation(expected: u64, chunks: Seq<Seq<u8>>, last: FrameModel)
    ensures
        ({
            let m = chunks.flatten().len();
            let with_end = transfer_result(expected, chunk_frames(chunks).push(FrameModel::End));
            &&& m == expected ==> with_end == Some(
                Ok::<(u64, Seq<u8>), StreamFileError>((expected, sha256_of(chunks.flatten()))),
            )
            &&& m < expected ==> with_end == Some(
                Err::<(u64, Seq<u8>), StreamFileError>(
                    StreamFileError::ExpectedMore { expected, received: m as u64 },
                ),
            )
            &&& m > expected ==> transfer_result(expected, chunk_frames(chunks).push(last)) matches Some(
                Err(StreamFileError::ExpectedLess { .. }),
            )
        }),
{
    let m = chunks.flatten().len();
    let end = seq![FrameModel::End];
    assert(chunk_frames(chunks).push(FrameModel::End) =~= chunk_frames(chunks) + end);
    assert(chunk_frames(chunks).push(last) =~= chunk_frames(chunks) + seq![last]);
    assert(Seq::<u8>::empty() + chunks.flatten() =~= chunks.flatten());
    if m <= expected {
        lemma_run_within(expected, Seq::empty(), chunks, end);
        assert(end[0] == FrameModel::End);
        assert(run_frames(expected, chunks.flatten(), end) == (
            Progress::Stopped,
            chunks.flatten(),
        ));
    } else {
        lemma_run_beyond(expected, Seq::empty(), chunks, seq![last]);
    }
}

/// Streamed and inline uploads agree: whatever the chunking of `data`,
/// streaming it and ending with `End` stores exactly `data` and yields its
/// length and its SHA-256, which is what `inline_info` gives for `data`.
pub proof fn lemma_streamed_hash_equivalence(data: Seq<u8>, chunks: Seq<Seq<u8>>)
    requires
        chunks.flatten() == data,
        data.len() <= u64::MAX,
    ensures
        run_frames(
            data.len() as u64,
            Seq::empty(),
            chunk_frames(chunks).push(FrameModel::End),
        ).1 == data,
        transfer_result(data.len() as u64, chunk_frames(chunks).push(FrameModel::End)) == Some(
            Ok::<(u64, Seq<u8>), StreamFileError>((data.len() as u64, sha256_of(data))),
        ),
{
    let end = seq![FrameModel::End];
    assert(chunk_frames(chunks).push(FrameModel::End) =~= chunk_frames(chunks) + end);
    assert(Seq::<u8>::empty() + data =~= data);
    lemma_run_within(data.len() as u64, Seq::empty(), chunks, end);
    assert(end.drop_first().len() == 0);
    lemma_size_reconciliation(data.len() as u64, chunks, FrameModel::End);
}

/// Abort: chunks within the announced size followed by `Abort` end the transfer
/// with the `Abort` error, counting the bytes that came before it.
pub proof fn lemma_abort(expected: u64, chunks: Seq<Seq<u8>>)
    requires
        chunks.flatten().len() <= expected,
    ensures
        transfer_result(expected, chunk_frames(chunks).push(FrameModel::Abort)) == Some(
            Err::<(u64, Seq<u8>), StreamFileError>(
                StreamFileError::Abort { received: chunks.flatten().len() as u64, expected },
            ),
        ),
{
    let ab = seq![FrameModel::Abort];
    assert(chunk_frames(chunks).push(FrameModel::Abort) =~= chunk_frames(chunks) + ab);
    assert(Seq::<u8>::empty() + chunks.flatten() =~= chunks.flatten());
    lemma_run_within(expected, Seq::empty(), chunks, ab);
}

} // verus!
