//! Envelope framing: every message on the wire is an 8-byte big-endian length
//! followed by exactly that many body bytes.
use vstd::prelude::*;

pub mod request;
pub mod response;

verus! {

/// A value on its way to or from the wire, framed as one envelope.
#[derive(Debug, PartialEq, Eq)]
pub struct Payload<T>(T);

impl<T> View for Payload<T> {
    type V = T;

    closed spec fn view(&self) -> T {
        self.0
    }
}

impl<T> Payload<T> {
    /// Wraps a value.
    pub fn new(payload: T) -> (r: Self)
        ensures
            r@ == payload,
    {
        Payload(payload)
    }

    /// The wrapped value.
    pub fn into_inner(self) -> (r: T)
        ensures
            r == self@,
    {
        self.0
    }

    /// A reference to the wrapped value.
    pub fn as_ref(&self) -> (r: &T)
        ensures
            *r == self@,
    {
        &self.0
    }
}

/// Size in bytes of the length prefix of an envelope.
pub const LEN_PREFIX: usize = 8;

/// The big-endian bytes of `n`, most significant first.
pub open spec fn be_bytes(n: u64) -> Seq<u8> {
    seq![
        (n >> 56u64) as u8,
        (n >> 48u64) as u8,
        (n >> 40u64) as u8,
        (n >> 32u64) as u8,
        (n >> 24u64) as u8,
        (n >> 16u64) as u8,
        (n >> 8u64) as u8,
        n as u8,
    ]
}

/// The number whose big-endian bytes are the first eight of `b`.
pub open spec fn be_value(b: Seq<u8>) -> u64
    recommends
        b.len() >= 8,
{
    ((b[0] as u64) << 56u64) | ((b[1] as u64) << 48u64) | ((b[2] as u64) << 40u64) | ((
    b[3] as u64) << 32u64) | ((b[4] as u64) << 24u64) | ((b[5] as u64) << 16u64) | ((
    b[6] as u64) << 8u64) | (b[7] as u64)
}

/// Reading back the big-endian bytes of a number gives the number.
pub proof fn lemma_be_round_trip(n: u64)
    ensures
        be_value(be_bytes(n)) == n,
{
    assert(((((n >> 56u64) as u8) as u64) << 56u64) | ((((n >> 48u64) as u8) as u64) << 48u64)
        | ((((n >> 40u64) as u8) as u64) << 40u64) | ((((n >> 32u64) as u8) as u64) << 32u64)
        | ((((n >> 24u64) as u8) as u64) << 24u64) | ((((n >> 16u64) as u8) as u64) << 16u64)
        | ((((n >> 8u64) as u8) as u64) << 8u64) | ((n as u8) as u64) == n) by (bit_vector);
}

/// Writes `n` as eight big-endian bytes.
pub fn u64_to_be_bytes(n: u64) -> (r: Vec<u8>)
    ensures
        r@ == be_bytes(n),
{
    let mut r: Vec<u8> = Vec::with_capacity(LEN_PREFIX);
    r.push((n >> 56u64) as u8);
    r.push((n >> 48u64) as u8);
    r.push((n >> 40u64) as u8);
    r.push((n >> 32u64) as u8);
    r.push((n >> 24u64) as u8);
    r.push((n >> 16u64) as u8);
    r.push((n >> 8u64) as u8);
    r.push(n as u8);
    assert(r@ =~= be_bytes(n));
    r
}

/// Reads the first eight bytes of `b` as a big-endian number.
pub fn u64_from_be_bytes(b: &[u8]) -> (r: u64)
    requires
        b@.len() >= 8,
    ensures
        r == be_value(b@),
{
    ((b[0] as u64) << 56u64) | ((b[1] as u64) << 48u64) | ((b[2] as u64) << 40u64) | ((
    b[3] as u64) << 32u64) | ((b[4] as u64) << 24u64) | ((b[5] as u64) << 16u64) | ((
    b[6] as u64) << 8u64) | (b[7] as u64)
}


/// Why an envelope could not be read from a buffer.
#[derive(Debug, Clone, Copy, PartialEq, Eq, Structural)]
pub enum FrameError {
    /// The input ended before the length prefix or the announced body did.
    Truncated,
    /// The announced body length does not fit this platform's buffers.
    TooLarge,
}

/// The envelope of `body`: its length as eight big-endian bytes, then the body.
pub open spec fn frame(body: Seq<u8>) -> Seq<u8> {
    be_bytes(body.len() as u64) + body
}

/// What reading one envelope from the front of `s` yields: the body and the
/// number of bytes consumed, or why it fails.
pub open spec fn read_frame(s: Seq<u8>) -> Result<(Seq<u8>, int), FrameError> {
    if s.len() < LEN_PREFIX {
        Err(FrameError::Truncated)
    } else {
        let n = be_value(s);
        if n > usize::MAX {
            Err(FrameError::TooLarge)
        } else if s.len() < LEN_PREFIX + n {
            Err(FrameError::Truncated)
        } else {
            Ok((s.subrange(LEN_PREFIX as int, LEN_PREFIX + n), LEN_PREFIX + n))
        }
    }
}

/// The body length announced by an 8-byte envelope header, as a buffer size.
pub fn frame_len(header: &[u8]) -> (r: Result<usize, FrameError>)
    requires
        header@.len() == LEN_PREFIX,
    ensures
        r is Ok <==> be_value(header@) <= usize::MAX,
        r is Ok ==> r->Ok_0 as u64 == be_value(header@),
        r is Err ==> r->Err_0 == FrameError::TooLarge,
{
    let n = u64_from_be_bytes(header);
    if n > usize::MAX as u64 {
        Err(FrameError::TooLarge)
    } else {
        Ok(n as usize)
    }
}

/// Writes the envelope of `body`.
pub fn encode_frame(body: &[u8]) -> (r: Vec<u8>)
    ensures
        r@ == frame(body@),
{
    let mut r = u64_to_be_bytes(body.len() as u64);
    r.extend_from_slice(body);
    r
}

/// Reads one envelope from the front of `input`, returning its body and the
/// number of bytes it took. Nothing past the announced length is looked at.
pub fn decode_frame(input: &[u8]) -> (r: Result<(Vec<u8>, usize), FrameError>)
    ensures
        match r {
            Ok((body, used)) => read_frame(input@) == Ok::<(Seq<u8>, int), FrameError>(
                (body@, used as int),
            ),
            Err(e) => read_frame(input@) == Err::<(Seq<u8>, int), FrameError>(e),
        },
{
    if input.len() < LEN_PREFIX {
        return Err(FrameError::Truncated);
    }
    let n = u64_from_be_bytes(input);
    if n > usize::MAX as u64 {
        return Err(FrameError::TooLarge);
    }
    let n = n as usize;
    if input.len() - LEN_PREFIX < n {
        return Err(FrameError::Truncated);
    }
    let end = LEN_PREFIX + n;
    let body = vstd::slice::slice_to_vec(&input[LEN_PREFIX..end]);
    proof {
        assert(body@ =~= input@.subrange(LEN_PREFIX as int, end as int));
    }
    Ok((body, end))
}

/// Reading an envelope back gives the body that was written, and consumes
/// exactly the envelope.
pub proof fn lemma_frame_round_trip(body: Seq<u8>)
    requires
        body.len() <= usize::MAX,
    ensures
        read_frame(frame(body)) == Ok::<(Seq<u8>, int), FrameError>(
            (body, frame(body).len() as int),
        ),
        frame(body).len() == LEN_PREFIX + body.len(),
{
    let f = frame(body);
    lemma_be_round_trip(body.len() as u64);
    assert(f.subrange(0, 8) =~= be_bytes(body.len() as u64));
    assert(be_value(f) == be_value(f.subrange(0, 8)));
    assert(f.subrange(LEN_PREFIX as int, LEN_PREFIX + body.len()) =~= body);
}

/// Two envelopes written back to back are read back in order, the second
/// read ending exactly at the end of the input.
pub proof fn lemma_frame_boundary(b1: Seq<u8>, b2: Seq<u8>)
    requires
        b1.len() <= usize::MAX,
        b2.len() <= usize::MAX,
    ensures
        ({
            let s = frame(b1) + frame(b2);
            let k1 = frame(b1).len() as int;
            &&& read_frame(s) == Ok::<(Seq<u8>, int), FrameError>((b1, k1))
            &&& read_frame(s.subrange(k1, s.len() as int)) == Ok::<(Seq<u8>, int), FrameError>(
                (b2, s.len() - k1),
            )
        }),
{
    let s = frame(b1) + frame(b2);
    let f1 = frame(b1);
    let k1 = f1.len() as int;
    lemma_frame_round_trip(b1);
    lemma_frame_round_trip(b2);
    assert(s.subrange(k1, s.len() as int) =~= frame(b2));
    assert(be_value(s) == be_value(f1)) by {
        assert(s[0] == f1[0] && s[1] == f1[1] && s[2] == f1[2] && s[3] == f1[3]);
        assert(s[4] == f1[4] && s[5] == f1[5] && s[6] == f1[6] && s[7] == f1[7]);
    }
    assert(s.subrange(LEN_PREFIX as int, LEN_PREFIX + b1.len()) =~= b1);
}

} // verus!
