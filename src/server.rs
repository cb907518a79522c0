//! One connected client's session, and the decisions of each tick of its loop:
//! read a request, carry it out, answer.
use vstd::prelude::*;

use crate::proto::response;

verus! {

/// The state of one connected client: where it connects from, its stream, and
/// the nickname it announced, if any.
pub struct Client<S> {
    address: String,
    stream: S,
    nickname: Option<String>,
}

/// A nickname as a value.
pub open spec fn nickname_view(n: Option<String>) -> Option<Seq<char>> {
    match n {
        Some(s) => Some(s@),
        None => None,
    }
}

impl<S> Client<S> {
    pub closed spec fn address(&self) -> Seq<char> {
        self.address@
    }

    pub closed spec fn nickname(&self) -> Option<Seq<char>> {
        nickname_view(self.nickname)
    }

    pub closed spec fn stream_spec(&self) -> S {
        self.stream
    }

    /// A new session for a client at `address`, with no nickname yet.
    pub fn new(address: String, stream: S) -> (r: Self)
        ensures
            r.address() == address@,
            r.stream_spec() == stream,
            r.nickname() is None,
    {
        Client { address, stream, nickname: None }
    }

    /// The session's stream.
    pub fn get_stream(&mut self) -> (r: &mut S)
        ensures
            *r == old(self).stream_spec(),
            final(self).stream_spec() == *final(r),
            final(self).address() == old(self).address(),
            final(self).nickname() == old(self).nickname(),
    {
        &mut self.stream
    }

    /// Replaces the nickname.
    pub fn set_nickname(&mut self, nickname: String)
        ensures
            final(self).nickname() == Some(nickname@),
            final(self).address() == old(self).address(),
            final(self).stream_spec() == old(self).stream_spec(),
    {
        self.nickname = Some(nickname);
    }

    /// The nickname, if one was announced.
    pub fn get_nickname(&self) -> (r: Option<&String>)
        ensures
            match r {
                Some(s) => self.nickname() == Some(s@),
                None => self.nickname() is None,
            },
    {
        match &self.nickname {
            Some(n) => Some(n),
            None => None,
        }
    }

    /// Where the client connects from.
    pub fn get_address(&self) -> (r: &String)
        ensures
            r@ == self.address(),
    {
        &self.address
    }
}

/// Whether a session goes on after a tick.
#[derive(Debug, Clone, Copy, PartialEq, Eq, Structural)]
pub enum LoopInstruction {
    Continue,
    Break,
}

/// What a tick learnt of one request: the read failure, or the outcome of
/// carrying it out.
pub type TickOutcome = Result<Result<(), response::Error>, String>;

/// The answer owed for one request: a read failure is reported as such,
/// otherwise the outcome of carrying the request out.
pub open spec fn answer(read: TickOutcome) -> response::Message {
    match read {
        Err(detail) => response::Message::Failure(response::Error::Read(detail)),
        Ok(Ok(())) => response::Message::Success,
        Ok(Err(e)) => response::Message::Failure(e),
    }
}

/// The answers written on each of several sessions' streams after `ticks`,
/// each a session's index and what its tick learnt, in the order they ran.
pub open spec fn delivered(
    streams: Seq<Seq<response::Message>>,
    ticks: Seq<(int, TickOutcome)>,
) -> Seq<Seq<response::Message>>
    decreases ticks.len(),
{
    if ticks.len() == 0 {
        streams
    } else {
        let before = delivered(streams, ticks.drop_last());
        let (k, read) = ticks.last();
        if 0 <= k < before.len() {
            before.update(k, before[k].push(answer(read)))
        } else {
            before
        }
    }
}

/// The answers owed for the ticks run on session `k`, in order.
pub open spec fn answers_on(ticks: Seq<(int, TickOutcome)>, k: int) -> Seq<response::Message>
    decreases ticks.len(),
{
    if ticks.len() == 0 {
        Seq::empty()
    } else if ticks.last().0 == k {
        answers_on(ticks.drop_last(), k).push(answer(ticks.last().1))
    } else {
        answers_on(ticks.drop_last(), k)
    }
}

/// Session independence: however the ticks of several sessions interleave,
/// each session's stream receives exactly the answers to its own requests, in
/// order, and nothing owed to another session.
pub proof fn lemma_session_independence(
    streams: Seq<Seq<response::Message>>,
    ticks: Seq<(int, TickOutcome)>,
    k: int,
)
    requires
        0 <= k < streams.len(),
    ensures
        delivered(streams, ticks).len() == streams.len(),
        delivered(streams, ticks)[k] == streams[k] + answers_on(ticks, k),
    decreases ticks.len(),
{
    if ticks.len() == 0 {
        assert(streams[k] + answers_on(ticks, k) =~= streams[k]);
    } else {
        lemma_session_independence(streams, ticks.drop_last(), k);
        let own = answers_on(ticks.drop_last(), k);
        if ticks.last().0 == k {
            assert(streams[k] + own.push(answer(ticks.last().1)) =~= (streams[k] + own).push(
                answer(ticks.last().1),
            ));
        }
    }
}

/// The answer owed for one request: a read failure is reported as such,
/// otherwise the outcome of carrying the request out.
pub fn tick_response(read: TickOutcome) -> (r: response::Message)
    ensures
        r == answer(read),
{
    match read {
        Err(detail) => response::Message::Failure(response::Error::Read(detail)),
        Ok(outcome) => response::Message::from_result(outcome),
    }
}

/// A session ends only when its answer could not be sent; a request that could
/// not be read or carried out leaves it running.
pub fn after_response(sent: bool) -> (r: LoopInstruction)
    ensures
        r == if sent { LoopInstruction::Continue } else { LoopInstruction::Break },
{
    if sent {
        LoopInstruction::Continue
    } else {
        LoopInstruction::Break
    }
}

} // verus!
