//! The decisions of the stream and datagram handles: which command a poll
//! starts, and what a poll returns for each outcome of the command or of the
//! channel it used.
use crate::buffer::bytes_content;
use crate::command::{Command, RequestFailure};
use crate::link::write_reply;
use crate::message::{answers, ReadDgramError, Request, Response, WriteDgramError};
use bytes::Bytes;
use vstd::prelude::*;

verus! {

/// How a handle judges the outcome of its command.
#[derive(Debug, PartialEq, Eq, Structural)]
pub enum Verdict<T> {
    /// The expected response arrived, carrying this value.
    Accepted(T),
    /// A response of another kind arrived; the handle panics on it.
    Invalid,
    /// The command failed; the handle reports its error.
    Failed,
}

/// The verdict of a stream write on its command's outcome.
pub open spec fn write_verdict_of(r: Result<Response, RequestFailure>) -> Verdict<usize> {
    match r {
        Ok(Response::Write { written }) => Verdict::Accepted(written),
        Ok(_) => Verdict::Invalid,
        Err(_) => Verdict::Failed,
    }
}

/// The verdict of a datagram readiness wait on its command's outcome.
pub open spec fn ready_verdict_of(r: Result<Response, RequestFailure>) -> Verdict<()> {
    match r {
        Ok(Response::WriteDgramReady) => Verdict::Accepted(()),
        Ok(_) => Verdict::Invalid,
        Err(_) => Verdict::Failed,
    }
}

/// The verdict of a datagram flush on its command's outcome.
pub open spec fn flush_verdict_of(r: Result<Response, RequestFailure>) -> Verdict<()> {
    match r {
        Ok(Response::WriteDgramFlush) => Verdict::Accepted(()),
        Ok(_) => Verdict::Invalid,
        Err(_) => Verdict::Failed,
    }
}

/// Judges the outcome of a stream write's command.
pub fn write_verdict(r: Result<Response, RequestFailure>) -> (v: Verdict<usize>)
    ensures
        v == write_verdict_of(r),
        r is Err ==> v == Verdict::<usize>::Failed,
        r matches Ok(Response::Write { written }) ==> v == Verdict::Accepted(written),
        (r matches Ok(resp) && !(resp is Write)) ==> v == Verdict::<usize>::Invalid,
{
    match r {
        Ok(Response::Write { written }) => Verdict::Accepted(written),
        Ok(_) => Verdict::Invalid,
        Err(_) => Verdict::Failed,
    }
}

/// Judges the outcome of a datagram readiness wait's command.
pub fn ready_verdict(r: Result<Response, RequestFailure>) -> (v: Verdict<()>)
    ensures
        v == ready_verdict_of(r),
        r is Err ==> v == Verdict::<()>::Failed,
        r == Ok::<Response, RequestFailure>(Response::WriteDgramReady) ==> v == Verdict::Accepted(()),
        (r matches Ok(resp) && !(resp is WriteDgramReady)) ==> v == Verdict::<()>::Invalid,
{
    match r {
        Ok(Response::WriteDgramReady) => Verdict::Accepted(()),
        Ok(_) => Verdict::Invalid,
        Err(_) => Verdict::Failed,
    }
}

/// Judges the outcome of a datagram flush's command.
pub fn flush_verdict(r: Result<Response, RequestFailure>) -> (v: Verdict<()>)
    ensures
        v == flush_verdict_of(r),
        r is Err ==> v == Verdict::<()>::Failed,
        r == Ok::<Response, RequestFailure>(Response::WriteDgramFlush) ==> v == Verdict::Accepted(()),
        (r matches Ok(resp) && !(resp is WriteDgramFlush)) ==> v == Verdict::<()>::Invalid,
{
    match r {
        Ok(Response::WriteDgramFlush) => Verdict::Accepted(()),
        Ok(_) => Verdict::Invalid,
        Err(_) => Verdict::Failed,
    }
}

/// The command a datagram writer starts when it waits for room: none is
/// needed when the datagram channel has free capacity (the command is
/// already terminated); otherwise it asks the connection task to say when a
/// datagram may be written. A closed datagram channel is an error.
pub fn ready_command<R>(sender_open: bool, capacity: usize) -> (r: Result<Command<R>, WriteDgramError>)
    ensures
        !sender_open ==> r == Err::<Command<R>, WriteDgramError>(WriteDgramError::ConnectionClosed),
        sender_open && capacity > 0 ==> r == Ok::<Command<R>, WriteDgramError>(Command::Terminated),
        sender_open && capacity == 0 ==> r == Ok::<Command<R>, WriteDgramError>(
            Command::State0 { msg: Some(Request::WriteDgramReady) },
        ),
{
    if !sender_open {
        Err(WriteDgramError::ConnectionClosed)
    } else if capacity > 0 {
        Ok(Command::Terminated)
    } else {
        Ok(Command::new(Request::WriteDgramReady))
    }
}

/// The result of a datagram writer's operation on its channel (reserving a
/// slot, or sending into a reserved one): any failure means the connection is
/// closed.
pub fn channel_result(ok: bool) -> (r: Result<(), WriteDgramError>)
    ensures
        ok ==> r == Ok::<(), WriteDgramError>(()),
        !ok ==> r == Err::<(), WriteDgramError>(WriteDgramError::ConnectionClosed),
{
    if ok {
        Ok(())
    } else {
        Err(WriteDgramError::ConnectionClosed)
    }
}

/// The result of a datagram read once its channel resolved: the datagram, or
/// a closed connection when the channel has ended.
pub fn read_chunk_result(received: Option<Bytes>) -> (r: Result<Bytes, ReadDgramError>)
    ensures
        received matches Some(b) ==> r == Ok::<Bytes, ReadDgramError>(b),
        received is None ==> r == Err::<Bytes, ReadDgramError>(ReadDgramError::ConnectionClosed),
{
    match received {
        Some(bytes) => Ok(bytes),
        None => Err(ReadDgramError::ConnectionClosed),
    }
}

/// Every failed command is judged a failure by every handle: a stream write,
/// a readiness wait and a flush all report an error, never an invalid
/// response and never success.
pub proof fn lemma_failures_are_failures(f: RequestFailure)
    ensures
        write_verdict_of(Err(f)) == Verdict::<usize>::Failed,
        ready_verdict_of(Err(f)) == Verdict::<()>::Failed,
        flush_verdict_of(Err(f)) == Verdict::<()>::Failed,
{
}

/// A handle succeeds only on the response that answers its request: a write
/// reports exactly the count it was answered with, a readiness wait and a
/// flush succeed only on their own answers; any other response is invalid.
pub proof fn lemma_success_only_on_answer(r: Result<Response, RequestFailure>)
    ensures
        write_verdict_of(r) matches Verdict::Accepted(n) ==> r == Ok::<Response, RequestFailure>(
            Response::Write { written: n },
        ),
        ready_verdict_of(r) is Accepted ==> r == Ok::<Response, RequestFailure>(Response::WriteDgramReady),
        flush_verdict_of(r) is Accepted ==> r == Ok::<Response, RequestFailure>(Response::WriteDgramFlush),
        write_verdict_of(r) is Invalid <==> (r is Ok && !(r->Ok_0 is Write)),
        ready_verdict_of(r) is Invalid <==> (r is Ok && !(r->Ok_0 is WriteDgramReady)),
        flush_verdict_of(r) is Invalid <==> (r is Ok && !(r->Ok_0 is WriteDgramFlush)),
{
}

/// A handle accepts a response exactly when it is of the kind that answers
/// its request.
pub proof fn lemma_verdicts_follow_answers(buf: Bytes, r: Response)
    ensures
        (write_verdict_of(Ok(r)) is Accepted) <==> answers(Request::Write { buf }, r),
        (ready_verdict_of(Ok(r)) is Accepted) <==> answers(Request::WriteDgramReady, r),
        (flush_verdict_of(Ok(r)) is Accepted) <==> answers(Request::WriteDgramFlush, r),
{
}

/// The connection task's answers are the ones the handles expect: a stream
/// write is reported as having written exactly the bytes it sent, and the
/// answers to readiness and flush requests are accepted.
pub proof fn lemma_replies_accepted(buf: Bytes, data: Seq<u8>)
    requires
        bytes_content(buf) == data,
        data.len() <= usize::MAX,
    ensures
        write_verdict_of(Ok(write_reply(buf))) == Verdict::Accepted(data.len() as usize),
        ready_verdict_of(Ok(Response::WriteDgramReady)) == Verdict::Accepted(()),
        flush_verdict_of(Ok(Response::WriteDgramFlush)) == Verdict::Accepted(()),
{
}

} // verus!
