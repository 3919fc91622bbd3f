//! Requests that stream handles send to the connection task, and the
//! responses they get back.
use crate::buffer::{bytes_content, bytes_from_slice};
use bytes::Bytes;
use vstd::prelude::*;

verus! {

/// A request from a stream or datagram handle to the connection task.
#[derive(Debug)]
pub enum Request {
    Read { len: usize },
    Write { buf: Bytes },
    WriteDgramFlush,
    WriteDgramReady,
}

/// The connection task's answer to a `Request`.
#[derive(Debug)]
pub enum Response {
    Read { buf: Bytes },
    Write { written: usize },
    ReadDgram { bytes: Bytes },
    WriteDgramFlush,
    WriteDgramReady,
}

/// Errors of the datagram writer.
#[derive(Debug, Clone, Copy, PartialEq, Eq, Structural)]
pub enum WriteDgramError {
    ConnectionClosed,
}

/// Errors of the datagram reader.
#[derive(Debug, Clone, Copy, PartialEq, Eq, Structural)]
pub enum ReadDgramError {
    ConnectionClosed,
}

/// Whether `resp` is the kind of response that answers `req`.
pub open spec fn answers(req: Request, resp: Response) -> bool {
    match req {
        Request::Read { .. } => resp is Read,
        Request::Write { .. } => resp is Write,
        Request::WriteDgramFlush => resp is WriteDgramFlush,
        Request::WriteDgramReady => resp is WriteDgramReady,
    }
}

/// The write request that carries a copy of `buf`.
pub fn write_request(buf: &[u8]) -> (req: Request)
    requires
        buf@.len() <= isize::MAX,
    ensures
        req matches Request::Write { buf: b } && bytes_content(b) == buf@,
{
    Request::Write { buf: bytes_from_slice(buf) }
}

} // verus!
