//! The reading side of a stream: bytes that arrived from the connection task
//! are kept until the reader has room for them, and are handed out in order.
use crate::buffer::bytes_content;
use bytes::Bytes;
use vstd::prelude::*;

verus! {

/// How many bytes one read hands out when `available` bytes are pending and
/// the reader has room for `remaining`.
pub open spec fn read_len(available: nat, remaining: nat) -> nat {
    if remaining < available {
        remaining
    } else {
        available
    }
}

/// The bytes handed out by one read of at most `remaining` bytes.
pub open spec fn read_chunk(pending: Seq<u8>, remaining: nat) -> Seq<u8> {
    pending.take(read_len(pending.len(), remaining) as int)
}

/// The bytes left pending after one read of at most `remaining` bytes.
pub open spec fn read_rest(pending: Seq<u8>, remaining: nat) -> Seq<u8> {
    pending.skip(read_len(pending.len(), remaining) as int)
}

/// The bytes stored, empty when nothing is.
pub open spec fn stored(v: Option<Seq<u8>>) -> Seq<u8> {
    match v {
        Some(p) => p,
        None => Seq::empty(),
    }
}

/// One step of a read poll on the stored bytes.
pub enum ReadEvent {
    /// A read with room for this many bytes.
    Take(nat),
    /// These bytes arrived from the connection task.
    Arrive(Seq<u8>),
}

/// The stored bytes after `e`, and the bytes it hands to the reader.
pub open spec fn apply_read(v: Option<Seq<u8>>, e: ReadEvent) -> (Option<Seq<u8>>, Seq<u8>) {
    match e {
        ReadEvent::Take(room) => match v {
            None => (None, Seq::empty()),
            Some(p) => (
                if read_len(p.len(), room) == p.len() {
                    None
                } else {
                    Some(read_rest(p, room))
                },
                read_chunk(p, room),
            ),
        },
        ReadEvent::Arrive(b) => (Some(b), Seq::empty()),
    }
}

/// Whether bytes arrive, in `evs`, only when nothing is stored (which is
/// when a read poll waits for more).
pub open spec fn arrivals_when_drained(v: Option<Seq<u8>>, evs: Seq<ReadEvent>) -> bool
    decreases evs.len(),
{
    evs.len() == 0 || ((evs[0] is Arrive ==> v is None) && arrivals_when_drained(
        apply_read(v, evs[0]).0,
        evs.drop_first(),
    ))
}

/// The stored bytes after the events `evs`.
pub open spec fn read_final(v: Option<Seq<u8>>, evs: Seq<ReadEvent>) -> Option<Seq<u8>>
    decreases evs.len(),
{
    if evs.len() == 0 {
        v
    } else {
        read_final(apply_read(v, evs[0]).0, evs.drop_first())
    }
}

/// Every byte handed to the reader over the events `evs`, in order.
pub open spec fn handed_out(v: Option<Seq<u8>>, evs: Seq<ReadEvent>) -> Seq<u8>
    decreases evs.len(),
{
    if evs.len() == 0 {
        Seq::empty()
    } else {
        apply_read(v, evs[0]).1 + handed_out(apply_read(v, evs[0]).0, evs.drop_first())
    }
}

/// Every byte that arrived over the events `evs`, in order.
pub open spec fn arrived(evs: Seq<ReadEvent>) -> Seq<u8>
    decreases evs.len(),
{
    if evs.len() == 0 {
        Seq::empty()
    } else {
        match evs[0] {
            ReadEvent::Arrive(b) => b + arrived(evs.drop_first()),
            ReadEvent::Take(_) => arrived(evs.drop_first()),
        }
    }
}

/// What one step of a read poll does.
#[derive(Debug)]
pub enum ReadStep {
    /// The reader's buffer is full: the poll is done.
    Full,
    /// Hand these bytes to the reader.
    Deliver(Bytes),
    /// Nothing is stored: wait for bytes from the connection task.
    NeedMore,
}

/// Bytes received for a stream and not yet handed to its reader.
pub struct RecvBuffer {
    local_storage: Option<Bytes>,
}

impl View for RecvBuffer {
    /// `None` when nothing is stored, else the stored bytes in order.
    type V = Option<Seq<u8>>;

    closed spec fn view(&self) -> Option<Seq<u8>> {
        match self.local_storage {
            Some(b) => Some(bytes_content(b)),
            None => None,
        }
    }
}

impl RecvBuffer {
    /// An empty buffer.
    pub fn new() -> (r: RecvBuffer)
        ensures
            r@ is None,
    {
        RecvBuffer { local_storage: None }
    }

    /// Whether nothing is stored.
    pub fn is_drained(&self) -> (b: bool)
        ensures
            b == (self@ is None),
    {
        self.local_storage.is_none()
    }

    /// Stores bytes that arrived from the connection task.
    pub fn store(&mut self, arrived: Bytes)
        ensures
            final(self)@ == Some(bytes_content(arrived)),
    {
        self.local_storage = Some(arrived);
    }

    /// One step of a read poll whose reader has room for `remaining` bytes:
    /// done when there is no room, else hand out stored bytes, else wait.
    pub fn next_read(&mut self, remaining: usize) -> (step: ReadStep)
        ensures
            remaining == 0 ==> step is Full && final(self)@ == old(self)@,
            remaining > 0 && old(self)@ is None ==> step is NeedMore && final(self)@ is None,
            remaining > 0 && old(self)@ is Some ==> {
                &&& step matches ReadStep::Deliver(c) && bytes_content(c) == apply_read(
                    old(self)@,
                    ReadEvent::Take(remaining as nat),
                ).1
                &&& final(self)@ == apply_read(old(self)@, ReadEvent::Take(remaining as nat)).0
            },
            remaining > 0 ==> (final(self)@ matches Some(p) ==> p.len() > 0),
            remaining > 0 ==> (old(self)@ matches Some(p) ==> (step matches ReadStep::Deliver(c)
                && bytes_content(c).len() == if remaining < p.len() {
                remaining as int
            } else {
                p.len() as int
            } && bytes_content(c) == p.subrange(0, bytes_content(c).len() as int))),
    {
        if remaining == 0 {
            return ReadStep::Full;
        }
        match self.take_chunk(remaining) {
            Some(chunk) => ReadStep::Deliver(chunk),
            None => ReadStep::NeedMore,
        }
    }

    /// Hands out the first `min(remaining, stored)` stored bytes. The rest
    /// stays stored, unless nothing is left. Returns `None` when nothing was
    /// stored.
    pub fn take_chunk(&mut self, remaining: usize) -> (chunk: Option<Bytes>)
        ensures
            old(self)@ is None ==> chunk is None && final(self)@ is None,
            old(self)@ matches Some(p) ==> {
                &&& chunk matches Some(c) && bytes_content(c) == read_chunk(p, remaining as nat)
                &&& final(self)@ == if read_len(p.len(), remaining as nat) == p.len() {
                    None
                } else {
                    Some(read_rest(p, remaining as nat))
                }
            },
            old(self)@ matches Some(p) ==> {
                let n = if remaining < p.len() {
                    remaining as int
                } else {
                    p.len() as int
                };
                &&& chunk matches Some(c) && bytes_content(c) == p.subrange(0, n)
                &&& remaining >= p.len() ==> final(self)@ is None
                &&& remaining < p.len() ==> final(self)@ == Some(p.subrange(n, p.len() as int))
            },
    {
        proof {
            lemma_read_len_is_min(self@.unwrap_or(Seq::empty()).len(), remaining as nat);
        }
        match self.local_storage.take() {
            None => None,
            Some(mut bytes) => {
                let available = bytes.len();
                let len = if remaining < available {
                    remaining
                } else {
                    available
                };
                let head = bytes.split_to(len);
                if !bytes.is_empty() {
                    self.local_storage = Some(bytes);
                }
                Some(head)
            },
        }
    }
}

/// Over a read poll (or several), with bytes arriving only when nothing is
/// stored: the bytes handed to the reader followed by what stays stored are
/// exactly the bytes stored at the start followed by every chunk that
/// arrived, in order; nothing is lost, duplicated or reordered.
pub proof fn lemma_poll_preserves_bytes(v: Option<Seq<u8>>, evs: Seq<ReadEvent>)
    requires
        arrivals_when_drained(v, evs),
    ensures
        handed_out(v, evs) + stored(read_final(v, evs)) == stored(v) + arrived(evs),
    decreases evs.len(),
{
    if evs.len() == 0 {
        assert(Seq::<u8>::empty() + stored(v) =~= stored(v) + Seq::<u8>::empty());
    } else {
        let e = evs[0];
        let (v1, out) = apply_read(v, e);
        let rest = evs.drop_first();
        lemma_poll_preserves_bytes(v1, rest);
        let h = handed_out(v1, rest);
        let f = stored(read_final(v1, rest));
        let a = arrived(rest);
        assert(h + f == stored(v1) + a);
        assert(out + stored(v1) == stored(v) + (match e {
            ReadEvent::Arrive(b) => b,
            ReadEvent::Take(_) => Seq::<u8>::empty(),
        })) by {
            match e {
                ReadEvent::Take(room) => {
                    match v {
                        Some(p) => {
                            lemma_read_splits_pending(p, room);
                            if read_len(p.len(), room) == p.len() {
                                assert(read_rest(p, room) =~= Seq::<u8>::empty());
                            }
                            assert(out + stored(v1) =~= p);
                            assert(p + Seq::<u8>::empty() =~= p);
                        },
                        None => {
                            assert(out + stored(v1) =~= Seq::<u8>::empty());
                        },
                    }
                },
                ReadEvent::Arrive(b) => {
                    assert(out + stored(v1) =~= stored(v) + b);
                },
            }
        }
        assert(handed_out(v, evs) == out + h);
        assert(read_final(v, evs) == read_final(v1, rest));
        match e {
            ReadEvent::Arrive(b) => {
                assert(arrived(evs) == b + a);
                assert((out + h) + f =~= out + (h + f));
                assert(out + (stored(v1) + a) =~= (out + stored(v1)) + a);
                assert((stored(v) + b) + a =~= stored(v) + (b + a));
            },
            ReadEvent::Take(_) => {
                assert(arrived(evs) == a);
                assert((out + h) + f =~= out + (h + f));
                assert(out + (stored(v1) + a) =~= (out + stored(v1)) + a);
                assert((stored(v) + Seq::<u8>::empty()) + a =~= stored(v) + a);
            },
        }
    }
}

/// One read with room for `remaining` bytes hands out as many bytes as it
/// can: all pending bytes when they fit, else exactly as many as there is
/// room for.
pub proof fn lemma_read_len_is_min(available: nat, remaining: nat)
    ensures
        read_len(available, remaining) <= available,
        read_len(available, remaining) <= remaining,
        read_len(available, remaining) == available || read_len(available, remaining) == remaining,
        remaining >= available ==> read_len(available, remaining) == available,
        remaining < available ==> read_len(available, remaining) == remaining,
{
}

/// A read with room for at least the pending bytes hands all of them out and
/// keeps nothing; a read with less room hands out a full buffer's worth from
/// the front and keeps the rest.
pub proof fn lemma_read_takes_what_fits(pending: Seq<u8>, remaining: nat)
    ensures
        remaining >= pending.len() ==> read_chunk(pending, remaining) == pending
            && read_rest(pending, remaining).len() == 0,
        remaining < pending.len() ==> read_chunk(pending, remaining).len() == remaining
            && read_chunk(pending, remaining) == pending.subrange(0, remaining as int)
            && read_rest(pending, remaining) == pending.subrange(remaining as int, pending.len() as int),
{
    lemma_read_len_is_min(pending.len(), remaining);
    if remaining >= pending.len() {
        assert(read_chunk(pending, remaining) =~= pending);
    } else {
        assert(read_chunk(pending, remaining) =~= pending.subrange(0, remaining as int));
        assert(read_rest(pending, remaining) =~= pending.subrange(remaining as int, pending.len() as int));
    }
}

/// One read never loses or reorders bytes: what it hands out followed by what
/// stays pending is exactly what was pending.
pub proof fn lemma_read_splits_pending(pending: Seq<u8>, remaining: nat)
    ensures
        read_chunk(pending, remaining) + read_rest(pending, remaining) == pending,
        read_chunk(pending, remaining).len() == read_len(pending.len(), remaining),
        read_chunk(pending, remaining).len() <= remaining,
{
    assert(read_chunk(pending, remaining) + read_rest(pending, remaining) =~= pending);
}

/// Reading in two pieces hands out the same bytes as reading once with the
/// room of both pieces.
pub proof fn lemma_reads_compose(pending: Seq<u8>, first: nat, second: nat)
    ensures
        read_chunk(pending, first) + read_chunk(read_rest(pending, first), second)
            == read_chunk(pending, first + second),
        read_rest(read_rest(pending, first), second) == read_rest(pending, first + second),
{
    let n1 = read_len(pending.len(), first);
    let rest = read_rest(pending, first);
    let n2 = read_len(rest.len(), second);
    assert(n1 + n2 == read_len(pending.len(), first + second));
    assert(read_chunk(pending, first) + read_chunk(rest, second) =~= read_chunk(pending, first + second));
    assert(read_rest(rest, second) =~= read_rest(pending, first + second));
}

} // verus!
