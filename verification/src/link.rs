//! The emulated connection task: it answers stream requests and runs an
//! emulated datagram link whose sending is limited by a congestion window.
//!
//! Datagrams written by the application wait in a short send queue (and, when
//! that is full, in a single waiting slot). They leave the queue, in order,
//! while the first of them fits in the window; each one sent takes its length
//! out of the window until an emulated acknowledgement gives it back.
use crate::buffer::{bytes_content, zeroed_bytes, zeros};
use crate::message::{answers, Request, Response};
use bytes::Bytes;
use std::collections::VecDeque;
use vstd::prelude::*;

verus! {

/// How many datagrams the send queue holds at most.
pub const MAX_SEND_DGRAMS: usize = 2;

/// The congestion window of a fresh link, in bytes.
pub const INITIAL_CWND: usize = 10000;

/// The length of each chunk of emulated incoming data.
pub const CHUNK_LEN: usize = 1300;

/// The total number of bytes of a sequence of datagrams.
pub open spec fn total_len(s: Seq<Seq<u8>>) -> nat
    decreases s.len(),
{
    if s.len() == 0 {
        0
    } else {
        s[0].len() + total_len(s.drop_first())
    }
}

/// How many datagrams at the front of `queue` are sent, one after the other,
/// by a window of `cwnd` bytes.
pub open spec fn sendable(queue: Seq<Seq<u8>>, cwnd: nat) -> nat
    decreases queue.len(),
{
    if queue.len() == 0 || queue[0].len() > cwnd {
        0
    } else {
        1 + sendable(queue.drop_first(), (cwnd - queue[0].len()) as nat)
    }
}

/// The datagram in the waiting slot, as a sequence of zero or one datagrams.
pub open spec fn slot_seq(slot: Option<Seq<u8>>) -> Seq<Seq<u8>> {
    match slot {
        Some(d) => seq![d],
        None => Seq::empty(),
    }
}

/// The contents of a queue of handles.
pub open spec fn contents(q: Seq<Bytes>) -> Seq<Seq<u8>> {
    q.map_values(|b: Bytes| bytes_content(b))
}

/// The abstract state of a link.
pub struct LinkView {
    /// Datagrams waiting to be sent, oldest first.
    pub queued: Seq<Seq<u8>>,
    /// Datagrams sent and not yet acknowledged, oldest first.
    pub in_flight: Seq<Seq<u8>>,
    /// The datagram held back because the queue was full.
    pub waiting: Option<Seq<u8>>,
    /// Bytes that may still be sent before an acknowledgement.
    pub cwnd: nat,
}

impl LinkView {
    /// The link's invariant: the queue is bounded, and the window plus the
    /// bytes in flight is the initial window.
    pub open spec fn wf(self) -> bool {
        &&& self.queued.len() <= MAX_SEND_DGRAMS
        &&& self.cwnd + total_len(self.in_flight) == INITIAL_CWND
    }

    /// Every datagram the link holds, in the order it was written: first those
    /// in flight, then the queue, then the waiting slot.
    pub open spec fn pipeline(self) -> Seq<Seq<u8>> {
        self.in_flight + self.queued + slot_seq(self.waiting)
    }
}

/// The state of the emulated datagram link.
struct LinkState {
    write_dgrams: VecDeque<Bytes>,
    sent_dgrams: VecDeque<Bytes>,
    write_dgram_waiting: Option<Bytes>,
    cwnd: usize,
}

impl View for LinkState {
    type V = LinkView;

    closed spec fn view(&self) -> LinkView {
        LinkView {
            queued: contents(self.write_dgrams@),
            in_flight: contents(self.sent_dgrams@),
            waiting: match self.write_dgram_waiting {
                Some(b) => Some(bytes_content(b)),
                None => None,
            },
            cwnd: self.cwnd as nat,
        }
    }
}

/// Appending a datagram adds its length to the total.
pub proof fn lemma_total_len_push(s: Seq<Seq<u8>>, d: Seq<u8>)
    ensures
        total_len(s.push(d)) == total_len(s) + d.len(),
    decreases s.len(),
{
    let t = s.push(d);
    if s.len() > 0 {
        assert(t.drop_first() =~= s.drop_first().push(d));
        lemma_total_len_push(s.drop_first(), d);
        assert(t[0] == s[0]);
        assert(total_len(t) == t[0].len() + total_len(t.drop_first()));
    } else {
        assert(t.drop_first() =~= Seq::<Seq<u8>>::empty());
        assert(total_len(t.drop_first()) == 0);
        assert(t[0] == d);
        assert(total_len(t) == t[0].len() + total_len(t.drop_first()));
    }
}

proof fn lemma_contents_drop_first(q: Seq<Bytes>)
    requires
        q.len() > 0,
    ensures
        contents(q.subrange(1, q.len() as int)) == contents(q).drop_first(),
        contents(q)[0] == bytes_content(q[0]),
{
    assert(contents(q.subrange(1, q.len() as int)) =~= contents(q).drop_first());
}

proof fn lemma_contents_push(q: Seq<Bytes>, b: Bytes)
    ensures
        contents(q.push(b)) == contents(q).push(bytes_content(b)),
{
    assert(contents(q.push(b)) =~= contents(q).push(bytes_content(b)));
}

impl LinkState {
    /// A link with nothing queued or in flight and the initial window.
    fn new() -> (l: LinkState)
        ensures
            l@.wf(),
            l@.queued == Seq::<Seq<u8>>::empty(),
            l@.in_flight == Seq::<Seq<u8>>::empty(),
            l@.waiting is None,
            l@.cwnd == INITIAL_CWND,
    {
        let l = LinkState {
            write_dgrams: VecDeque::new(),
            sent_dgrams: VecDeque::new(),
            write_dgram_waiting: None,
            cwnd: INITIAL_CWND,
        };
        assert(l@.in_flight =~= Seq::<Seq<u8>>::empty());
        assert(l@.queued =~= Seq::<Seq<u8>>::empty());
        l
    }

    /// The current congestion window.
    fn cwnd(&self) -> (c: usize)
        ensures
            c == self@.cwnd,
    {
        self.cwnd
    }

    /// The number of queued datagrams.
    fn queued_len(&self) -> (n: usize)
        ensures
            n == self@.queued.len(),
    {
        self.write_dgrams.len()
    }

    /// The number of datagrams in flight.
    fn in_flight_len(&self) -> (n: usize)
        ensures
            n == self@.in_flight.len(),
    {
        self.sent_dgrams.len()
    }

    /// An emulated acknowledgement: the oldest datagram in flight, if any,
    /// gives its length back to the window.
    fn on_timer(&mut self)
        requires
            old(self)@.wf(),
        ensures
            final(self)@.wf(),
            old(self)@.in_flight.len() == 0 ==> final(self)@ == old(self)@,
            old(self)@.in_flight.len() > 0 ==> final(self)@ == (LinkView {
                in_flight: old(self)@.in_flight.drop_first(),
                cwnd: old(self)@.cwnd + old(self)@.in_flight[0].len(),
                ..old(self)@
            }),
            final(self)@.pipeline() == if old(self)@.in_flight.len() > 0 {
                old(self)@.pipeline().drop_first()
            } else {
                old(self)@.pipeline()
            },
    {
        let ghost old_view = self@;
        let ghost old_q = self.sent_dgrams@;
        if let Some(buf) = self.sent_dgrams.pop_front() {
            proof {
                lemma_contents_drop_first(old_q);
            }
            self.cwnd += buf.len();
            assert(old_view.pipeline().drop_first() =~= self@.pipeline());
        }
    }

    /// Moves the waiting datagram into the queue if the queue has room.
    fn admit_waiting(&mut self)
        requires
            old(self)@.wf(),
        ensures
            final(self)@.wf(),
            final(self)@.pipeline() == old(self)@.pipeline(),
            (old(self)@.queued.len() < MAX_SEND_DGRAMS && old(self)@.waiting is Some) ==> final(self)@
                == (LinkView {
                queued: old(self)@.queued.push(old(self)@.waiting->0),
                waiting: None,
                ..old(self)@
            }),
            !(old(self)@.queued.len() < MAX_SEND_DGRAMS && old(self)@.waiting is Some) ==> final(self)@
                == old(self)@,
    {
        if self.write_dgrams.len() < MAX_SEND_DGRAMS {
            if let Some(buf) = self.write_dgram_waiting.take() {
                let ghost old_view = self@;
                proof {
                    lemma_contents_push(self.write_dgrams@, buf);
                }
                self.write_dgrams.push_back(buf);
                assert(self@.pipeline() =~= old_view.in_flight + old_view.queued.push(bytes_content(buf)));
            }
        }
    }

    /// Whether the link takes a new datagram now (nothing is waiting).
    fn accepts_dgrams(&self) -> (b: bool)
        ensures
            b == (self@.waiting is None),
    {
        self.write_dgram_waiting.is_none()
    }

    /// Takes a datagram written by the application: into the queue if it has
    /// room (returns `true`), else into the waiting slot (returns `false`).
    fn take_dgram(&mut self, buf: Bytes) -> (queued: bool)
        requires
            old(self)@.wf(),
            old(self)@.waiting is None,
        ensures
            final(self)@.wf(),
            queued == (old(self)@.queued.len() < MAX_SEND_DGRAMS),
            queued ==> final(self)@ == (LinkView {
                queued: old(self)@.queued.push(bytes_content(buf)),
                ..old(self)@
            }),
            !queued ==> final(self)@ == (LinkView { waiting: Some(bytes_content(buf)), ..old(self)@ }),
            final(self)@.pipeline() == old(self)@.pipeline().push(bytes_content(buf)),
    {
        let ghost old_view = self@;
        if self.write_dgrams.len() < MAX_SEND_DGRAMS {
            proof {
                lemma_contents_push(self.write_dgrams@, buf);
            }
            self.write_dgrams.push_back(buf);
            assert(self@.pipeline() =~= old_view.pipeline().push(bytes_content(buf)));
            true
        } else {
            self.write_dgram_waiting = Some(buf);
            assert(self@.pipeline() =~= old_view.pipeline().push(bytes_content(buf)));
            false
        }
    }

    /// Emulated sending: while the oldest queued datagram fits in the window,
    /// it leaves the queue, its length leaves the window, and it joins the
    /// datagrams in flight.
    fn transmit(&mut self)
        requires
            old(self)@.wf(),
        ensures
            final(self)@.wf(),
            ({
                let k = sendable(old(self)@.queued, old(self)@.cwnd) as int;
                &&& final(self)@.queued == old(self)@.queued.skip(k)
                &&& final(self)@.in_flight == old(self)@.in_flight + old(self)@.queued.take(k)
                &&& final(self)@.cwnd == old(self)@.cwnd - total_len(old(self)@.queued.take(k))
                &&& final(self)@.waiting == old(self)@.waiting
            }),
            final(self)@.queued.len() > 0 ==> final(self)@.queued[0].len() > final(self)@.cwnd,
            final(self)@.pipeline() == old(self)@.pipeline(),
    {
        let ghost q0 = self@.queued;
        let ghost f0 = self@.in_flight;
        let ghost c0 = self@.cwnd;
        let ghost w0 = self@.waiting;
        let ghost mut k: int = 0;
        assert(q0.skip(0) =~= q0);
        assert(f0 + q0.take(0) =~= f0);
        loop
            invariant
                0 <= k <= q0.len(),
                self@.queued == q0.skip(k),
                self@.in_flight == f0 + q0.take(k),
                self@.cwnd + total_len(q0.take(k)) == c0,
                self@.waiting == w0,
                sendable(q0, c0) == k + sendable(self@.queued, self@.cwnd),
                self@.wf(),
            ensures
                self@.queued == q0.skip(k),
                self@.in_flight == f0 + q0.take(k),
                self@.cwnd + total_len(q0.take(k)) == c0,
                self@.waiting == w0,
                sendable(q0, c0) == k,
                self@.wf(),
                self@.queued.len() > 0 ==> self@.queued[0].len() > self@.cwnd,
            decreases q0.len() - k,
        {
            if self.write_dgrams.len() == 0 {
                break;
            }
            let front_len = self.write_dgrams[0].len();
            proof {
                assert(self@.queued[0] == bytes_content(self.write_dgrams@[0]));
            }
            if front_len > self.cwnd {
                break;
            }
            let ghost old_view = self@;
            let ghost old_q = self.write_dgrams@;
            let ghost old_s = self.sent_dgrams@;
            let buf = self.write_dgrams.pop_front().unwrap();
            self.cwnd -= front_len;
            self.sent_dgrams.push_back(buf);
            proof {
                lemma_contents_drop_first(old_q);
                lemma_contents_push(old_s, buf);
                assert(q0.take(k + 1) =~= q0.take(k).push(q0[k]));
                assert(q0[k] == old_view.queued[0]);
                lemma_total_len_push(q0.take(k), q0[k]);
                lemma_total_len_push(f0 + q0.take(k), q0[k]);
                assert(f0 + q0.take(k + 1) =~= (f0 + q0.take(k)).push(q0[k]));
                assert(q0.skip(k + 1) =~= q0.skip(k).drop_first());
                k = k + 1;
            }
        }
        proof {
            assert(self@.pipeline() =~= (LinkView { queued: q0, in_flight: f0, waiting: w0, cwnd: c0 }).pipeline());
        }
    }
}

/// The emulated datagram link. It always keeps `LinkView::wf`: the send
/// queue holds at most `MAX_SEND_DGRAMS` datagrams, and the window plus the
/// bytes in flight is `INITIAL_CWND`.
pub struct DgramLink {
    state: LinkState,
}

impl View for DgramLink {
    type V = LinkView;

    closed spec fn view(&self) -> LinkView {
        self.state@
    }
}

impl DgramLink {
    #[verifier::type_invariant]
    spec fn inv(self) -> bool {
        self.state@.wf()
    }

    /// A link with nothing queued or in flight and the initial window.
    pub fn new() -> (l: DgramLink)
        ensures
            l@.wf(),
            l@.queued == Seq::<Seq<u8>>::empty(),
            l@.in_flight == Seq::<Seq<u8>>::empty(),
            l@.waiting is None,
            l@.cwnd == INITIAL_CWND,
    {
        DgramLink { state: LinkState::new() }
    }

    /// The current congestion window.
    pub fn cwnd(&self) -> (c: usize)
        ensures
            c == self@.cwnd,
    {
        self.state.cwnd()
    }

    /// The number of queued datagrams.
    pub fn queued_len(&self) -> (n: usize)
        ensures
            n == self@.queued.len(),
    {
        self.state.queued_len()
    }

    /// The number of datagrams in flight.
    pub fn in_flight_len(&self) -> (n: usize)
        ensures
            n == self@.in_flight.len(),
    {
        self.state.in_flight_len()
    }

    /// An emulated acknowledgement: the oldest datagram in flight, if any,
    /// gives its length back to the window.
    pub fn on_timer(&mut self)
        ensures
            final(self)@.wf(),
            old(self)@.in_flight.len() == 0 ==> final(self)@ == old(self)@,
            old(self)@.in_flight.len() > 0 ==> final(self)@ == (LinkView {
                in_flight: old(self)@.in_flight.drop_first(),
                cwnd: old(self)@.cwnd + old(self)@.in_flight[0].len(),
                ..old(self)@
            }),
            final(self)@.pipeline() == if old(self)@.in_flight.len() > 0 {
                old(self)@.pipeline().drop_first()
            } else {
                old(self)@.pipeline()
            },
    {
        proof {
            use_type_invariant(&*self);
        }
        let mut st = LinkState::new();
        std::mem::swap(&mut st, &mut self.state);
        let r = st.on_timer();
        self.state = st;
        r
    }

    /// Moves the waiting datagram into the queue if the queue has room.
    pub fn admit_waiting(&mut self)
        ensures
            final(self)@.wf(),
            final(self)@.pipeline() == old(self)@.pipeline(),
            (old(self)@.queued.len() < MAX_SEND_DGRAMS && old(self)@.waiting is Some) ==> final(self)@
                == (LinkView {
                queued: old(self)@.queued.push(old(self)@.waiting->0),
                waiting: None,
                ..old(self)@
            }),
            !(old(self)@.queued.len() < MAX_SEND_DGRAMS && old(self)@.waiting is Some) ==> final(self)@
                == old(self)@,
    {
        proof {
            use_type_invariant(&*self);
        }
        let mut st = LinkState::new();
        std::mem::swap(&mut st, &mut self.state);
        let r = st.admit_waiting();
        self.state = st;
        r
    }

    /// Whether the link takes a new datagram now (nothing is waiting).
    pub fn accepts_dgrams(&self) -> (b: bool)
        ensures
            b == (self@.waiting is None),
    {
        self.state.accepts_dgrams()
    }

    /// Takes a datagram written by the application: into the queue if it has
    /// room (returns `true`), else into the waiting slot (returns `false`).
    pub fn take_dgram(&mut self, buf: Bytes) -> (queued: bool)
        requires
            old(self)@.waiting is None,
        ensures
            final(self)@.wf(),
            queued == (old(self)@.queued.len() < MAX_SEND_DGRAMS),
            queued ==> final(self)@ == (LinkView {
                queued: old(self)@.queued.push(bytes_content(buf)),
                ..old(self)@
            }),
            !queued ==> final(self)@ == (LinkView { waiting: Some(bytes_content(buf)), ..old(self)@ }),
            final(self)@.pipeline() == old(self)@.pipeline().push(bytes_content(buf)),
    {
        proof {
            use_type_invariant(&*self);
        }
        let mut st = LinkState::new();
        std::mem::swap(&mut st, &mut self.state);
        let r = st.take_dgram(buf);
        self.state = st;
        r
    }

    /// Emulated sending: while the oldest queued datagram fits in the window,
    /// it leaves the queue, its length leaves the window, and it joins the
    /// datagrams in flight.
    pub fn transmit(&mut self)
        ensures
            final(self)@.wf(),
            ({
                let k = sendable(old(self)@.queued, old(self)@.cwnd) as int;
                &&& final(self)@.queued == old(self)@.queued.skip(k)
                &&& final(self)@.in_flight == old(self)@.in_flight + old(self)@.queued.take(k)
                &&& final(self)@.cwnd == old(self)@.cwnd - total_len(old(self)@.queued.take(k))
                &&& final(self)@.waiting == old(self)@.waiting
            }),
            final(self)@.queued.len() > 0 ==> final(self)@.queued[0].len() > final(self)@.cwnd,
            final(self)@.pipeline() == old(self)@.pipeline(),
    {
        proof {
            use_type_invariant(&*self);
        }
        let mut st = LinkState::new();
        std::mem::swap(&mut st, &mut self.state);
        let r = st.transmit();
        self.state = st;
        r
    }
}


/// What the connection task does with a request.
#[derive(Debug)]
pub enum Disposition {
    /// Answer it at once with this response.
    Respond(Response),
    /// Keep its responder until a datagram is written.
    AwaitReady,
    /// Keep its responder until the written datagrams have been taken.
    AwaitFlush,
}

/// The response to a write request for `buf`: the number of bytes written.
pub open spec fn write_reply(buf: Bytes) -> Response {
    Response::Write { written: bytes_content(buf).len() as usize }
}

/// Decides how the connection task handles a request. A read for `len`
/// bytes is answered with `len - 1` zero bytes, so `len` must be at least one.
pub fn handle_request(req: Request) -> (d: Disposition)
    requires
        req matches Request::Read { len } ==> 1 <= len <= isize::MAX,
    ensures
        match req {
            Request::Read { len } => d matches Disposition::Respond(Response::Read { buf })
                && bytes_content(buf) == zeros((len - 1) as nat),
            Request::Write { buf } => d == Disposition::Respond(write_reply(buf)),
            Request::WriteDgramReady => d is AwaitReady,
            Request::WriteDgramFlush => d is AwaitFlush,
        },
        d matches Disposition::Respond(r) ==> answers(req, r),
{
    match req {
        Request::Read { len } => Disposition::Respond(Response::Read { buf: zeroed_bytes(len, len - 1) }),
        Request::Write { buf } => Disposition::Respond(Response::Write { written: buf.len() }),
        Request::WriteDgramReady => Disposition::AwaitReady,
        Request::WriteDgramFlush => Disposition::AwaitFlush,
    }
}

/// The parked requests of each kind, oldest first.
pub struct WaitersView<T> {
    /// Responders of requests waiting to hear that a datagram may be written.
    pub ready: Seq<T>,
    /// Responders of requests waiting for the written datagrams to be taken.
    pub flush: Seq<T>,
}

/// The connection task's parked requests: the responders (of any type `T`)
/// that will carry their answers.
pub struct Waiters<T> {
    ready: Vec<T>,
    flush: Vec<T>,
}

impl<T> View for Waiters<T> {
    type V = WaitersView<T>;

    closed spec fn view(&self) -> WaitersView<T> {
        WaitersView { ready: self.ready@, flush: self.flush@ }
    }
}

/// Empties `v`, returning its items last first.
fn drain_last_first<T>(v: &mut Vec<T>) -> (out: Vec<T>)
    ensures
        out@ == old(v)@.reverse(),
        final(v)@ == Seq::<T>::empty(),
{
    let ghost orig = v@;
    let mut out: Vec<T> = Vec::new();
    assert(orig.skip(orig.len() as int).reverse() =~= out@);
    while v.len() > 0
        invariant
            v@.len() <= orig.len(),
            v@ == orig.take(v@.len() as int),
            out@ == orig.skip(v@.len() as int).reverse(),
        decreases v@.len(),
    {
        let ghost n = v@.len() as int;
        let x = v.pop().unwrap();
        assert(x == orig[n - 1]);
        out.push(x);
        assert(v@ =~= orig.take(n - 1));
        assert(orig.skip(n - 1).reverse() =~= orig.skip(n).reverse().push(orig[n - 1]));
    }
    assert(orig.skip(0) =~= orig);
    assert(v@ =~= Seq::<T>::empty());
    out
}

impl<T> Waiters<T> {
    /// Nothing parked.
    pub fn new() -> (w: Waiters<T>)
        ensures
            w@.ready == Seq::<T>::empty(),
            w@.flush == Seq::<T>::empty(),
    {
        Waiters { ready: Vec::new(), flush: Vec::new() }
    }

    /// Takes what `handle_request` decided together with the request's
    /// responder: a response to send now is handed back with its responder;
    /// a parked request keeps its responder until its answer is due.
    pub fn park(&mut self, d: Disposition, responder: T) -> (now: Option<(Response, T)>)
        ensures
            d matches Disposition::Respond(r) ==> now == Some((r, responder)) && final(self)@ == old(self)@,
            d is AwaitReady ==> now is None && final(self)@ == (WaitersView {
                ready: old(self)@.ready.push(responder),
                ..old(self)@
            }),
            d is AwaitFlush ==> now is None && final(self)@ == (WaitersView {
                flush: old(self)@.flush.push(responder),
                ..old(self)@
            }),
    {
        match d {
            Disposition::Respond(r) => Some((r, responder)),
            Disposition::AwaitReady => {
                self.ready.push(responder);
                None
            },
            Disposition::AwaitFlush => {
                self.flush.push(responder);
                None
            },
        }
    }

    /// A datagram was written: every request waiting for readiness is
    /// answered now. Returns their responders, last parked first.
    pub fn on_dgram_written(&mut self) -> (answered: Vec<T>)
        ensures
            answered@ == old(self)@.ready.reverse(),
            final(self)@ == (WaitersView { ready: Seq::<T>::empty(), ..old(self)@ }),
    {
        drain_last_first(&mut self.ready)
    }

    /// The datagram channel has nothing more for now (empty or closed):
    /// every request waiting for a flush is answered now. Returns their
    /// responders, last parked first.
    pub fn on_write_channel_idle(&mut self) -> (answered: Vec<T>)
        ensures
            answered@ == old(self)@.flush.reverse(),
            final(self)@ == (WaitersView { flush: Seq::<T>::empty(), ..old(self)@ }),
    {
        drain_last_first(&mut self.flush)
    }
}

/// A chunk of emulated incoming data: `CHUNK_LEN` zero bytes.
pub fn fresh_chunk() -> (b: Bytes)
    ensures
        bytes_content(b) == zeros(CHUNK_LEN as nat),
{
    zeroed_bytes(CHUNK_LEN, CHUNK_LEN)
}

/// What a non-blocking reservation on an outgoing channel reported.
#[derive(Debug, Clone, Copy, PartialEq, Eq, Structural)]
pub enum Reservation {
    Granted,
    Full,
    Closed,
}

/// What the connection task does after trying to reserve room on a reader's
/// channel.
#[derive(Debug, Clone, Copy, PartialEq, Eq, Structural)]
pub enum OfferStep {
    /// Send a fresh chunk through the reserved slot.
    Deliver,
    /// The reader is behind; try again next round.
    Skip,
    /// The reader is gone; the task ends.
    Shutdown,
}

/// Decides what to do with the outcome of a reservation on a reader's channel.
pub fn offer_step(r: Reservation) -> (s: OfferStep)
    ensures
        r == Reservation::Granted ==> s == OfferStep::Deliver,
        r == Reservation::Full ==> s == OfferStep::Skip,
        r == Reservation::Closed ==> s == OfferStep::Shutdown,
{
    match r {
        Reservation::Granted => OfferStep::Deliver,
        Reservation::Full => OfferStep::Skip,
        Reservation::Closed => OfferStep::Shutdown,
    }
}

/// The window never exceeds its initial size, and the bytes in flight never
/// exceed the initial window.
pub proof fn lemma_window_bounded(v: LinkView)
    requires
        v.wf(),
    ensures
        v.cwnd <= INITIAL_CWND,
        total_len(v.in_flight) <= INITIAL_CWND,
{
}

} // verus!
