use netpoll::link::Waiters;
use netpoll::recv_stream::ReadStep;
use bytes::Bytes;
use netpoll::link::{
    fresh_chunk, handle_request, offer_step, Disposition, DgramLink, OfferStep, Reservation,
    CHUNK_LEN, INITIAL_CWND, MAX_SEND_DGRAMS,
};
use netpoll::message::{Request, Response};
use netpoll::recv_stream::RecvBuffer;

fn dgram(len: usize, tag: u8) -> Bytes {
    Bytes::from(vec![tag; len])
}

#[test]
fn new_link_is_idle() {
    let l = DgramLink::new();
    assert_eq!(l.cwnd(), INITIAL_CWND);
    assert_eq!(l.queued_len(), 0);
    assert_eq!(l.in_flight_len(), 0);
    assert!(l.accepts_dgrams());
}

#[test]
fn queue_then_waiting_slot() {
    let mut l = DgramLink::new();
    assert!(l.take_dgram(dgram(10, 1)));
    assert!(l.take_dgram(dgram(10, 2)));
    assert_eq!(l.queued_len(), MAX_SEND_DGRAMS);
    assert!(!l.take_dgram(dgram(10, 3)));
    assert!(!l.accepts_dgrams());
    // No room: admitting does nothing.
    l.admit_waiting();
    assert!(!l.accepts_dgrams());
    l.transmit();
    assert_eq!(l.queued_len(), 0);
    assert_eq!(l.in_flight_len(), 2);
    assert_eq!(l.cwnd(), INITIAL_CWND - 20);
    l.admit_waiting();
    assert!(l.accepts_dgrams());
    assert_eq!(l.queued_len(), 1);
}

#[test]
fn transmit_stops_at_the_window() {
    let mut l = DgramLink::new();
    // Eight datagrams of 1300 bytes use 10400 > 10000 bytes of window.
    let mut sent = 0;
    for i in 0..8u8 {
        l.admit_waiting();
        if l.accepts_dgrams() {
            l.take_dgram(dgram(1300, i));
        }
        l.transmit();
        sent = l.in_flight_len();
    }
    assert_eq!(sent, 7);
    assert_eq!(l.cwnd(), INITIAL_CWND - 7 * 1300);
    assert_eq!(l.queued_len(), 1);
    // An acknowledgement gives 1300 bytes back and the queued datagram leaves.
    l.on_timer();
    assert_eq!(l.cwnd(), INITIAL_CWND - 6 * 1300);
    l.transmit();
    assert_eq!(l.queued_len(), 0);
    assert_eq!(l.in_flight_len(), 7);
}

#[test]
fn window_is_conserved() {
    let mut l = DgramLink::new();
    let lens = [100usize, 2000, 3000, 50];
    let mut in_flight_bytes = 0;
    for (i, n) in lens.iter().enumerate() {
        l.admit_waiting();
        if l.accepts_dgrams() {
            l.take_dgram(dgram(*n, i as u8));
        }
        let before = l.in_flight_len();
        l.transmit();
        for k in before..l.in_flight_len() {
            in_flight_bytes += lens[k];
        }
        assert_eq!(l.cwnd() + in_flight_bytes, INITIAL_CWND);
    }
    l.on_timer();
    in_flight_bytes -= lens[0];
    assert_eq!(l.cwnd() + in_flight_bytes, INITIAL_CWND);
}

#[test]
fn timer_without_flight_changes_nothing() {
    let mut l = DgramLink::new();
    l.on_timer();
    assert_eq!(l.cwnd(), INITIAL_CWND);
    assert_eq!(l.in_flight_len(), 0);
}

#[test]
fn oversized_datagram_waits() {
    let mut l = DgramLink::new();
    l.take_dgram(dgram(INITIAL_CWND + 1, 0));
    l.transmit();
    assert_eq!(l.queued_len(), 1);
    assert_eq!(l.in_flight_len(), 0);
    assert_eq!(l.cwnd(), INITIAL_CWND);
}

#[test]
fn requests_are_handled() {
    match handle_request(Request::Read { len: 5 }) {
        Disposition::Respond(Response::Read { buf }) => assert_eq!(&buf[..], &[0u8; 4]),
        other => panic!("unexpected {:?}", other),
    }
    match handle_request(Request::Write { buf: Bytes::from_static(b"1234") }) {
        Disposition::Respond(Response::Write { written }) => assert_eq!(written, 4),
        other => panic!("unexpected {:?}", other),
    }
    assert!(matches!(handle_request(Request::WriteDgramReady), Disposition::AwaitReady));
    assert!(matches!(handle_request(Request::WriteDgramFlush), Disposition::AwaitFlush));
}

#[test]
fn fresh_chunk_is_zeroed() {
    let c = fresh_chunk();
    assert_eq!(c.len(), CHUNK_LEN);
    assert!(c.iter().all(|b| *b == 0));
}

#[test]
fn offer_steps() {
    assert_eq!(offer_step(Reservation::Granted), OfferStep::Deliver);
    assert_eq!(offer_step(Reservation::Full), OfferStep::Skip);
    assert_eq!(offer_step(Reservation::Closed), OfferStep::Shutdown);
}

#[test]
fn recv_buffer_hands_out_in_order() {
    let mut r = RecvBuffer::new();
    assert!(r.is_drained());
    assert!(r.take_chunk(10).is_none());
    r.store(Bytes::from_static(b"abcdefgh"));
    let a = r.take_chunk(3).unwrap();
    assert_eq!(&a[..], b"abc");
    assert!(!r.is_drained());
    let b = r.take_chunk(100).unwrap();
    assert_eq!(&b[..], b"defgh");
    assert!(r.is_drained());
}

#[test]
fn recv_buffer_reads_compose() {
    let data = b"0123456789";
    let mut one = RecvBuffer::new();
    one.store(Bytes::from_static(data));
    let whole = one.take_chunk(7).unwrap();
    let mut two = RecvBuffer::new();
    two.store(Bytes::from_static(data));
    let mut pieces = two.take_chunk(3).unwrap().to_vec();
    pieces.extend_from_slice(&two.take_chunk(4).unwrap());
    assert_eq!(&whole[..], &pieces[..]);
    assert_eq!(&one.take_chunk(100).unwrap()[..], &two.take_chunk(100).unwrap()[..]);
}

#[test]
fn recv_buffer_empty_arrival() {
    let mut r = RecvBuffer::new();
    r.store(Bytes::new());
    let c = r.take_chunk(5).unwrap();
    assert!(c.is_empty());
    assert!(r.is_drained());
}

#[test]
fn recv_buffer_zero_room() {
    let mut r = RecvBuffer::new();
    r.store(Bytes::from_static(b"ab"));
    let c = r.take_chunk(0).unwrap();
    assert!(c.is_empty());
    assert_eq!(&r.take_chunk(2).unwrap()[..], b"ab");
}

#[test]
fn datagrams_leave_in_order() {
    let mut l = DgramLink::new();
    assert!(l.take_dgram(dgram(9500, 1)));
    assert!(l.take_dgram(dgram(600, 2)));
    l.transmit();
    // The older, larger datagram went first; the younger one no longer fits.
    assert_eq!(l.cwnd(), INITIAL_CWND - 9500);
    assert_eq!(l.queued_len(), 1);
    // The acknowledgement frees the oldest datagram in flight.
    l.on_timer();
    assert_eq!(l.cwnd(), INITIAL_CWND);
    l.transmit();
    assert_eq!(l.cwnd(), INITIAL_CWND - 600);
    assert_eq!(l.queued_len(), 0);
}

#[test]
fn read_poll_steps() {
    let mut r = RecvBuffer::new();
    assert!(matches!(r.next_read(4), ReadStep::NeedMore));
    r.store(Bytes::from_static(b"abcdef"));
    assert!(matches!(r.next_read(0), ReadStep::Full));
    let mut out = Vec::new();
    let mut room = 4usize;
    loop {
        match r.next_read(room) {
            ReadStep::Full => break,
            ReadStep::Deliver(c) => {
                room -= c.len();
                out.extend_from_slice(&c);
            }
            ReadStep::NeedMore => {
                r.store(Bytes::from_static(b"XY"));
            }
        }
    }
    assert_eq!(&out[..], b"abcd");
    // What stays stored follows on: old bytes, then later arrivals.
    let mut rest = Vec::new();
    let mut arrivals = 0;
    loop {
        match r.next_read(10) {
            ReadStep::Deliver(c) => rest.extend_from_slice(&c),
            ReadStep::NeedMore if arrivals == 0 => {
                r.store(Bytes::from_static(b"XY"));
                arrivals += 1;
            }
            _ => break,
        }
    }
    assert_eq!(&rest[..], b"efXY");
}

#[test]
fn waiters_are_answered_once() {
    let mut w: Waiters<&str> = Waiters::new();
    assert!(w.park(Disposition::AwaitReady, "r1").is_none());
    assert!(w.park(Disposition::AwaitReady, "r2").is_none());
    assert!(w.park(Disposition::AwaitFlush, "f1").is_none());
    match w.park(handle_request(Request::Write { buf: Bytes::from_static(b"x") }), "w") {
        Some((Response::Write { written }, to)) => {
            assert_eq!(written, 1);
            assert_eq!(to, "w");
        }
        other => panic!("unexpected {:?}", other),
    }
    assert_eq!(w.on_dgram_written(), vec!["r2", "r1"]);
    assert!(w.on_dgram_written().is_empty());
    assert_eq!(w.on_write_channel_idle(), vec!["f1"]);
    assert!(w.on_write_channel_idle().is_empty());
}
