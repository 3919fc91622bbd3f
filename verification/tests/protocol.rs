use netpoll::slots::{CommandSlots, ReadyPhase};
use bytes::Bytes;
use netpoll::buffer::{bytes_from_slice, zeroed_bytes};
use netpoll::client::{
    channel_result, flush_verdict, read_chunk_result, ready_command, ready_verdict,
    write_verdict, Verdict,
};
use netpoll::command::{Command, Dispatch, RequestFailure};
use netpoll::link::{handle_request, Disposition};
use netpoll::message::{write_request, ReadDgramError, Request, Response, WriteDgramError};

#[test]
fn bytes_from_slice_copies_the_slice() {
    let b = bytes_from_slice(b"hello");
    assert_eq!(&b[..], b"hello");
    let e = bytes_from_slice(b"");
    assert!(e.is_empty());
}

#[test]
fn zeroed_bytes_has_the_length_asked_for() {
    let b = zeroed_bytes(10, 9);
    assert_eq!(b.len(), 9);
    assert!(b.iter().all(|x| *x == 0));
    let c = zeroed_bytes(0, 3);
    assert_eq!(&c[..], &[0u8, 0, 0]);
}

#[test]
fn write_request_carries_the_buffer() {
    match write_request(b"1234") {
        Request::Write { buf } => assert_eq!(&buf[..], b"1234"),
        other => panic!("unexpected {:?}", other),
    }
}

#[test]
fn command_sends_its_request_once() {
    let mut cmd = Command::<u32>::new(Request::Write { buf: Bytes::from_static(b"ab") });
    assert!(cmd.is_sending());
    assert!(!cmd.is_terminated());
    match cmd.on_reserved(true) {
        Dispatch::Send(Request::Write { buf }) => assert_eq!(&buf[..], b"ab"),
        other => panic!("unexpected {:?}", other),
    }
    assert!(matches!(cmd, Command::State0 { msg: None }));
    // A second reservation finds no request left.
    match cmd.on_reserved(true) {
        Dispatch::Fail(f) => assert_eq!(f, RequestFailure::NoRequest),
        other => panic!("unexpected {:?}", other),
    }
}

#[test]
fn failed_reservation_keeps_the_request() {
    let mut cmd = Command::<u32>::new(Request::WriteDgramFlush);
    match cmd.on_reserved(false) {
        Dispatch::Fail(f) => assert_eq!(f, RequestFailure::SendFailed),
        other => panic!("unexpected {:?}", other),
    }
    assert!(matches!(cmd, Command::State0 { msg: Some(Request::WriteDgramFlush) }));
    assert!(matches!(cmd.on_reserved(true), Dispatch::Send(Request::WriteDgramFlush)));
}

#[test]
fn command_runs_to_termination() {
    let mut cmd = Command::<u32>::new(Request::WriteDgramReady);
    assert!(matches!(cmd.on_reserved(true), Dispatch::Send(Request::WriteDgramReady)));
    assert_eq!(cmd.on_sent(true, 42), Ok(()));
    assert!(matches!(cmd, Command::State1 { recv: 42 }));
    assert_eq!(*cmd.response_channel(), 42);
    *cmd.response_channel() = 43;
    assert!(matches!(cmd, Command::State1 { recv: 43 }));
    assert!(!cmd.is_sending());
    match cmd.on_answer(Some(Response::WriteDgramReady)) {
        Ok(Response::WriteDgramReady) => {}
        other => panic!("unexpected {:?}", other),
    }
    assert!(cmd.is_terminated());
}

#[test]
fn command_send_failure() {
    let mut cmd = Command::<u32>::new(Request::WriteDgramReady);
    let _ = cmd.on_reserved(true);
    assert_eq!(cmd.on_sent(false, 1), Err(RequestFailure::SendFailed));
    assert!(matches!(cmd, Command::State0 { msg: None }));
}

#[test]
fn command_lost_response() {
    let mut cmd = Command::<u32>::new(Request::WriteDgramReady);
    let _ = cmd.on_reserved(true);
    let _ = cmd.on_sent(true, 5);
    assert!(matches!(cmd.on_answer(None), Err(RequestFailure::RecvFailed)));
    assert!(matches!(cmd, Command::State1 { recv: 5 }));
}

#[test]
fn write_verdicts() {
    assert_eq!(write_verdict(Ok(Response::Write { written: 4 })), Verdict::Accepted(4));
    assert_eq!(write_verdict(Ok(Response::WriteDgramFlush)), Verdict::Invalid);
    assert_eq!(write_verdict(Err(RequestFailure::RecvFailed)), Verdict::Failed);
}

#[test]
fn ready_and_flush_verdicts() {
    assert_eq!(ready_verdict(Ok(Response::WriteDgramReady)), Verdict::Accepted(()));
    assert_eq!(ready_verdict(Ok(Response::WriteDgramFlush)), Verdict::Invalid);
    assert_eq!(ready_verdict(Err(RequestFailure::NoRequest)), Verdict::Failed);
    assert_eq!(flush_verdict(Ok(Response::WriteDgramFlush)), Verdict::Accepted(()));
    assert_eq!(flush_verdict(Ok(Response::Write { written: 1 })), Verdict::Invalid);
    assert_eq!(flush_verdict(Err(RequestFailure::SendFailed)), Verdict::Failed);
}

#[test]
fn ready_command_choices() {
    assert!(matches!(ready_command::<u32>(false, 5), Err(WriteDgramError::ConnectionClosed)));
    assert!(matches!(ready_command::<u32>(true, 1), Ok(Command::Terminated)));
    assert!(matches!(
        ready_command::<u32>(true, 0),
        Ok(Command::State0 { msg: Some(Request::WriteDgramReady) })
    ));
}

#[test]
fn channel_and_chunk_results() {
    assert_eq!(channel_result(true), Ok(()));
    assert_eq!(channel_result(false), Err(WriteDgramError::ConnectionClosed));
    let r = read_chunk_result(Some(Bytes::from_static(b"xyz")));
    assert_eq!(&r.unwrap()[..], b"xyz");
    assert_eq!(read_chunk_result(None), Err(ReadDgramError::ConnectionClosed));
}

#[test]
fn server_write_reply_is_accepted() {
    let data = b"some bytes";
    match handle_request(write_request(data)) {
        Disposition::Respond(resp) => {
            assert_eq!(write_verdict(Ok(resp)), Verdict::Accepted(data.len()))
        }
        other => panic!("unexpected {:?}", other),
    }
    assert_eq!(ready_verdict(Ok(Response::WriteDgramReady)), Verdict::Accepted(()));
    assert_eq!(flush_verdict(Ok(Response::WriteDgramFlush)), Verdict::Accepted(()));
}

#[test]
fn slots_keep_the_first_command() {
    let mut s = CommandSlots::<u32>::new();
    assert!(!s.is_pending(7));
    s.open_write(7, b"first");
    s.open_write(7, b"second");
    let mut cmd = s.take(7);
    assert!(!s.is_pending(7));
    match cmd.on_reserved(true) {
        Dispatch::Send(Request::Write { buf }) => assert_eq!(&buf[..], b"first"),
        other => panic!("unexpected {:?}", other),
    }
    assert_eq!(s.finish_write(7, cmd, None), None);
    assert!(s.is_pending(7));
    s.open_write(7, b"third");
    let mut cmd = s.take(7);
    assert!(matches!(cmd.on_reserved(true), Dispatch::Fail(RequestFailure::NoRequest)));
    // A finished poll takes the command out of the table.
    assert_eq!(
        s.finish_write(7, cmd, Some(Ok(Response::Write { written: 5 }))),
        Some(Verdict::Accepted(5))
    );
    assert!(!s.is_pending(7));
}

#[test]
fn slots_for_datagram_polls() {
    let mut s = CommandSlots::<u32>::new();
    assert_eq!(s.open_ready(1, false, 0), Err(WriteDgramError::ConnectionClosed));
    assert!(!s.is_pending(1));
    assert_eq!(s.open_ready(1, true, 3), Ok(()));
    assert!(s.take(1).is_terminated());
    assert_eq!(s.open_ready(2, true, 0), Ok(()));
    assert!(matches!(s.take(2), Command::State0 { msg: Some(Request::WriteDgramReady) }));
    s.open_flush(3);
    s.open_flush(3);
    assert!(matches!(s.take(3), Command::State0 { msg: Some(Request::WriteDgramFlush) }));
    assert!(!s.is_pending(3));
}

#[test]
fn readiness_poll_table_decisions() {
    let mut s = CommandSlots::<u32>::new();
    s.open_ready(4, true, 0).unwrap();
    let cmd = s.take(4);
    assert!(matches!(s.after_ready_command(4, cmd, None), ReadyPhase::Wait));
    assert!(s.is_pending(4));
    let cmd = s.take(4);
    // A failed readiness command stays in the table.
    assert!(matches!(
        s.after_ready_command(4, cmd, Some(Err(RequestFailure::RecvFailed))),
        ReadyPhase::Failed(WriteDgramError::ConnectionClosed)
    ));
    assert!(s.is_pending(4));
    let cmd = s.take(4);
    let cmd = match s.after_ready_command(4, cmd, Some(Ok(Response::WriteDgramReady))) {
        ReadyPhase::Reserve(c) => c,
        other => panic!("unexpected {:?}", other),
    };
    assert!(!s.is_pending(4));
    assert_eq!(s.after_ready_reserve(4, cmd, None), None);
    assert!(s.is_pending(4));
    let cmd = s.take(4);
    assert_eq!(s.after_ready_reserve(4, cmd, Some(true)), Some(Ok(())));
    assert!(!s.is_pending(4));
    s.open_ready(5, true, 0).unwrap();
    let cmd = s.take(5);
    assert!(matches!(
        s.after_ready_command(5, cmd, Some(Ok(Response::WriteDgramFlush))),
        ReadyPhase::Invalid
    ));
    s.open_flush(6);
    let cmd = s.take(6);
    assert_eq!(
        s.finish_flush(6, cmd, Some(Ok(Response::WriteDgramFlush))),
        Some(Verdict::Accepted(()))
    );
    assert!(!s.is_pending(6));
}
