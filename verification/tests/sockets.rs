use netpoll::endpoint::{
    bind_address, collect_interfaces, find_profile, notification_label, select_address,
    unicast_if, Family, UnicastIf,
};
use netpoll::readiness::{
    next, next_step, nonnegative_len, received_fd, syscall_len, ControlMessage, IoOutcome,
    LoopPolicy, LoopStep,
};

#[test]
fn syscall_results() {
    assert_eq!(syscall_len(-1), None);
    assert_eq!(syscall_len(0), Some(0));
    assert_eq!(syscall_len(512), Some(512));
    assert_eq!(syscall_len(-2), Some((-2isize) as usize));
    assert_eq!(nonnegative_len(-1), None);
    assert_eq!(nonnegative_len(-7), None);
    assert_eq!(nonnegative_len(5), Some(5));
}

#[test]
fn loop_steps_tcp_receiver() {
    let p = LoopPolicy { stop_at_eof: true, abort_on_error: true };
    assert_eq!(next_step(p, IoOutcome::Done(0)), LoopStep::Closed);
    assert_eq!(next_step(p, IoOutcome::Done(7)), LoopStep::Report(7));
    assert_eq!(next_step(p, IoOutcome::WouldBlock), LoopStep::Yield);
    assert_eq!(next_step(p, IoOutcome::Failed), LoopStep::Abort);
}

#[test]
fn loop_steps_lenient() {
    let p = LoopPolicy { stop_at_eof: false, abort_on_error: false };
    assert_eq!(next_step(p, IoOutcome::Done(0)), LoopStep::Report(0));
    assert_eq!(next_step(p, IoOutcome::Failed), LoopStep::Retry);
    assert_eq!(next_step(p, IoOutcome::WouldBlock), LoopStep::Yield);
}

#[test]
fn tokens_count_up() {
    let mut cur = 1usize;
    assert_eq!(next(&mut cur), 1);
    assert_eq!(next(&mut cur), 2);
    assert_eq!(cur, 3);
}

#[test]
fn k_tokens_are_consecutive_and_distinct() {
    let server = 0usize;
    let mut cur = server + 1;
    let tokens: Vec<usize> = (0..5).map(|_| next(&mut cur)).collect();
    assert_eq!(tokens, vec![1, 2, 3, 4, 5]);
    assert_eq!(cur, 6);
    assert!(!tokens.contains(&server));
}

#[test]
fn passed_descriptor() {
    assert_eq!(received_fd(Some(ControlMessage::ScmRights(vec![7, 8]))), Some(7));
    assert_eq!(received_fd(Some(ControlMessage::Other)), None);
    assert_eq!(received_fd(None), None);
}

#[test]
fn address_selection() {
    let fams = vec![Family::V6, Family::V4, Family::V4];
    assert_eq!(select_address(&fams, true, false), Some(1));
    assert_eq!(select_address(&fams, false, true), Some(0));
    assert_eq!(select_address(&fams, true, true), Some(0));
    assert_eq!(select_address(&fams, false, false), None);
    assert_eq!(select_address(&vec![Family::V4], false, true), None);
}

#[test]
fn bind_addresses() {
    assert_eq!(bind_address(Family::V4), "0.0.0.0:0");
    assert_eq!(bind_address(Family::V6), "[::]:0");
}

#[test]
fn unicast_if_options() {
    match unicast_if(Family::V4, 0x0102_0304) {
        UnicastIf::V4 { index_be } => {
            assert_eq!(index_be, [1, 2, 3, 4]);
            assert_eq!(u32::from_ne_bytes(index_be), 0x0102_0304u32.to_be());
        }
        other => panic!("unexpected {:?}", other),
    }
    assert!(matches!(unicast_if(Family::V6, 12), UnicastIf::V6 { index: 12 }));
}

#[test]
fn interface_collection() {
    assert_eq!(collect_interfaces(Some(9), &vec![1, 2]), vec![9]);
    assert_eq!(collect_interfaces(None, &vec![3, 1, 3, 2, 1]), vec![3, 1, 2]);
    assert_eq!(collect_interfaces(None, &vec![]), Vec::<u32>::new());
}

#[test]
fn notification_labels() {
    assert_eq!(notification_label(0), Some("CHANGE"));
    assert_eq!(notification_label(1), Some("ADD"));
    assert_eq!(notification_label(2), Some("DELETE"));
    assert_eq!(notification_label(3), None);
    assert_eq!(notification_label(-1), None);
}

#[test]
fn profile_lookup() {
    let ids = vec![5u128, 9, 5];
    assert_eq!(find_profile(&ids, 5), Some(0));
    assert_eq!(find_profile(&ids, 9), Some(1));
    assert_eq!(find_profile(&ids, 1), None);
}
