//! The decisions of the readiness loops around non-blocking sockets, pipes
//! and descriptors: how a raw system-call result is read, what each outcome
//! of an I/O attempt makes the loop do, and how connection tokens are handed
//! out.
use vstd::prelude::*;

verus! {

/// The byte count of a `recv`/`send`/`read`/`write` result when the call
/// follows the convention that only `-1` signals an error (the error itself
/// is then in `errno`).
pub fn syscall_len(res: isize) -> (n: Option<usize>)
    ensures
        res == -1 ==> n is None,
        res != -1 ==> n == Some(res as usize),
{
    if res != -1 {
        Some(res as usize)
    } else {
        None
    }
}

/// The byte count of a system-call result when every negative value is taken
/// as an error.
pub fn nonnegative_len(res: isize) -> (n: Option<usize>)
    ensures
        res < 0 ==> n is None,
        res >= 0 ==> n == Some(res as usize),
{
    if res < 0 {
        None
    } else {
        Some(res as usize)
    }
}

/// The outcome of one non-blocking I/O attempt.
#[derive(Debug, Clone, Copy, PartialEq, Eq, Structural)]
pub enum IoOutcome {
    /// This many bytes were transferred.
    Done(usize),
    /// The descriptor is not ready; wait for the next readiness event.
    WouldBlock,
    /// Any other error.
    Failed,
}

/// How a loop treats end of stream and errors.
#[derive(Debug, Clone, Copy, PartialEq, Eq, Structural)]
pub struct LoopPolicy {
    /// A transfer of zero bytes means the peer closed the stream.
    pub stop_at_eof: bool,
    /// An error ends the loop and is returned; otherwise it is reported and
    /// the loop tries again.
    pub abort_on_error: bool,
}

/// What a readiness loop does after one I/O attempt.
#[derive(Debug, Clone, Copy, PartialEq, Eq, Structural)]
pub enum LoopStep {
    /// Report this many bytes and try again.
    Report(usize),
    /// The peer closed the stream; stop and release it.
    Closed,
    /// Wait for the next readiness event.
    Yield,
    /// Stop and return the error.
    Abort,
    /// Report the error and try again.
    Retry,
}

/// The step a loop with `policy` takes after `outcome`.
pub open spec fn step_of(policy: LoopPolicy, outcome: IoOutcome) -> LoopStep {
    match outcome {
        IoOutcome::Done(n) => if n == 0 && policy.stop_at_eof {
            LoopStep::Closed
        } else {
            LoopStep::Report(n)
        },
        IoOutcome::WouldBlock => LoopStep::Yield,
        IoOutcome::Failed => if policy.abort_on_error {
            LoopStep::Abort
        } else {
            LoopStep::Retry
        },
    }
}

/// Under every policy, a transfer of bytes is reported with its byte count
/// and the loop goes on; only an empty transfer under a policy that stops at
/// end of stream closes it; a descriptor that is not ready always makes the
/// loop wait; an error is never reported as a transfer, and it ends the loop
/// exactly when the policy says so.
pub proof fn lemma_step_laws(policy: LoopPolicy, n: usize)
    ensures
        n > 0 ==> step_of(policy, IoOutcome::Done(n)) == LoopStep::Report(n),
        !policy.stop_at_eof ==> step_of(policy, IoOutcome::Done(n)) == LoopStep::Report(n),
        step_of(policy, IoOutcome::Done(n)) == LoopStep::Closed <==> (n == 0 && policy.stop_at_eof),
        step_of(policy, IoOutcome::WouldBlock) == LoopStep::Yield,
        step_of(policy, IoOutcome::Failed) == LoopStep::Abort <==> policy.abort_on_error,
        step_of(policy, IoOutcome::Failed) == LoopStep::Abort || step_of(policy, IoOutcome::Failed)
            == LoopStep::Retry,
{
}

/// Decides what a readiness loop does after one I/O attempt.
pub fn next_step(policy: LoopPolicy, outcome: IoOutcome) -> (s: LoopStep)
    ensures
        s == step_of(policy, outcome),
        outcome matches IoOutcome::Done(n) ==> (n > 0 || !policy.stop_at_eof ==> s == LoopStep::Report(n)),
        outcome matches IoOutcome::Done(n) ==> (n == 0 && policy.stop_at_eof ==> s == LoopStep::Closed),
        outcome == IoOutcome::WouldBlock ==> s == LoopStep::Yield,
        outcome == IoOutcome::Failed ==> (policy.abort_on_error ==> s == LoopStep::Abort),
        outcome == IoOutcome::Failed ==> (!policy.abort_on_error ==> s == LoopStep::Retry),
{
    match outcome {
        IoOutcome::Done(n) => {
            if n == 0 && policy.stop_at_eof {
                LoopStep::Closed
            } else {
                LoopStep::Report(n)
            }
        },
        IoOutcome::WouldBlock => LoopStep::Yield,
        IoOutcome::Failed => {
            if policy.abort_on_error {
                LoopStep::Abort
            } else {
                LoopStep::Retry
            }
        },
    }
}

/// One call of `next` on a counter at `c`: the token it returns and the
/// counter after it.
pub open spec fn next_spec(c: nat) -> (nat, nat) {
    (c, c + 1)
}

/// The tokens handed out by `k` calls of `next` one after the other on a
/// counter at `c`, and the counter after them.
pub open spec fn issue(c: nat, k: nat) -> (Seq<nat>, nat)
    decreases k,
{
    if k == 0 {
        (Seq::empty(), c)
    } else {
        let (token, c1) = next_spec(c);
        let (rest, last) = issue(c1, (k - 1) as nat);
        (seq![token] + rest, last)
    }
}

/// Hands out the next connection token: the current value, after which the
/// counter moves on by one.
pub fn next(current: &mut usize) -> (token: usize)
    requires
        *old(current) < usize::MAX,
    ensures
        (token as nat, *final(current) as nat) == next_spec(*old(current) as nat),
{
    let next = *current;
    *current += 1;
    next
}

/// `k` calls of `next` on a counter at `c` return `c, c + 1, ..., c + k - 1`
/// (strictly increasing, so pairwise distinct) and leave the counter at
/// `c + k`; when the counter starts above the listener's token, none of them
/// is the listener's.
pub proof fn lemma_issue(c: nat, k: nat, listener: nat)
    ensures
        issue(c, k).0 == Seq::new(k, |i: int| (c + i) as nat),
        issue(c, k).1 == c + k,
        forall|i: int, j: int| 0 <= i < j < k ==> issue(c, k).0[i] < issue(c, k).0[j],
        listener < c ==> !issue(c, k).0.contains(listener),
    decreases k,
{
    if k > 0 {
        lemma_issue(c + 1, (k - 1) as nat, listener);
        assert(issue(c, k).0 =~= Seq::new(k, |i: int| (c + i) as nat));
    }
}

/// A control message received along with a datagram.
#[derive(Debug)]
pub enum ControlMessage {
    /// Descriptors passed by the sender.
    ScmRights(Vec<i32>),
    /// Any other kind of control message.
    Other,
}

/// The descriptor passed along with a message: the first descriptor of the
/// first control message, when that message passes descriptors.
pub fn received_fd(first: Option<ControlMessage>) -> (fd: Option<i32>)
    requires
        first matches Some(ControlMessage::ScmRights(fds)) ==> fds@.len() > 0,
    ensures
        first matches Some(ControlMessage::ScmRights(fds)) ==> fd == Some(fds@[0]),
        !(first matches Some(ControlMessage::ScmRights(_))) ==> fd is None,
{
    if let Some(ControlMessage::ScmRights(fds)) = first {
        Some(fds[0])
    } else {
        None
    }
}

} // verus!
