//! The commands a handle has in flight, one per polling context.
//!
//! A handle keys its pending command by the polling context. A poll opens a
//! command for its key only when none is pending there, so re-polls drive the
//! same command (and the arguments of later polls are not used). After the
//! command was driven, the poll's outcome decides whether the command goes
//! back into the table or leaves it, and what the poll returns.
use crate::buffer::bytes_content;
use crate::client::{
    channel_result, flush_verdict, flush_verdict_of, ready_command, ready_verdict, ready_verdict_of,
    write_verdict, write_verdict_of, Verdict,
};
use crate::command::{
    lemma_answered_command_dispatched, progress, run_allowed, run_dispatched, run_state, Command,
    CommandEvent, RequestFailure,
};
use crate::message::{write_request, Request, Response, WriteDgramError};
use std::collections::HashMap;
use vstd::prelude::*;

verus! {

broadcast use vstd::std_specs::hash::group_hash_axioms;

/// Pending commands by key; `R` is the type of their response channels.
pub struct CommandSlots<R> {
    slots: HashMap<usize, Command<R>>,
}

impl<R> View for CommandSlots<R> {
    type V = Map<usize, Command<R>>;

    closed spec fn view(&self) -> Map<usize, Command<R>> {
        self.slots@
    }
}

/// What a datagram writer's readiness poll does once its command was driven.
#[derive(Debug)]
pub enum ReadyPhase<R> {
    /// The command is still waiting; the poll is pending.
    Wait,
    /// The command was answered as expected; reserve a slot on the datagram
    /// channel next, keeping the command until that resolves.
    Reserve(Command<R>),
    /// The command was answered with a response of another kind; the writer
    /// panics.
    Invalid,
    /// The command failed; the poll returns this error.
    Failed(WriteDgramError),
}

impl<R> CommandSlots<R> {
    /// No command pending.
    pub fn new() -> (s: CommandSlots<R>)
        ensures
            s@ == Map::<usize, Command<R>>::empty(),
    {
        CommandSlots { slots: HashMap::new() }
    }

    /// Whether a command is pending for `key`.
    pub fn is_pending(&self, key: usize) -> (b: bool)
        ensures
            b == self@.contains_key(key),
    {
        self.slots.contains_key(&key)
    }

    /// A stream write's poll: opens a command that writes a copy of `buf`,
    /// unless one is already pending for `key` (then nothing changes and
    /// `buf` is not used).
    pub fn open_write(&mut self, key: usize, buf: &[u8])
        requires
            buf@.len() <= isize::MAX,
        ensures
            old(self)@.contains_key(key) ==> final(self)@ == old(self)@,
            !old(self)@.contains_key(key) ==> {
                &&& final(self)@.contains_key(key)
                &&& final(self)@.remove(key) == old(self)@
                &&& final(self)@[key] matches Command::State0 { msg: Some(Request::Write { buf: b }) }
                    && bytes_content(b) == buf@
            },
    {
        if !self.slots.contains_key(&key) {
            let cmd = Command::new(write_request(buf));
            self.slots.insert(key, cmd);
            assert(self@.remove(key) =~= old(self)@);
        }
    }

    /// A datagram writer's readiness poll: unless a command is pending for
    /// `key`, opens the one `ready_command` chooses, or fails when the
    /// datagram channel is closed (then nothing changes).
    pub fn open_ready(&mut self, key: usize, sender_open: bool, capacity: usize) -> (r: Result<(), WriteDgramError>)
        ensures
            old(self)@.contains_key(key) ==> r is Ok && final(self)@ == old(self)@,
            !old(self)@.contains_key(key) && !sender_open ==> r == Err::<(), WriteDgramError>(
                WriteDgramError::ConnectionClosed,
            ) && final(self)@ == old(self)@,
            !old(self)@.contains_key(key) && sender_open && capacity > 0 ==> r is Ok
                && final(self)@ == old(self)@.insert(key, Command::Terminated),
            !old(self)@.contains_key(key) && sender_open && capacity == 0 ==> r is Ok
                && final(self)@ == old(self)@.insert(
                key,
                Command::State0 { msg: Some(Request::WriteDgramReady) },
            ),
    {
        if self.slots.contains_key(&key) {
            return Ok(());
        }
        match ready_command(sender_open, capacity) {
            Ok(cmd) => {
                self.slots.insert(key, cmd);
                Ok(())
            },
            Err(e) => Err(e),
        }
    }

    /// A datagram writer's flush poll: opens a flush command unless one is
    /// pending for `key`.
    pub fn open_flush(&mut self, key: usize)
        ensures
            old(self)@.contains_key(key) ==> final(self)@ == old(self)@,
            !old(self)@.contains_key(key) ==> final(self)@ == old(self)@.insert(
                key,
                Command::State0 { msg: Some(Request::WriteDgramFlush) },
            ),
    {
        if !self.slots.contains_key(&key) {
            self.slots.insert(key, Command::new(Request::WriteDgramFlush));
        }
    }

    /// Takes the pending command for `key` out to be driven.
    pub fn take(&mut self, key: usize) -> (c: Command<R>)
        requires
            old(self)@.contains_key(key),
        ensures
            c == old(self)@[key],
            final(self)@ == old(self)@.remove(key),
    {
        match self.slots.remove(&key) {
            Some(c) => c,
            None => {
                proof {
                    assert(false);
                }
                vstd::pervasive::unreached()
            },
        }
    }

    /// A stream write's poll once its command was driven (`outcome` is `None`
    /// while the command waits): a waiting command goes back under `key` and
    /// the poll is pending; otherwise the command leaves and the poll returns
    /// the verdict on its outcome.
    pub fn finish_write(
        &mut self,
        key: usize,
        cmd: Command<R>,
        outcome: Option<Result<Response, RequestFailure>>,
    ) -> (v: Option<Verdict<usize>>)
        requires
            !old(self)@.contains_key(key),
        ensures
            outcome is None ==> v is None && final(self)@ == old(self)@.insert(key, cmd),
            outcome matches Some(r) ==> v == Some(write_verdict_of(r)) && final(self)@ == old(self)@,
    {
        match outcome {
            None => {
                self.slots.insert(key, cmd);
                None
            },
            Some(r) => Some(write_verdict(r)),
        }
    }

    /// A datagram writer's flush poll once its command was driven: a waiting
    /// command goes back under `key`; otherwise the command leaves and the
    /// poll returns the verdict on its outcome.
    pub fn finish_flush(
        &mut self,
        key: usize,
        cmd: Command<R>,
        outcome: Option<Result<Response, RequestFailure>>,
    ) -> (v: Option<Verdict<()>>)
        requires
            !old(self)@.contains_key(key),
        ensures
            outcome is None ==> v is None && final(self)@ == old(self)@.insert(key, cmd),
            outcome matches Some(r) ==> v == Some(flush_verdict_of(r)) && final(self)@ == old(self)@,
    {
        match outcome {
            None => {
                self.slots.insert(key, cmd);
                None
            },
            Some(r) => Some(flush_verdict(r)),
        }
    }

    /// A datagram writer's readiness poll once its command was driven: a
    /// waiting command goes back under `key`; an accepted answer moves on to
    /// reserving a datagram slot with the command still out; a failed command
    /// also goes back under `key` and the poll fails; an answer of another
    /// kind is invalid.
    pub fn after_ready_command(
        &mut self,
        key: usize,
        cmd: Command<R>,
        outcome: Option<Result<Response, RequestFailure>>,
    ) -> (p: ReadyPhase<R>)
        requires
            !old(self)@.contains_key(key),
        ensures
            outcome is None ==> p is Wait && final(self)@ == old(self)@.insert(key, cmd),
            outcome matches Some(r) ==> match ready_verdict_of(r) {
                Verdict::Accepted(_) => p == ReadyPhase::Reserve(cmd) && final(self)@ == old(self)@,
                Verdict::Invalid => p is Invalid && final(self)@ == old(self)@,
                Verdict::Failed => p == ReadyPhase::<R>::Failed(WriteDgramError::ConnectionClosed)
                    && final(self)@ == old(self)@.insert(key, cmd),
            },
    {
        match outcome {
            None => {
                self.slots.insert(key, cmd);
                ReadyPhase::Wait
            },
            Some(r) => match ready_verdict(r) {
                Verdict::Accepted(()) => ReadyPhase::Reserve(cmd),
                Verdict::Invalid => ReadyPhase::Invalid,
                Verdict::Failed => {
                    self.slots.insert(key, cmd);
                    ReadyPhase::Failed(WriteDgramError::ConnectionClosed)
                },
            },
        }
    }

    /// A datagram writer's readiness poll once the reservation of a datagram
    /// slot was polled (`None`: still waiting): while waiting the command goes
    /// back under `key` and the poll is pending; otherwise the command leaves
    /// and the poll returns the reservation's result.
    pub fn after_ready_reserve(&mut self, key: usize, cmd: Command<R>, reserved: Option<bool>) -> (r: Option<
        Result<(), WriteDgramError>,
    >)
        requires
            !old(self)@.contains_key(key),
        ensures
            reserved is None ==> r is None && final(self)@ == old(self)@.insert(key, cmd),
            reserved == Some(true) ==> r == Some(Ok::<(), WriteDgramError>(())) && final(self)@ == old(self)@,
            reserved == Some(false) ==> r == Some(Err::<(), WriteDgramError>(WriteDgramError::ConnectionClosed))
                && final(self)@ == old(self)@,
    {
        match reserved {
            None => {
                self.slots.insert(key, cmd);
                None
            },
            Some(ok) => Some(channel_result(ok)),
        }
    }
}

/// A readiness wait whose command ends `Terminated` (the answer the writer
/// accepts) has sent exactly one readiness request.
pub proof fn lemma_ready_answer_sent_once<R>(evs: Seq<CommandEvent<R>>)
    requires
        run_allowed(Command::<R>::State0 { msg: Some(Request::WriteDgramReady) }, evs),
        run_state(Command::<R>::State0 { msg: Some(Request::WriteDgramReady) }, evs) is Terminated,
    ensures
        run_dispatched(Command::<R>::State0 { msg: Some(Request::WriteDgramReady) }, evs) == seq![
            Request::WriteDgramReady,
        ],
{
    lemma_answered_command_dispatched(Request::WriteDgramReady, evs);
}

/// Taking a command out and putting it back unchanged leaves the table as it
/// was.
pub proof fn lemma_take_restore<R>(m: Map<usize, Command<R>>, key: usize)
    requires
        m.contains_key(key),
    ensures
        m.remove(key).insert(key, m[key]) == m,
{
    assert(m.remove(key).insert(key, m[key]) =~= m);
}

} // verus!
