//! The state machine that carries one request to the connection task and
//! waits for its response.
//!
//! The channel operations themselves are performed by the caller; each method
//! here takes what the channel reported and decides the next state and what
//! the caller does next. A command that has sent its request holds the
//! channel (of any type `R`) its response will arrive on.
use crate::message::{Request, Response};
use vstd::prelude::*;

verus! {

/// Why a command ended without a response.
#[derive(Debug, Clone, Copy, PartialEq, Eq, Structural)]
pub enum RequestFailure {
    /// The channel was ready but the command had no request left to send.
    NoRequest,
    /// Reserving a slot in, or sending on, the request channel failed.
    SendFailed,
    /// The response channel was dropped without an answer.
    RecvFailed,
}

/// What the caller does once the request channel has been polled.
#[derive(Debug)]
pub enum Dispatch {
    /// Send this request, together with a fresh response channel.
    Send(Request),
    /// Give up with this failure.
    Fail(RequestFailure),
}

/// A request in flight, whose response arrives on a channel of type `R`.
#[derive(Debug)]
pub enum Command<R> {
    /// Waiting for room in the request channel; holds the request until sent.
    State0 { msg: Option<Request> },
    /// The request was sent; waiting for the response on `recv`.
    State1 { recv: R },
    /// The response was delivered.
    Terminated,
}

/// The next state and the dispatch after the request channel's reservation
/// resolved (`reserved`: it succeeded).
pub open spec fn reserve_step<R>(c: Command<R>, reserved: bool) -> (Command<R>, Dispatch) {
    if !reserved {
        (c, Dispatch::Fail(RequestFailure::SendFailed))
    } else {
        match c {
            Command::State0 { msg: Some(m) } => (Command::State0 { msg: None }, Dispatch::Send(m)),
            _ => (c, Dispatch::Fail(RequestFailure::NoRequest)),
        }
    }
}

/// The next state and the result after the request was handed to the channel
/// together with the sending end of `recv` (`sent`: the channel took it).
pub open spec fn sent_step<R>(c: Command<R>, sent: bool, recv: R) -> (Command<R>, Result<(), RequestFailure>) {
    if sent {
        (Command::State1 { recv }, Ok(()))
    } else {
        (c, Err(RequestFailure::SendFailed))
    }
}

/// The next state and the result once the response channel resolved
/// (`None`: it was dropped).
pub open spec fn answer_step<R>(c: Command<R>, answer: Option<Response>) -> (Command<R>, Result<Response, RequestFailure>) {
    match answer {
        Some(r) => (Command::Terminated, Ok(r)),
        None => (c, Err(RequestFailure::RecvFailed)),
    }
}

impl<R> Command<R> {
    /// A command that will send `msg`.
    pub fn new(msg: Request) -> (c: Command<R>)
        ensures
            c == (Command::<R>::State0 { msg: Some(msg) }),
    {
        Command::State0 { msg: Some(msg) }
    }

    /// Whether the response has been delivered.
    pub fn is_terminated(&self) -> (b: bool)
        ensures
            b == (*self is Terminated),
    {
        if let Command::Terminated = self {
            true
        } else {
            false
        }
    }

    /// Whether the command is waiting for room in the request channel.
    pub fn is_sending(&self) -> (b: bool)
        ensures
            b == (*self is State0),
    {
        if let Command::State0 { .. } = self {
            true
        } else {
            false
        }
    }

    /// Decides what to do once the request channel's reservation resolved.
    pub fn on_reserved(&mut self, reserved: bool) -> (d: Dispatch)
        requires
            *old(self) is State0,
        ensures
            (*final(self), d) == reserve_step(*old(self), reserved),
    {
        if !reserved {
            return Dispatch::Fail(RequestFailure::SendFailed);
        }
        let mut cur = Command::State0 { msg: None };
        std::mem::swap(self, &mut cur);
        match cur {
            Command::State0 { msg: Some(m) } => Dispatch::Send(m),
            other => {
                *self = other;
                Dispatch::Fail(RequestFailure::NoRequest)
            },
        }
    }

    /// Records whether the channel took the request; if it did, the response
    /// will come on `recv`.
    pub fn on_sent(&mut self, sent: bool, recv: R) -> (r: Result<(), RequestFailure>)
        requires
            *old(self) == (Command::<R>::State0 { msg: None }),
        ensures
            (*final(self), r) == sent_step(*old(self), sent, recv),
    {
        if sent {
            *self = Command::State1 { recv };
            Ok(())
        } else {
            Err(RequestFailure::SendFailed)
        }
    }

    /// The channel the response comes on, to be polled in place.
    pub fn response_channel(&mut self) -> (ch: &mut R)
        requires
            *old(self) is State1,
        ensures
            *ch == old(self)->recv,
            *final(self) == (Command::State1 { recv: *final(ch) }),
    {
        match self {
            Command::State1 { recv } => recv,
            _ => {
                proof {
                    assert(false);
                }
                vstd::pervasive::unreached()
            },
        }
    }

    /// Delivers the response, or reports that none will come.
    pub fn on_answer(&mut self, answer: Option<Response>) -> (r: Result<Response, RequestFailure>)
        requires
            *old(self) is State1,
        ensures
            (*final(self), r) == answer_step(*old(self), answer),
    {
        match answer {
            Some(resp) => {
                *self = Command::Terminated;
                Ok(resp)
            },
            None => Err(RequestFailure::RecvFailed),
        }
    }
}

/// What the channels reported to a command, one step at a time.
#[derive(Debug)]
pub enum CommandEvent<R> {
    /// The request channel's reservation resolved (`true`: granted).
    Reserved(bool),
    /// The request was handed to the channel (`true`: it took it), with the
    /// channel the response will come on.
    Sent(bool, R),
    /// The response channel resolved (`None`: dropped without an answer).
    Answered(Option<Response>),
}

/// Whether `e` is an event that a command in state `c` is driven by.
pub open spec fn event_allowed<R>(c: Command<R>, e: CommandEvent<R>) -> bool {
    match e {
        CommandEvent::Reserved(_) => c is State0,
        CommandEvent::Sent(_, _) => c == (Command::<R>::State0 { msg: None }),
        CommandEvent::Answered(_) => c is State1,
    }
}

/// The state after `e`.
pub open spec fn next_state<R>(c: Command<R>, e: CommandEvent<R>) -> Command<R> {
    match e {
        CommandEvent::Reserved(r) => reserve_step(c, r).0,
        CommandEvent::Sent(ok, recv) => sent_step(c, ok, recv).0,
        CommandEvent::Answered(a) => answer_step(c, a).0,
    }
}

/// The requests handed to the channel by the step for `e` (none or one).
pub open spec fn dispatched<R>(c: Command<R>, e: CommandEvent<R>) -> Seq<Request> {
    match e {
        CommandEvent::Reserved(r) => match reserve_step(c, r).1 {
            Dispatch::Send(m) => seq![m],
            Dispatch::Fail(_) => Seq::empty(),
        },
        _ => Seq::empty(),
    }
}

/// Whether every event of `evs`, in turn, is one the command is driven by.
pub open spec fn run_allowed<R>(c: Command<R>, evs: Seq<CommandEvent<R>>) -> bool
    decreases evs.len(),
{
    evs.len() == 0 || (event_allowed(c, evs[0]) && run_allowed(next_state(c, evs[0]), evs.drop_first()))
}

/// The state after the events `evs`, in order.
pub open spec fn run_state<R>(c: Command<R>, evs: Seq<CommandEvent<R>>) -> Command<R>
    decreases evs.len(),
{
    if evs.len() == 0 {
        c
    } else {
        run_state(next_state(c, evs[0]), evs.drop_first())
    }
}

/// The requests handed to the channel over the events `evs`, in order.
pub open spec fn run_dispatched<R>(c: Command<R>, evs: Seq<CommandEvent<R>>) -> Seq<Request>
    decreases evs.len(),
{
    if evs.len() == 0 {
        Seq::empty()
    } else {
        dispatched(c, evs[0]) + run_dispatched(next_state(c, evs[0]), evs.drop_first())
    }
}

/// The request a command still holds, if any.
pub open spec fn held_request<R>(c: Command<R>) -> Seq<Request> {
    match c {
        Command::State0 { msg: Some(m) } => seq![m],
        _ => Seq::empty(),
    }
}

/// How far a command has come: waiting to send, waiting for the answer,
/// answered.
pub open spec fn progress<R>(c: Command<R>) -> nat {
    match c {
        Command::State0 { .. } => 0,
        Command::State1 { .. } => 1,
        Command::Terminated => 2,
    }
}

proof fn lemma_step_keeps_or_drops_request<R>(c: Command<R>, e: CommandEvent<R>)
    ensures
        dispatched(c, e) == held_request(c) || dispatched(c, e) == Seq::<Request>::empty(),
        dispatched(c, e).len() > 0 ==> held_request(next_state(c, e)) == Seq::<Request>::empty(),
        held_request(next_state(c, e)) == held_request(c)
            || held_request(next_state(c, e)) == Seq::<Request>::empty(),
{
}

/// Over any run of steps, whatever the polls and their outcomes, a command
/// hands its request to the channel at most once, and what it hands over is
/// the request it was made with.
pub proof fn lemma_dispatched_at_most_once<R>(c: Command<R>, evs: Seq<CommandEvent<R>>)
    ensures
        run_dispatched(c, evs) == held_request(c) || run_dispatched(c, evs) == Seq::<Request>::empty(),
        run_dispatched(c, evs).len() <= 1,
    decreases evs.len(),
{
    if evs.len() > 0 {
        let e = evs[0];
        let n = next_state(c, e);
        lemma_step_keeps_or_drops_request(c, e);
        lemma_dispatched_at_most_once(n, evs.drop_first());
        let rest = run_dispatched(n, evs.drop_first());
        assert(run_dispatched(c, evs) == dispatched(c, e) + rest);
        if dispatched(c, e).len() > 0 {
            assert(rest == Seq::<Request>::empty());
            assert(dispatched(c, e) + rest =~= dispatched(c, e));
        } else {
            assert(dispatched(c, e) + rest =~= rest);
        }
    }
}

/// A command made with request `m` that gets past waiting to send (in
/// particular one that ends `Terminated`, having delivered an answer) has
/// handed exactly `m` to the channel, once.
pub proof fn lemma_answered_command_dispatched<R>(m: Request, evs: Seq<CommandEvent<R>>)
    requires
        run_allowed(Command::<R>::State0 { msg: Some(m) }, evs),
        progress(run_state(Command::<R>::State0 { msg: Some(m) }, evs)) >= 1,
    ensures
        run_dispatched(Command::<R>::State0 { msg: Some(m) }, evs) == seq![m],
    decreases evs.len(),
{
    let c = Command::<R>::State0 { msg: Some(m) };
    if evs.len() == 0 {
        assert(run_state(c, evs) == c);
    } else {
        let e = evs[0];
        let n = next_state(c, e);
        let rest = evs.drop_first();
        assert(run_dispatched(c, evs) == dispatched(c, e) + run_dispatched(n, rest));
        match e {
            CommandEvent::Reserved(r) => {
                if r {
                    lemma_dispatched_at_most_once(n, rest);
                    assert(held_request(n) == Seq::<Request>::empty());
                    assert(run_dispatched(n, rest) == Seq::<Request>::empty());
                    assert(seq![m] + Seq::<Request>::empty() =~= seq![m]);
                } else {
                    assert(n == c);
                    lemma_answered_command_dispatched(m, rest);
                    assert(Seq::<Request>::empty() + seq![m] =~= seq![m]);
                }
            },
            _ => {
                assert(!event_allowed(c, e));
            },
        }
    }
}

/// Each step that a command is driven by only moves it forward, and it
/// reaches `Terminated` exactly on a delivered answer.
pub proof fn lemma_step_forward<R>(c: Command<R>, e: CommandEvent<R>)
    requires
        event_allowed(c, e),
    ensures
        progress(next_state(c, e)) >= progress(c),
        (next_state(c, e) is Terminated) <==> (e matches CommandEvent::Answered(Some(_))),
{
}

/// Over the steps of a poll (or of several), a command only moves forward,
/// and it ends `Terminated` exactly when the last step delivered an answer,
/// which is when the poll returns a response; otherwise it is still waiting
/// to send or waiting for the answer.
pub proof fn lemma_run_forward<R>(c: Command<R>, evs: Seq<CommandEvent<R>>)
    requires
        !(c is Terminated),
        run_allowed(c, evs),
    ensures
        progress(run_state(c, evs)) >= progress(c),
        evs.len() > 0 ==> ((run_state(c, evs) is Terminated) <==> (evs.last() matches CommandEvent::Answered(Some(_)))),
        evs.len() == 0 ==> run_state(c, evs) == c,
    decreases evs.len(),
{
    if evs.len() > 0 {
        let e = evs[0];
        let n = next_state(c, e);
        lemma_step_forward(c, e);
        if evs.len() == 1 {
            assert(evs.drop_first().len() == 0);
            assert(run_state(c, evs) == run_state(n, evs.drop_first()));
            assert(evs.last() == e);
        } else {
            if n is Terminated {
                assert(!event_allowed(n, evs.drop_first()[0]));
                assert(false);
            }
            lemma_run_forward(n, evs.drop_first());
            assert(evs.drop_first().last() == evs.last());
        }
    }
}

/// A command hands out its request at most once: after a reservation that
/// dispatched the request, no later reservation dispatches one again.
pub proof fn lemma_request_dispatched_once<R>(c: Command<R>, first: bool, second: bool)
    requires
        c is State0,
        reserve_step(c, first).1 is Send,
    ensures
        !(reserve_step(reserve_step(c, first).0, second).1 is Send),
        reserve_step(c, first).0 == (Command::<R>::State0 { msg: None }),
{
}

/// A reservation that fails leaves the command exactly as it was, so the
/// request is still there for the next poll.
pub proof fn lemma_failed_reservation_keeps_request<R>(c: Command<R>)
    requires
        c is State0,
    ensures
        reserve_step(c, false).0 == c,
        reserve_step(c, false).1 == Dispatch::Fail(RequestFailure::SendFailed),
{
}

/// Only a delivered response terminates a command, and the response that
/// terminates it is the one returned.
pub proof fn lemma_terminates_only_on_answer<R>(c: Command<R>, answer: Option<Response>)
    requires
        c is State1,
    ensures
        (answer_step(c, answer).0 is Terminated) <==> answer is Some,
        answer matches Some(r) ==> answer_step(c, answer).1 == Ok::<Response, RequestFailure>(r),
{
}

} // verus!
