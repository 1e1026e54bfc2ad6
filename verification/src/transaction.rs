//! The transaction that follows a request: the kernel answers with a stream
//! of messages, and the caller reads them until the stream ends or one of
//! them reports a failure.
//!
//! Reading is the caller's work. What to do after each message is decided
//! here, as a state machine from a state and an event to the next state,
//! and [`drain`] runs that machine over a stream that is already at hand.

use vstd::prelude::*;
use netlink_packet_core::NetlinkMessage;
use netlink_packet_route::RtnlMessage;
use crate::wire::{reply_code, wire_error_code};

verus! {

/// One message of the reply stream, as far as the transaction looks at it.
#[derive(Clone, Copy, Debug, PartialEq, Eq, Structural)]
pub enum Reply {
    /// A message that carries no error code.
    Message,
    /// An error message and its code. The code zero acknowledges the
    /// request.
    Error(i32),
}

/// Why a transaction failed.
#[derive(Clone, Copy, Debug, PartialEq, Eq, Structural)]
pub enum Error {
    /// The request could not be handed to the kernel, or the connection
    /// broke.
    Transport,
    /// The kernel refused the request with this code.
    Protocol(i32),
}

/// Where a transaction stands.
#[derive(Clone, Copy, Debug, PartialEq, Eq, Structural)]
pub enum TransactionState {
    /// The request was dispatched and no reply was read yet.
    Sent,
    /// At least one reply was read, none of them a failure.
    Draining,
    /// The stream ended without a failure.
    Done,
    /// A failure was seen. Nothing is read after it.
    Failed(Error),
}

/// What happened on the connection.
#[derive(Clone, Copy, Debug, PartialEq, Eq, Structural)]
pub enum Event {
    /// A reply arrived.
    Reply(Reply),
    /// The reply stream ended.
    EndOfStream,
    /// The connection failed.
    TransportFailure,
}

/// What the caller is to do next.
#[derive(Clone, Copy, Debug, PartialEq, Eq, Structural)]
pub enum Action {
    /// Read the next reply and report it.
    Receive,
    /// Stop reading: the request succeeded.
    Succeed,
    /// Stop reading: the request failed.
    Fail(Error),
}

impl Reply {
    /// The reply that carries the code `code`, or none.
    pub open spec fn of_code(code: Option<i32>) -> Reply {
        match code {
            Some(code) => Reply::Error(code),
            None => Reply::Message,
        }
    }

    /// The failure a reply reports: its code, where it has one that is not
    /// zero.
    pub open spec fn failure(self) -> Option<i32> {
        match self {
            Reply::Error(code) => if code != 0 {
                Some(code)
            } else {
                None
            },
            Reply::Message => None,
        }
    }

    /// The reply that carries the code `code`, or none.
    pub fn from_code(code: Option<i32>) -> (reply: Reply)
        ensures
            reply == Reply::of_code(code),
    {
        match code {
            Some(code) => Reply::Error(code),
            None => Reply::Message,
        }
    }

    /// What the transaction sees of the netlink message `msg`.
    pub fn from_message(msg: &NetlinkMessage<RtnlMessage>) -> (reply: Reply)
        ensures
            reply == Reply::of_code(reply_code(*msg)),
    {
        Reply::from_code(wire_error_code(msg))
    }

    /// The failure this reply reports, if it reports one.
    pub fn failure_code(&self) -> (code: Option<i32>)
        ensures
            code == self.failure(),
    {
        match self {
            Reply::Error(code) => if *code != 0 {
                Some(*code)
            } else {
                None
            },
            Reply::Message => None,
        }
    }
}

impl TransactionState {
    /// Whether nothing more is read in this state.
    pub open spec fn terminal(self) -> bool {
        self is Done || self is Failed
    }

    /// The state that follows this one on `event`. A reply without a failure
    /// keeps the transaction draining, a failure ends it at once, and the
    /// end of the stream completes it. A state that is terminal stays as it
    /// is, whatever comes.
    pub open spec fn next(self, event: Event) -> TransactionState {
        if self.terminal() {
            self
        } else {
            match event {
                Event::Reply(reply) => match reply.failure() {
                    Some(code) => TransactionState::Failed(Error::Protocol(code)),
                    None => TransactionState::Draining,
                },
                Event::EndOfStream => TransactionState::Done,
                Event::TransportFailure => TransactionState::Failed(Error::Transport),
            }
        }
    }

    /// What the caller is to do in this state.
    pub open spec fn pending(self) -> Action {
        match self {
            TransactionState::Sent => Action::Receive,
            TransactionState::Draining => Action::Receive,
            TransactionState::Done => Action::Succeed,
            TransactionState::Failed(error) => Action::Fail(error),
        }
    }

    /// The state this one has reached when `events` have come, one after
    /// the other.
    pub open spec fn run(self, events: Seq<Event>) -> TransactionState
        decreases events.len(),
    {
        if events.len() == 0 {
            self
        } else {
            self.next(events[0]).run(events.drop_first())
        }
    }

    /// The state of a transaction whose request was just dispatched.
    pub fn new() -> (state: TransactionState)
        ensures
            state == TransactionState::Sent,
    {
        TransactionState::Sent
    }

    /// Whether nothing more is read in this state.
    pub fn is_terminal(&self) -> (terminal: bool)
        ensures
            terminal == self.terminal(),
    {
        match self {
            TransactionState::Done => true,
            TransactionState::Failed(_) => true,
            _ => false,
        }
    }

    /// What the caller is to do in this state.
    pub fn action(&self) -> (action: Action)
        ensures
            action == self.pending(),
    {
        match self {
            TransactionState::Sent => Action::Receive,
            TransactionState::Draining => Action::Receive,
            TransactionState::Done => Action::Succeed,
            TransactionState::Failed(error) => Action::Fail(*error),
        }
    }

    /// The state that follows this one on `event`.
    pub fn on_event(self, event: Event) -> (next: TransactionState)
        ensures
            next == self.next(event),
    {
        if self.is_terminal() {
            return self;
        }
        match event {
            Event::Reply(reply) => match reply.failure_code() {
                Some(code) => TransactionState::Failed(Error::Protocol(code)),
                None => TransactionState::Draining,
            },
            Event::EndOfStream => TransactionState::Done,
            Event::TransportFailure => TransactionState::Failed(Error::Transport),
        }
    }
}

/// The next state of a transaction and what the caller is to do in it.
pub fn step(state: TransactionState, event: Event) -> (r: (TransactionState, Action))
    ensures
        r.0 == state.next(event),
        r.1 == state.next(event).pending(),
{
    let next = state.on_event(event);
    let action = next.action();
    (next, action)
}

/// Whether reply `i` of `replies` is the first that reports a failure.
pub open spec fn fails_first_at(replies: Seq<Reply>, i: int) -> bool {
    &&& 0 <= i < replies.len()
    &&& replies[i].failure() is Some
    &&& forall|k: int| 0 <= k < i ==> (#[trigger] replies[k]).failure() is None
}

/// Whether no reply of `replies` reports a failure.
pub open spec fn all_pass(replies: Seq<Reply>) -> bool {
    forall|k: int| 0 <= k < replies.len() ==> (#[trigger] replies[k]).failure() is None
}

/// The events of a stream that delivers `replies` and then ends.
pub open spec fn stream_events(replies: Seq<Reply>) -> Seq<Event> {
    replies.map_values(|reply: Reply| Event::Reply(reply)).push(Event::EndOfStream)
}

/// The outcome of a transaction and the number of replies it read.
#[derive(Clone, Copy, Debug, PartialEq, Eq)]
pub struct Drained {
    /// Success, or the one failure that ended the transaction.
    pub outcome: Result<(), Error>,
    /// How many replies were read, the failing one included.
    pub consumed: usize,
}

impl Drained {
    /// What the caller does at the end of a transaction with this outcome.
    pub open spec fn last_action(self) -> Action {
        match self.outcome {
            Ok(_) => Action::Succeed,
            Err(error) => Action::Fail(error),
        }
    }
}

/// Runs a transaction over the reply stream `replies`. It reads up to the
/// first reply that reports a failure, reports that failure and reads no
/// further; without a failure it reads the whole stream and succeeds. The
/// outcome is where the state machine ends on that stream.
pub fn drain(replies: &Vec<Reply>) -> (drained: Drained)
    ensures
        drained.outcome is Ok <==> all_pass(replies@),
        drained.outcome is Ok ==> drained.consumed == replies.len(),
        drained.outcome is Err ==> fails_first_at(replies@, drained.consumed - 1)
            && drained.outcome->Err_0 == Error::Protocol(
            replies[drained.consumed - 1].failure()->0,
        ),
        TransactionState::Sent.run(stream_events(replies@)).pending() == drained.last_action(),
{
    let mut state = TransactionState::new();
    let mut i: usize = 0;
    while i < replies.len()
        invariant
            i <= replies.len(),
            !state.terminal(),
            forall|k: int| 0 <= k < i ==> (#[trigger] replies[k]).failure() is None,
        decreases replies.len() - i,
    {
        let (next, action) = step(state, Event::Reply(replies[i]));
        i += 1;
        if let Action::Fail(error) = action {
            proof {
                lemma_first_failure_decides(replies@);
                assert(fails_first_at(replies@, i - 1));
            }
            return Drained { outcome: Err(error), consumed: i };
        }
        state = next;
    }
    proof {
        lemma_first_failure_decides(replies@);
    }
    Drained { outcome: Ok(()), consumed: i }
}

/// A terminal state absorbs every event: once a transaction has failed, no
/// later message changes the failure it reports, and once it is done it
/// stays done.
pub proof fn lemma_terminal_absorbs(state: TransactionState, events: Seq<Event>)
    requires
        state.terminal(),
    ensures
        state.run(events) == state,
    decreases events.len(),
{
    if events.len() > 0 {
        lemma_terminal_absorbs(state, events.drop_first());
    }
}

/// Replies without a failure keep a transaction that is not terminal from
/// becoming so, and the end of the stream then completes it.
proof fn lemma_run_passing(state: TransactionState, replies: Seq<Reply>)
    requires
        !state.terminal(),
        all_pass(replies),
    ensures
        state.run(stream_events(replies)) == TransactionState::Done,
    decreases replies.len(),
{
    let events = stream_events(replies);
    if replies.len() == 0 {
        assert(events.drop_first().len() == 0);
        assert(state.next(events[0]).run(events.drop_first()) == TransactionState::Done);
    } else {
        assert(replies[0].failure() is None);
        assert(events.drop_first() =~= stream_events(replies.drop_first()));
        lemma_run_passing(state.next(events[0]), replies.drop_first());
    }
}

/// Over a stream that delivers `replies` and ends, a fresh transaction ends
/// done where no reply reports a failure, and else ends failed with the code
/// of the first reply that does: whatever follows that reply, a failure or
/// not, changes nothing.
pub proof fn lemma_first_failure_decides(replies: Seq<Reply>)
    ensures
        all_pass(replies) ==> TransactionState::Sent.run(stream_events(replies))
            == TransactionState::Done,
        forall|i: int| #[trigger]
            fails_first_at(replies, i) ==> TransactionState::Sent.run(stream_events(replies))
                == TransactionState::Failed(Error::Protocol(replies[i].failure()->0)),
{
    if all_pass(replies) {
        lemma_run_passing(TransactionState::Sent, replies);
    }
    assert forall|i: int| #[trigger] fails_first_at(replies, i) implies TransactionState::Sent.run(
        stream_events(replies),
    ) == TransactionState::Failed(Error::Protocol(replies[i].failure()->0)) by {
        lemma_run_to_failure(TransactionState::Sent, replies, i);
    }
}

/// A transaction that is not terminal fails at the first failing reply of
/// the stream and keeps that failure to the end.
proof fn lemma_run_to_failure(state: TransactionState, replies: Seq<Reply>, i: int)
    requires
        !state.terminal(),
        fails_first_at(replies, i),
    ensures
        state.run(stream_events(replies)) == TransactionState::Failed(
            Error::Protocol(replies[i].failure()->0),
        ),
    decreases replies.len(),
{
    let events = stream_events(replies);
    assert(events.drop_first() =~= stream_events(replies.drop_first()));
    if i == 0 {
        lemma_terminal_absorbs(state.next(events[0]), events.drop_first());
    } else {
        assert(replies[0].failure() is None);
        assert(fails_first_at(replies.drop_first(), i - 1)) by {
            assert forall|k: int| 0 <= k < i - 1 implies (#[trigger] replies.drop_first()[k]).failure() is None by {
                assert(replies.drop_first()[k] == replies[k + 1]);
            }
        }
        lemma_run_to_failure(state.next(events[0]), replies.drop_first(), i - 1);
    }
}

} // verus!
