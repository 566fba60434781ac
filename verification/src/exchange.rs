//! The course of one exchange over one connection, as a state machine.
//!
//! A client connects, sends its request, waits for the server and receives
//! the response. A server accepts a connection, waits for the client,
//! receives the request, and sends its response. The caller performs each
//! action and reports what came of it as the next event.

use vstd::prelude::*;

verus! {

/// The side of the connection that an exchange is driven from.
#[derive(Copy, Clone, Debug, PartialEq, Eq, Structural)]
pub enum Role {
    Client,
    Server,
}

/// Where an exchange stands.
#[derive(Copy, Clone, Debug, PartialEq, Eq, Structural)]
pub enum Phase {
    /// Nothing has happened yet.
    Idle,
    /// The connection is being made.
    Connecting,
    /// The own frame is being written.
    Sending,
    /// The stream is being waited on for the frame of the peer.
    AwaitingPeer,
    /// The frame of the peer is being read, or has been read and is being
    /// worked on.
    Receiving,
    /// The exchange is complete.
    Done,
    /// The exchange was given up.
    Failed,
}

/// What the caller reports.
#[derive(Copy, Clone, Debug, PartialEq, Eq, Structural)]
pub enum Event {
    /// The exchange is to begin.
    Started,
    /// The connection stands.
    Connected,
    /// The stream reported the readiness that was waited for.
    Ready,
    /// An attempt to read or write found the stream not ready after all.
    WouldBlock,
    /// An attempt to read or write moved the frame.
    Transferred,
    /// The frame that was read has been decoded and acted on.
    Processed,
    /// A frame was malformed, or the stream or the store failed for good.
    Fault,
}

/// What the caller is to do next.
#[derive(Copy, Clone, Debug, PartialEq, Eq, Structural)]
pub enum Action {
    /// Make the connection: connect as a client, accept as a server.
    Connect,
    /// Wait until the stream is writable.
    AwaitWritable,
    /// Try once to write the own frame.
    Write,
    /// Wait until the stream is readable.
    AwaitReadable,
    /// Try once to read the frame of the peer.
    Read,
    /// Decode the frame that was read and act on it.
    Process,
    /// Close the connection; the exchange succeeded.
    Close,
    /// Close the connection and report the failure.
    Abort,
    /// Nothing: the exchange is over.
    Rest,
}

/// One move of the machine: the phase to go to and the action to take.
#[derive(Copy, Clone, Debug, PartialEq, Eq, Structural)]
pub struct Transition {
    pub next: Phase,
    pub action: Action,
}

impl Phase {
    /// Whether the exchange is over in this phase.
    pub open spec fn is_terminal(self) -> bool {
        self == Phase::Done || self == Phase::Failed
    }

    /// Whether the exchange is over in this phase.
    pub fn terminal(&self) -> (res: bool)
        ensures
            res == self.is_terminal(),
    {
        match self {
            Phase::Done => true,
            Phase::Failed => true,
            _ => false,
        }
    }
}

/// The move that gives an exchange up.
pub open spec fn give_up() -> Transition {
    Transition { next: Phase::Failed, action: Action::Abort }
}

/// The move of an exchange of the given role that stands in `phase` and is
/// told of `event`.
///
/// An exchange that is over stays where it is. Before that, a fault gives
/// the exchange up, and so does an event that the phase has no use for. A
/// stream that would block is waited for again, in the phase that waits.
pub open spec fn transition(role: Role, phase: Phase, event: Event) -> Transition {
    if phase.is_terminal() {
        Transition { next: phase, action: Action::Rest }
    } else {
        match (phase, event) {
            (Phase::Idle, Event::Started) => Transition {
                next: Phase::Connecting,
                action: Action::Connect,
            },
            (Phase::Connecting, Event::Connected) => match role {
                Role::Client => Transition { next: Phase::Sending, action: Action::AwaitWritable },
                Role::Server => Transition {
                    next: Phase::AwaitingPeer,
                    action: Action::AwaitReadable,
                },
            },
            (Phase::Sending, Event::Ready) => Transition {
                next: Phase::Sending,
                action: Action::Write,
            },
            (Phase::Sending, Event::WouldBlock) => Transition {
                next: Phase::Sending,
                action: Action::AwaitWritable,
            },
            (Phase::Sending, Event::Transferred) => match role {
                Role::Client => Transition {
                    next: Phase::AwaitingPeer,
                    action: Action::AwaitReadable,
                },
                Role::Server => Transition { next: Phase::Done, action: Action::Close },
            },
            (Phase::AwaitingPeer, Event::Ready) => Transition {
                next: Phase::Receiving,
                action: Action::Read,
            },
            (Phase::Receiving, Event::WouldBlock) => Transition {
                next: Phase::AwaitingPeer,
                action: Action::AwaitReadable,
            },
            (Phase::Receiving, Event::Transferred) => Transition {
                next: Phase::Receiving,
                action: Action::Process,
            },
            (Phase::Receiving, Event::Processed) => match role {
                Role::Client => Transition { next: Phase::Done, action: Action::Close },
                Role::Server => Transition { next: Phase::Sending, action: Action::AwaitWritable },
            },
            _ => give_up(),
        }
    }
}

/// Moves an exchange by one event.
pub fn step(role: Role, phase: Phase, event: Event) -> (t: Transition)
    ensures
        t == transition(role, phase, event),
{
    if phase.terminal() {
        return Transition { next: phase, action: Action::Rest };
    }
    match (phase, event) {
        (Phase::Idle, Event::Started) => Transition {
            next: Phase::Connecting,
            action: Action::Connect,
        },
        (Phase::Connecting, Event::Connected) => match role {
            Role::Client => Transition { next: Phase::Sending, action: Action::AwaitWritable },
            Role::Server => Transition { next: Phase::AwaitingPeer, action: Action::AwaitReadable },
        },
        (Phase::Sending, Event::Ready) => Transition { next: Phase::Sending, action: Action::Write },
        (Phase::Sending, Event::WouldBlock) => Transition {
            next: Phase::Sending,
            action: Action::AwaitWritable,
        },
        (Phase::Sending, Event::Transferred) => match role {
            Role::Client => Transition { next: Phase::AwaitingPeer, action: Action::AwaitReadable },
            Role::Server => Transition { next: Phase::Done, action: Action::Close },
        },
        (Phase::AwaitingPeer, Event::Ready) => Transition {
            next: Phase::Receiving,
            action: Action::Read,
        },
        (Phase::Receiving, Event::WouldBlock) => Transition {
            next: Phase::AwaitingPeer,
            action: Action::AwaitReadable,
        },
        (Phase::Receiving, Event::Transferred) => Transition {
            next: Phase::Receiving,
            action: Action::Process,
        },
        (Phase::Receiving, Event::Processed) => match role {
            Role::Client => Transition { next: Phase::Done, action: Action::Close },
            Role::Server => Transition { next: Phase::Sending, action: Action::AwaitWritable },
        },
        _ => Transition { next: Phase::Failed, action: Action::Abort },
    }
}

/// The phase that an exchange reaches from `phase` by a sequence of events.
pub open spec fn run(role: Role, phase: Phase, events: Seq<Event>) -> Phase
    decreases events.len(),
{
    if events.len() == 0 {
        phase
    } else {
        run(role, transition(role, phase, events[0]).next, events.drop_first())
    }
}

/// An exchange that is over stays over: there is no way back from `Done`
/// or `Failed`, whatever is reported, and nothing more is asked of the
/// caller.
pub proof fn lemma_terminal_phases_absorb(role: Role, phase: Phase, events: Seq<Event>)
    requires
        phase.is_terminal(),
    ensures
        run(role, phase, events) == phase,
        events.len() > 0 ==> transition(role, phase, events[0]).action == Action::Rest,
    decreases events.len(),
{
    if events.len() > 0 {
        lemma_terminal_phases_absorb(role, phase, events.drop_first());
    }
}

/// A fault gives up every exchange that is not over yet, and the exchange
/// then stays failed.
pub proof fn lemma_fault_fails(role: Role, phase: Phase, later: Seq<Event>)
    requires
        !phase.is_terminal(),
    ensures
        transition(role, phase, Event::Fault) == give_up(),
        run(role, phase, seq![Event::Fault] + later) == Phase::Failed,
{
    let events = seq![Event::Fault] + later;
    assert(events[0] == Event::Fault);
    assert(events.drop_first() =~= later);
    lemma_terminal_phases_absorb(role, Phase::Failed, later);
}

/// A stream that would block is no failure: while writing the exchange
/// waits to write again, while reading it waits to read again, and neither
/// ends the exchange.
pub proof fn lemma_would_block_is_absorbed(role: Role)
    ensures
        transition(role, Phase::Sending, Event::WouldBlock) == (Transition {
            next: Phase::Sending,
            action: Action::AwaitWritable,
        }),
        transition(role, Phase::Receiving, Event::WouldBlock) == (Transition {
            next: Phase::AwaitingPeer,
            action: Action::AwaitReadable,
        }),
{
}

/// The events of a client's exchange in which nothing blocks and nothing
/// fails.
pub open spec fn client_course() -> Seq<Event> {
    seq![
        Event::Started,
        Event::Connected,
        Event::Ready,
        Event::Transferred,
        Event::Ready,
        Event::Transferred,
        Event::Processed,
    ]
}

/// The events of a server's exchange in which nothing blocks and nothing
/// fails.
pub open spec fn server_course() -> Seq<Event> {
    seq![
        Event::Started,
        Event::Connected,
        Event::Ready,
        Event::Transferred,
        Event::Processed,
        Event::Ready,
        Event::Transferred,
    ]
}

/// An exchange in which nothing blocks and nothing fails ends in `Done`, on
/// either side.
pub proof fn lemma_plain_course_completes()
    ensures
        run(Role::Client, Phase::Idle, client_course()) == Phase::Done,
        run(Role::Server, Phase::Idle, server_course()) == Phase::Done,
{
    reveal_with_fuel(run, 8);
}

} // verus!
