//! The per-connection state machine. The driver performs the action it is
//! handed and reports what came of it; `step` decides what happens next.

use vstd::prelude::*;
use crate::redirect::MOVED_PERMANENTLY;

verus! {

/// The status relayed when the upstream cannot be reached or drops out.
pub const BAD_GATEWAY: u16 = 502;

/// The status relayed when the request could not be rewritten.
pub const INTERNAL_ERROR: u16 = 500;

/// Where a connection stands.
#[derive(Clone, Copy, Debug, PartialEq, Eq, Structural)]
pub enum Phase {
    Accepted,
    Handshaking,
    ParsingRequest,
    Filtering,
    ShortCircuit,
    Rewriting,
    Forwarding,
    RelayingResponse,
    Logged,
    Closed,
    Errored,
}

/// What can go wrong on a connection.
#[derive(Clone, Copy, Debug, PartialEq, Eq, Structural)]
pub enum Failure {
    HandshakeFailure,
    MalformedRequest,
    StreamClosed,
    UpstreamUnreachable,
    UpstreamReset,
    HeaderRewriteFailure,
}

/// What the driver reports.
#[derive(Clone, Copy, Debug, PartialEq, Eq, Structural)]
pub enum Event {
    /// A connection was accepted.
    Connected,
    /// The handshake succeeded.
    Secured,
    /// A request was read in full.
    Parsed,
    /// The redirect responder answered the request.
    Matched,
    /// The redirect responder left the request alone.
    Declined,
    /// There was nothing to wait for.
    Proceed,
    /// The request's headers were rewritten.
    Rewritten,
    /// The upstream answered with this status.
    Responded(u16),
    /// The response was written to the client in full.
    Relayed,
    /// The access record was written; the flag tells whether the client's
    /// connection can carry another request.
    Recorded { keep_alive: bool },
    /// The work in hand failed.
    Failed(Failure),
}

/// What the driver is to do next.
#[derive(Clone, Copy, Debug, PartialEq, Eq, Structural)]
pub enum Action {
    /// Perform the handshake.
    Handshake,
    /// Read and parse the next request.
    ReadRequest,
    /// Ask the redirect responder.
    Filter,
    /// Nothing: report `Proceed`.
    Skip,
    /// Rewrite the request's headers.
    Rewrite,
    /// Send the request upstream and read the response.
    Forward,
    /// Write the response with this status to the client.
    Relay(u16),
    /// Write the access record with this status.
    Record(u16),
    /// Give up what the failed work held, then report `Proceed`.
    Abandon,
    /// Note the failed handshake and drop the connection.
    Reject,
    /// Drop the connection.
    Close,
}

/// The state of one connection.
#[derive(Clone, Copy, Debug, PartialEq, Eq, Structural)]
pub struct State {
    /// Where the connection stands.
    pub phase: Phase,
    /// The status of the response to the request in hand; 0 while there is
    /// none.
    pub status: u16,
    /// Whether the connection must close once the request in hand is done.
    pub fatal: bool,
}

impl State {
    /// What holds of every state that the machine reaches: a connection is
    /// marked as lost only once the request in hand has failed, and a status
    /// is known only once a response has been decided on.
    pub open spec fn wf(self) -> bool {
        &&& self.fatal ==> self.phase is Errored || self.phase is Logged || self.phase is Closed
        &&& self.phase is Accepted || self.phase is Handshaking || self.phase is ParsingRequest
            || self.phase is Filtering || self.phase is Rewriting || self.phase is Forwarding
            ==> self.status == 0
        &&& self.phase is ShortCircuit ==> self.status == MOVED_PERMANENTLY
    }
}

/// The state after work failed for a reason that the phase did not expect:
/// the connection is lost, the request in hand is recorded and no more.
pub open spec fn lost(state: State) -> (State, Action) {
    (State { phase: Phase::Errored, status: state.status, fatal: true }, Action::Abandon)
}

/// The transition table.
pub open spec fn transition(state: State, event: Event) -> (State, Action) {
    match state.phase {
        Phase::Accepted => match event {
            Event::Connected => (State { phase: Phase::Handshaking, ..state }, Action::Handshake),
            _ => (State { phase: Phase::Closed, ..state }, Action::Close),
        },
        Phase::Handshaking => match event {
            Event::Secured => (
                State { phase: Phase::ParsingRequest, status: 0, fatal: false },
                Action::ReadRequest,
            ),
            _ => (State { phase: Phase::Closed, ..state }, Action::Reject),
        },
        Phase::ParsingRequest => match event {
            Event::Parsed => (State { phase: Phase::Filtering, ..state }, Action::Filter),
            _ => lost(state),
        },
        Phase::Filtering => match event {
            Event::Matched => (
                State { phase: Phase::ShortCircuit, status: MOVED_PERMANENTLY, ..state },
                Action::Skip,
            ),
            Event::Declined => (State { phase: Phase::Rewriting, ..state }, Action::Rewrite),
            Event::Failed(Failure::HeaderRewriteFailure) => (
                State { phase: Phase::Errored, status: INTERNAL_ERROR, ..state },
                Action::Abandon,
            ),
            _ => lost(state),
        },
        Phase::ShortCircuit => match event {
            Event::Proceed => (
                State { phase: Phase::RelayingResponse, ..state },
                Action::Relay(state.status),
            ),
            _ => lost(state),
        },
        Phase::Rewriting => match event {
            Event::Rewritten => (State { phase: Phase::Forwarding, ..state }, Action::Forward),
            Event::Failed(Failure::HeaderRewriteFailure) => (
                State { phase: Phase::Errored, status: INTERNAL_ERROR, ..state },
                Action::Abandon,
            ),
            _ => lost(state),
        },
        Phase::Forwarding => match event {
            Event::Responded(status) => (
                State { phase: Phase::RelayingResponse, status, ..state },
                Action::Relay(status),
            ),
            Event::Failed(Failure::UpstreamUnreachable) | Event::Failed(Failure::UpstreamReset) => (
                State { phase: Phase::Errored, status: BAD_GATEWAY, ..state },
                Action::Abandon,
            ),
            _ => lost(state),
        },
        Phase::RelayingResponse => match event {
            Event::Relayed => (State { phase: Phase::Logged, ..state }, Action::Record(state.status)),
            _ => lost(state),
        },
        Phase::Errored => if state.fatal {
            (State { phase: Phase::Logged, ..state }, Action::Record(state.status))
        } else {
            (State { phase: Phase::RelayingResponse, ..state }, Action::Relay(state.status))
        },
        Phase::Logged => match event {
            Event::Recorded { keep_alive } if keep_alive && !state.fatal => (
                State { phase: Phase::ParsingRequest, status: 0, fatal: false },
                Action::ReadRequest,
            ),
            _ => (State { phase: Phase::Closed, ..state }, Action::Close),
        },
        Phase::Closed => (state, Action::Close),
    }
}

impl State {
    /// The state of a connection that was just accepted.
    pub fn new() -> (state: State)
        ensures
            state == (State { phase: Phase::Accepted, status: 0, fatal: false }),
            state.wf(),
    {
        State { phase: Phase::Accepted, status: 0, fatal: false }
    }

    /// This state in another phase.
    fn at(self, phase: Phase) -> (state: State)
        ensures
            state == (State { phase, ..self }),
    {
        State { phase, status: self.status, fatal: self.fatal }
    }

    /// This state in another phase, with another status.
    fn answering(self, phase: Phase, status: u16) -> (state: State)
        ensures
            state == (State { phase, status, ..self }),
    {
        State { phase, status, fatal: self.fatal }
    }

    /// The state of a connection that is ready for a request.
    fn fresh() -> (state: State)
        ensures
            state == (State { phase: Phase::ParsingRequest, status: 0, fatal: false }),
    {
        State { phase: Phase::ParsingRequest, status: 0, fatal: false }
    }

    /// The state after the connection was lost.
    fn lose(self) -> (out: (State, Action))
        ensures
            out == lost(self),
    {
        (State { phase: Phase::Errored, status: self.status, fatal: true }, Action::Abandon)
    }
}

/// Takes the connection one step on: the state after `event`, and what the
/// driver is to do next. An event that the phase does not expect loses the
/// connection; a closed connection stays closed.
pub fn step(state: State, event: Event) -> (out: (State, Action))
    ensures
        out == transition(state, event),
        state.wf() ==> out.0.wf(),
{
    match state.phase {
        Phase::Accepted => match event {
            Event::Connected => (state.at(Phase::Handshaking), Action::Handshake),
            _ => (state.at(Phase::Closed), Action::Close),
        },
        Phase::Handshaking => match event {
            Event::Secured => (State::fresh(), Action::ReadRequest),
            _ => (state.at(Phase::Closed), Action::Reject),
        },
        Phase::ParsingRequest => match event {
            Event::Parsed => (state.at(Phase::Filtering), Action::Filter),
            _ => state.lose(),
        },
        Phase::Filtering => match event {
            Event::Matched => (state.answering(Phase::ShortCircuit, MOVED_PERMANENTLY), Action::Skip),
            Event::Declined => (state.at(Phase::Rewriting), Action::Rewrite),
            Event::Failed(Failure::HeaderRewriteFailure) => (
                state.answering(Phase::Errored, INTERNAL_ERROR),
                Action::Abandon,
            ),
            _ => state.lose(),
        },
        Phase::ShortCircuit => match event {
            Event::Proceed => (state.at(Phase::RelayingResponse), Action::Relay(state.status)),
            _ => state.lose(),
        },
        Phase::Rewriting => match event {
            Event::Rewritten => (state.at(Phase::Forwarding), Action::Forward),
            Event::Failed(Failure::HeaderRewriteFailure) => (
                state.answering(Phase::Errored, INTERNAL_ERROR),
                Action::Abandon,
            ),
            _ => state.lose(),
        },
        Phase::Forwarding => match event {
            Event::Responded(status) => (
                state.answering(Phase::RelayingResponse, status),
                Action::Relay(status),
            ),
            Event::Failed(Failure::UpstreamUnreachable) => (
                state.answering(Phase::Errored, BAD_GATEWAY),
                Action::Abandon,
            ),
            Event::Failed(Failure::UpstreamReset) => (
                state.answering(Phase::Errored, BAD_GATEWAY),
                Action::Abandon,
            ),
            _ => state.lose(),
        },
        Phase::RelayingResponse => match event {
            Event::Relayed => (state.at(Phase::Logged), Action::Record(state.status)),
            _ => state.lose(),
        },
        Phase::Errored => {
            if state.fatal {
                (state.at(Phase::Logged), Action::Record(state.status))
            } else {
                (state.at(Phase::RelayingResponse), Action::Relay(state.status))
            }
        },
        Phase::Logged => match event {
            Event::Recorded { keep_alive } => {
                if keep_alive && !state.fatal {
                    (State::fresh(), Action::ReadRequest)
                } else {
                    (state.at(Phase::Closed), Action::Close)
                }
            },
            _ => (state.at(Phase::Closed), Action::Close),
        },
        Phase::Closed => (state, Action::Close),
    }
}

/// Whether a phase is one in which no request is in hand: the connection
/// waits for the next one, or is closed.
pub open spec fn idle(phase: Phase) -> bool {
    phase is ParsingRequest || phase is Closed
}

/// The actions that `events` draw from the machine, up to and with the step
/// after which no request is in hand.
pub open spec fn actions(state: State, events: Seq<Event>) -> Seq<Action>
    decreases events.len(),
{
    if events.len() == 0 {
        Seq::empty()
    } else {
        let (next, action) = transition(state, events[0]);
        if idle(next.phase) {
            seq![action]
        } else {
            seq![action] + actions(next, events.drop_first())
        }
    }
}

/// Whether `events` take the request in hand to its end.
pub open spec fn completes(state: State, events: Seq<Event>) -> bool
    decreases events.len(),
{
    if events.len() == 0 {
        false
    } else {
        let next = transition(state, events[0]).0;
        idle(next.phase) || completes(next, events.drop_first())
    }
}

/// How many of the actions write a response.
pub open spec fn relays(actions: Seq<Action>) -> nat
    decreases actions.len(),
{
    if actions.len() == 0 {
        0
    } else {
        relays(actions.drop_first()) + if actions[0] is Relay {
            1nat
        } else {
            0nat
        }
    }
}

/// How many of the actions write an access record.
pub open spec fn records(actions: Seq<Action>) -> nat
    decreases actions.len(),
{
    if actions.len() == 0 {
        0
    } else {
        records(actions.drop_first()) + if actions[0] is Record {
            1nat
        } else {
            0nat
        }
    }
}

/// Whether a request is in hand that has not been forwarded and will not be:
/// it was answered without the upstream, or is past its response.
pub open spec fn past_upstream(state: State) -> bool {
    state.phase is ShortCircuit || state.phase is RelayingResponse || state.phase is Logged
        || state.phase is Errored
}

/// How many responses the request in hand may still get.
pub open spec fn relays_owed(state: State) -> nat {
    if state.phase is RelayingResponse || state.phase is Logged || state.phase is Closed
        || state.phase is Accepted || state.phase is Handshaking || (state.phase is Errored
        && state.fatal) {
        0
    } else {
        1
    }
}

/// How many access records the request in hand still gets.
pub open spec fn records_owed(state: State) -> nat {
    if state.phase is Logged || state.phase is Closed || state.phase is Accepted
        || state.phase is Handshaking {
        0
    } else {
        1
    }
}

/// Every step keeps the state well-formed.
pub proof fn law_step_keeps_wf(state: State, event: Event)
    requires
        state.wf(),
    ensures
        transition(state, event).0.wf(),
{
}

proof fn lemma_drop_first_of_cons(action: Action, rest: Seq<Action>)
    ensures
        (seq![action] + rest).drop_first() == rest,
        (seq![action] + rest)[0] == action,
        seq![action].drop_first() == Seq::<Action>::empty(),
{
}

/// A request that was answered without the upstream is never forwarded,
/// whatever happens on the connection before the request is done.
pub proof fn law_no_upstream_after_short_circuit(state: State, events: Seq<Event>)
    requires
        past_upstream(state),
    ensures
        !actions(state, events).contains(Action::Forward),
    decreases events.len(),
{
    if events.len() > 0 {
        let (next, action) = transition(state, events[0]);
        assert(action != Action::Forward);
        if idle(next.phase) {
            assert(actions(state, events) == seq![action]);
        } else {
            law_no_upstream_after_short_circuit(next, events.drop_first());
            let rest = actions(next, events.drop_first());
            assert(actions(state, events) == seq![action] + rest);
            assert forall|i: int| 0 <= i < actions(state, events).len() implies actions(
                state,
                events,
            )[i] != Action::Forward by {
                if i > 0 {
                    assert(actions(state, events)[i] == rest[i - 1]);
                    assert(rest.contains(rest[i - 1]));
                }
            }
        }
    }
}

/// A request whose path is redirected never reaches the upstream: once the
/// responder has matched, no later step asks to forward.
pub proof fn law_redirect_skips_upstream(state: State, events: Seq<Event>)
    requires
        state.phase is Filtering,
    ensures
        transition(state, Event::Matched).0.status == MOVED_PERMANENTLY,
        transition(state, Event::Matched).1 != Action::Forward,
        !actions(transition(state, Event::Matched).0, events).contains(Action::Forward),
{
    law_no_upstream_after_short_circuit(transition(state, Event::Matched).0, events);
}

/// At most one response is written for a request, on every path.
pub proof fn law_one_response(state: State, events: Seq<Event>)
    ensures
        relays(actions(state, events)) <= relays_owed(state),
    decreases events.len(),
{
    if events.len() > 0 {
        let (next, action) = transition(state, events[0]);
        if idle(next.phase) {
            assert(actions(state, events) == seq![action]);
            lemma_drop_first_of_cons(action, Seq::empty());
            assert(relays(seq![action].drop_first()) == 0);
        } else {
            law_one_response(next, events.drop_first());
            let rest = actions(next, events.drop_first());
            lemma_drop_first_of_cons(action, rest);
            assert(actions(state, events) == seq![action] + rest);
        }
    }
}

/// No request is recorded twice, and a request that is brought to its end
/// is recorded exactly once, on every path: success, redirect, upstream
/// failure, malformed request.
pub proof fn law_one_record(state: State, events: Seq<Event>)
    ensures
        records(actions(state, events)) <= records_owed(state),
        completes(state, events) ==> records(actions(state, events)) == records_owed(state),
    decreases events.len(),
{
    if events.len() > 0 {
        let (next, action) = transition(state, events[0]);
        if idle(next.phase) {
            assert(actions(state, events) == seq![action]);
            lemma_drop_first_of_cons(action, Seq::empty());
            assert(records(seq![action].drop_first()) == 0);
        } else {
            law_one_record(next, events.drop_first());
            let rest = actions(next, events.drop_first());
            lemma_drop_first_of_cons(action, rest);
            assert(actions(state, events) == seq![action] + rest);
        }
    }
}

/// The upstream's status reaches the client unchanged, and it is the status
/// that is recorded.
pub proof fn law_status_relayed(state: State, status: u16)
    requires
        state.phase is Forwarding,
    ensures
        transition(state, Event::Responded(status)).1 == Action::Relay(status),
        transition(transition(state, Event::Responded(status)).0, Event::Relayed).1
            == Action::Record(status),
{
}

/// A request that the redirect responder leaves alone is rewritten, then
/// forwarded, and answered with whatever status the upstream gives.
pub proof fn law_declined_request_is_proxied(state: State, status: u16)
    requires
        state.phase is Filtering,
    ensures
        ({
            let rewriting = transition(state, Event::Declined);
            let forwarding = transition(rewriting.0, Event::Rewritten);
            let relaying = transition(forwarding.0, Event::Responded(status));
            &&& rewriting.1 == Action::Rewrite
            &&& forwarding.1 == Action::Forward
            &&& relaying.1 == Action::Relay(status)
            &&& relaying.0.status == status
        }),
{
}

/// When the upstream cannot be reached or drops out, the client is still
/// answered, with a status from 500 to 599, and the request is recorded
/// with it.
pub proof fn law_upstream_failure_answered(state: State, failure: Failure, event: Event)
    requires
        state.wf(),
        state.phase is Forwarding,
        failure is UpstreamUnreachable || failure is UpstreamReset,
    ensures
        ({
            let failed = transition(state, Event::Failed(failure)).0;
            let answering = transition(failed, event);
            let done = transition(answering.0, Event::Relayed);
            &&& failed.phase is Errored
            &&& answering.1 == Action::Relay(BAD_GATEWAY)
            &&& 500 <= BAD_GATEWAY <= 599
            &&& done.1 == Action::Record(BAD_GATEWAY)
            &&& done.0.phase is Logged
        }),
{
}

/// A failed handshake ends the connection at once: nothing is written to
/// the client and no access record is made.
pub proof fn law_handshake_failure_closes(state: State, event: Event)
    requires
        state.phase is Handshaking,
        event != Event::Secured,
    ensures
        transition(state, event).0.phase is Closed,
        transition(state, event).1 == Action::Reject,
{
}

/// A closed connection stays closed.
pub proof fn law_closed_is_final(state: State, event: Event)
    requires
        state.phase is Closed,
    ensures
        transition(state, event).0 == state,
        transition(state, event).1 == Action::Close,
{
}

} // verus!
