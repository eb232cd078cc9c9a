//! The connection manager: the reconnection state machine around the
//! socket, and the bounded queue of outgoing events. The socket itself is
//! driven outside the library, which reports what happened to it and
//! performs the actions handed back.

use vstd::prelude::*;
use crate::chat::ChatState;
use crate::event::{ClientEvent, ServerEvent};
use crate::store::applied;
use crate::validator::ValidationError;

verus! {

/// Transport failures tolerated without an open connection in between;
/// reaching it ends the session.
pub const RECONNECT_LIMIT: u8 = 3;

/// Outgoing events that may wait for the transport.
pub const OUTBOUND_CAPACITY: usize = 256;

#[derive(Clone, Copy, Debug, PartialEq, Eq, Structural)]
pub enum ConnState {
    Disconnected,
    Connecting,
    Open,
    Closing,
}

/// What happened to the transport, or what was asked of the manager.
#[derive(Clone, Copy, Debug, PartialEq, Eq, Structural)]
pub enum ConnEvent {
    /// Start, or a scheduled reconnect.
    Connect,
    /// The transport reports that it is ready.
    Opened,
    /// The connection could not be made, or dropped abnormally.
    TransportError,
    /// The server sent a `Close` event: the session cannot heal itself.
    ServerClose,
    /// Teardown, as on logout.
    Shutdown,
    /// The transport finished closing.
    Closed,
}

/// What the surrounding code must do next.
#[derive(Clone, Copy, Debug, PartialEq, Eq, Structural)]
pub enum ConnAction {
    Nothing,
    /// Open a new transport.
    OpenTransport,
    /// Send the `Initialization` request that primes the server session.
    SendInitialization,
    /// Wait, then report `Connect` again.
    ScheduleReconnect,
    /// Give up: force logout / credential expiry.
    ForceLogout,
    /// Close and drop the transport.
    CloseTransport,
}

/// The lifecycle of the link: its state, the failures counted since it was
/// last open, and whether the manager gave up.
#[derive(Clone, Copy, Debug, PartialEq, Eq, Structural)]
pub struct Link {
    pub state: ConnState,
    pub attempts: u8,
    pub gave_up: bool,
}

impl Link {
    /// A manager that has given up is disconnected; otherwise fewer
    /// failures than the limit have been counted.
    pub open spec fn wf(&self) -> bool {
        &&& self.attempts <= RECONNECT_LIMIT
        &&& !self.gave_up ==> self.attempts < RECONNECT_LIMIT
        &&& self.gave_up ==> self.state == ConnState::Disconnected
    }
}

/// The next link and the action for one event.
pub open spec fn spec_step(s: Link, e: ConnEvent) -> (Link, ConnAction) {
    if s.gave_up {
        (s, ConnAction::Nothing)
    } else {
        match e {
            ConnEvent::Connect => if s.state == ConnState::Disconnected {
                (Link { state: ConnState::Connecting, ..s }, ConnAction::OpenTransport)
            } else {
                (s, ConnAction::Nothing)
            },
            ConnEvent::Opened => if s.state == ConnState::Connecting {
                (Link { state: ConnState::Open, attempts: 0, gave_up: false }, ConnAction::SendInitialization)
            } else {
                (s, ConnAction::Nothing)
            },
            ConnEvent::TransportError => if s.state == ConnState::Closing {
                (s, ConnAction::Nothing)
            } else if s.attempts + 1 >= RECONNECT_LIMIT {
                (
                    Link { state: ConnState::Disconnected, attempts: (s.attempts + 1) as u8, gave_up: true },
                    ConnAction::ForceLogout,
                )
            } else {
                (
                    Link { state: ConnState::Disconnected, attempts: (s.attempts + 1) as u8, gave_up: false },
                    ConnAction::ScheduleReconnect,
                )
            },
            ConnEvent::ServerClose => (
                Link { state: ConnState::Disconnected, attempts: s.attempts, gave_up: true },
                ConnAction::ForceLogout,
            ),
            ConnEvent::Shutdown => if s.state == ConnState::Disconnected {
                (s, ConnAction::Nothing)
            } else {
                (Link { state: ConnState::Closing, ..s }, ConnAction::CloseTransport)
            },
            ConnEvent::Closed => if s.state == ConnState::Closing {
                (Link { state: ConnState::Disconnected, ..s }, ConnAction::Nothing)
            } else {
                (s, ConnAction::Nothing)
            },
        }
    }
}

impl Link {
    /// A fresh link: disconnected, nothing counted.
    pub fn new() -> (r: Link)
        ensures
            r.state == ConnState::Disconnected,
            r.attempts == 0,
            !r.gave_up,
            r.wf(),
    {
        Link { state: ConnState::Disconnected, attempts: 0, gave_up: false }
    }

    /// Decide the next link and action for one event. `Connect` is a no-op
    /// unless disconnected; each transport failure counts, and the one that
    /// reaches the limit gives up; a server `Close` gives up at once.
    pub fn step(&self, e: ConnEvent) -> (r: (Link, ConnAction))
        requires
            self.wf(),
        ensures
            r == spec_step(*self, e),
            r.0.wf(),
    {
        if self.gave_up {
            return (*self, ConnAction::Nothing);
        }
        match e {
            ConnEvent::Connect => if self.state == ConnState::Disconnected {
                (Link { state: ConnState::Connecting, ..*self }, ConnAction::OpenTransport)
            } else {
                (*self, ConnAction::Nothing)
            },
            ConnEvent::Opened => if self.state == ConnState::Connecting {
                (Link { state: ConnState::Open, attempts: 0, gave_up: false }, ConnAction::SendInitialization)
            } else {
                (*self, ConnAction::Nothing)
            },
            ConnEvent::TransportError => if self.state == ConnState::Closing {
                (*self, ConnAction::Nothing)
            } else if self.attempts + 1 >= RECONNECT_LIMIT {
                (
                    Link { state: ConnState::Disconnected, attempts: self.attempts + 1, gave_up: true },
                    ConnAction::ForceLogout,
                )
            } else {
                (
                    Link { state: ConnState::Disconnected, attempts: self.attempts + 1, gave_up: false },
                    ConnAction::ScheduleReconnect,
                )
            },
            ConnEvent::ServerClose => (
                Link { state: ConnState::Disconnected, attempts: self.attempts, gave_up: true },
                ConnAction::ForceLogout,
            ),
            ConnEvent::Shutdown => if self.state == ConnState::Disconnected {
                (*self, ConnAction::Nothing)
            } else {
                (Link { state: ConnState::Closing, ..*self }, ConnAction::CloseTransport)
            },
            ConnEvent::Closed => if self.state == ConnState::Closing {
                (Link { state: ConnState::Disconnected, ..*self }, ConnAction::Nothing)
            } else {
                (*self, ConnAction::Nothing)
            },
        }
    }
}

/// Why an outgoing event was not queued.
pub enum SendError {
    /// The payload breaks a field rule; it must never be transmitted.
    Invalid(ValidationError),
    /// No transport is open.
    NoTransport,
    /// The queue is full.
    Full,
}

/// The link and the events queued for the transport.
pub struct ConnectionManager {
    pub link: Link,
    pub outbound: Vec<ClientEvent>,
}

impl ConnectionManager {
    pub open spec fn wf(&self) -> bool {
        &&& self.link.wf()
        &&& self.outbound@.len() <= OUTBOUND_CAPACITY
        &&& self.link.state != ConnState::Open ==> self.outbound@.len() == 0
    }

    pub fn new() -> (r: ConnectionManager)
        ensures
            r.wf(),
            r.link.state == ConnState::Disconnected,
            r.link.attempts == 0,
            !r.link.gave_up,
            r.outbound@.len() == 0,
    {
        ConnectionManager { link: Link::new(), outbound: Vec::new() }
    }

    /// Report an event; returns the action to perform. Whenever the link
    /// stops being open, events still queued are discarded.
    pub fn handle(&mut self, e: ConnEvent) -> (r: ConnAction)
        requires
            old(self).wf(),
        ensures
            final(self).wf(),
            (final(self).link, r) == spec_step(old(self).link, e),
            final(self).link.state == ConnState::Open ==> final(self).outbound@ == old(self).outbound@,
    {
        let (link, action) = self.link.step(e);
        self.link = link;
        if link.state != ConnState::Open {
            self.outbound.clear();
        }
        action
    }

    /// Start, or reconnect: a no-op when open or connecting.
    pub fn connect(&mut self) -> (r: ConnAction)
        requires
            old(self).wf(),
        ensures
            final(self).wf(),
            (final(self).link, r) == spec_step(old(self).link, ConnEvent::Connect),
            final(self).outbound@ == old(self).outbound@,
    {
        self.handle(ConnEvent::Connect)
    }

    /// Queue an event for the transport. It is refused when its payload
    /// breaks a field rule, when no transport is open, or when the queue is
    /// full; a refused event is dropped.
    pub fn send(&mut self, event: ClientEvent) -> (r: Result<(), SendError>)
        requires
            old(self).wf(),
        ensures
            final(self).wf(),
            final(self).link == old(self).link,
            r is Ok <==> (event.is_valid() && old(self).link.state == ConnState::Open && old(self).outbound@.len()
                < OUTBOUND_CAPACITY),
            r is Ok ==> final(self).outbound@ == old(self).outbound@.push(event),
            r is Err ==> final(self).outbound@ == old(self).outbound@,
            r matches Err(SendError::Invalid(_)) <==> !event.is_valid(),
            r matches Err(SendError::NoTransport) <==> (event.is_valid() && old(self).link.state != ConnState::Open),
            r matches Err(SendError::Full) <==> (event.is_valid() && old(self).link.state == ConnState::Open
                && old(self).outbound@.len() >= OUTBOUND_CAPACITY),
    {
        if let Err(e) = event.validate() {
            return Err(SendError::Invalid(e));
        }
        if self.link.state != ConnState::Open {
            return Err(SendError::NoTransport);
        }
        if self.outbound.len() >= OUTBOUND_CAPACITY {
            return Err(SendError::Full);
        }
        self.outbound.push(event);
        Ok(())
    }

    /// Hand the queued events to the transport, oldest first.
    pub fn take_outbound(&mut self) -> (r: Vec<ClientEvent>)
        requires
            old(self).wf(),
        ensures
            final(self).wf(),
            r@ == old(self).outbound@,
            final(self).outbound@.len() == 0,
            final(self).link == old(self).link,
    {
        let mut taken: Vec<ClientEvent> = Vec::new();
        std::mem::swap(&mut self.outbound, &mut taken);
        taken
    }
}

/// Apply one decoded server event to the store. A `Close` event leaves the
/// store as it is and ends the session at once: the manager gives up and
/// asks for logout.
pub fn on_server_event(chat: &mut ChatState, conn: &mut ConnectionManager, event: ServerEvent) -> (r: ConnAction)
    requires
        old(conn).wf(),
    ensures
        final(conn).wf(),
        exists|res: Result<(), String>|
            #[trigger] applied(old(chat).inner, final(chat).inner, old(chat).trigger, final(chat).trigger, event, res),
        event is Close ==> (final(conn).link, r) == spec_step(old(conn).link, ConnEvent::ServerClose),
        !(event is Close) ==> r == ConnAction::Nothing && final(conn).link == old(conn).link && final(conn).outbound@
            == old(conn).outbound@,
{
    match chat.handle_event(event) {
        Ok(()) => ConnAction::Nothing,
        Err(_) => conn.handle(ConnEvent::ServerClose),
    }
}

// ---------------- Runs of events ---------------- //

/// The link after a run of events.
pub open spec fn run_link(s: Link, evs: Seq<ConnEvent>) -> Link
    decreases evs.len(),
{
    if evs.len() == 0 {
        s
    } else {
        run_link(spec_step(s, evs[0]).0, evs.subrange(1, evs.len() as int))
    }
}

/// The actions of a run of events, in order.
pub open spec fn run_actions(s: Link, evs: Seq<ConnEvent>) -> Seq<ConnAction>
    decreases evs.len(),
{
    if evs.len() == 0 {
        Seq::empty()
    } else {
        seq![spec_step(s, evs[0]).1] + run_actions(spec_step(s, evs[0]).0, evs.subrange(1, evs.len() as int))
    }
}

/// How many times `a` occurs in `s`.
pub open spec fn occurrences(s: Seq<ConnAction>, a: ConnAction) -> nat
    decreases s.len(),
{
    if s.len() == 0 {
        0
    } else {
        (if s[0] == a { 1nat } else { 0nat }) + occurrences(s.subrange(1, s.len() as int), a)
    }
}

/// How many transport errors a run reports.
pub open spec fn errors_in(evs: Seq<ConnEvent>) -> nat
    decreases evs.len(),
{
    if evs.len() == 0 {
        0
    } else {
        (if evs[0] == ConnEvent::TransportError { 1nat } else { 0nat }) + errors_in(evs.subrange(1, evs.len() as int))
    }
}

/// A manager that gave up stays as it is: it neither asks for logout again
/// nor opens a transport, whatever is reported.
pub proof fn lemma_given_up_is_final(s: Link, evs: Seq<ConnEvent>)
    requires
        s.gave_up,
    ensures
        run_link(s, evs) == s,
        occurrences(run_actions(s, evs), ConnAction::ForceLogout) == 0,
        occurrences(run_actions(s, evs), ConnAction::OpenTransport) == 0,
    decreases evs.len(),
{
    if evs.len() > 0 {
        let rest = evs.subrange(1, evs.len() as int);
        lemma_given_up_is_final(s, rest);
        let acts = run_actions(s, evs);
        assert(acts.subrange(1, acts.len() as int) =~= run_actions(s, rest));
    }
}

proof fn lemma_failures_counted(s: Link, evs: Seq<ConnEvent>)
    requires
        s.wf(),
        !s.gave_up,
        s.state != ConnState::Closing,
        forall|i: int| 0 <= i < evs.len() ==> (#[trigger] evs[i] == ConnEvent::Connect || evs[i] == ConnEvent::TransportError),
    ensures
        s.attempts + errors_in(evs) < RECONNECT_LIMIT ==> {
            &&& !run_link(s, evs).gave_up
            &&& occurrences(run_actions(s, evs), ConnAction::ForceLogout) == 0
        },
        s.attempts + errors_in(evs) >= RECONNECT_LIMIT ==> {
            &&& run_link(s, evs).gave_up
            &&& occurrences(run_actions(s, evs), ConnAction::ForceLogout) == 1
        },
    decreases evs.len(),
{
    if evs.len() > 0 {
        let (s1, a1) = spec_step(s, evs[0]);
        let rest = evs.subrange(1, evs.len() as int);
        assert forall|i: int| 0 <= i < rest.len() implies (#[trigger] rest[i] == ConnEvent::Connect || rest[i]
            == ConnEvent::TransportError) by {
            assert(rest[i] == evs[i + 1]);
        }
        let acts = run_actions(s, evs);
        assert(acts.subrange(1, acts.len() as int) =~= run_actions(s1, rest));
        assert(acts[0] == a1);
        if s1.gave_up {
            lemma_given_up_is_final(s1, rest);
        } else {
            lemma_failures_counted(s1, rest);
        }
    }
}

/// After `RECONNECT_LIMIT` transport failures with no open connection in
/// between (only reconnect attempts), the manager asks for logout exactly
/// once and never opens a transport again.
pub proof fn lemma_reconnect_bound(s: Link, evs: Seq<ConnEvent>, later: Seq<ConnEvent>)
    requires
        s.wf(),
        s.attempts == 0,
        !s.gave_up,
        s.state != ConnState::Closing,
        forall|i: int| 0 <= i < evs.len() ==> (#[trigger] evs[i] == ConnEvent::Connect || evs[i] == ConnEvent::TransportError),
        errors_in(evs) == RECONNECT_LIMIT,
    ensures
        occurrences(run_actions(s, evs), ConnAction::ForceLogout) == 1,
        run_link(s, evs).gave_up,
        occurrences(run_actions(run_link(s, evs), later), ConnAction::OpenTransport) == 0,
        occurrences(run_actions(run_link(s, evs), later), ConnAction::ForceLogout) == 0,
{
    lemma_failures_counted(s, evs);
    lemma_given_up_is_final(run_link(s, evs), later);
}

} // verus!
