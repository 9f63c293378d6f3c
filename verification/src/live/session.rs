//! The session that keeps the feed alive: a heartbeat loop and a receive
//! loop around one locked connection, a stop signal that ends both, and a
//! bounded queue between the receive loop and the consumer.
//!
//! The library decides; the program around it acts. Each loop is a small
//! machine that is told what happened and answers what to do next.

use vstd::prelude::*;
use vstd::string::*;

use crate::live::credential::Credential;
use crate::live::error::LiveError;
use crate::live::json::json_model;
use crate::live::message::RawMessage;

verus! {

/// The pause between two heartbeats, in milliseconds.
pub const HEARTBEAT_INTERVAL_MS: u64 = 20_000;

/// The pause between two attempts to receive, in milliseconds.
pub const RECEIVE_INTERVAL_MS: u64 = 50;

/// How many documents the inbound queue holds at most.
pub const QUEUE_CAPACITY: usize = 16;

/// The two loops of a session.
#[derive(Debug, Clone, Copy, PartialEq, Eq)]
pub enum LoopKind {
    Heartbeat,
    Receive,
}

/// Where a loop stands: what it waits to be told.
#[derive(Debug, Clone, Copy, PartialEq, Eq)]
pub enum LoopState {
    /// At the top of a round: waits for the stop signal to be read.
    Polling,
    /// Waits for the attempt to lock the connection.
    Locking,
    /// Holds the lock: waits for its one operation on the connection.
    Working,
    /// Waits for its pause to end.
    Resting,
    /// Has returned, cleanly or with a failure.
    Exited { failed: bool },
}

/// What a loop is told.
#[derive(Debug, Clone, Copy, PartialEq, Eq)]
pub enum LoopEvent {
    /// The stop signal was read, with this value.
    Stop(bool),
    /// The lock was tried; it was taken or it was not.
    Lock(bool),
    /// The operation on the connection is done and the lock released.
    Done,
    /// The pause is over.
    Woke,
}

/// What a loop does next.
#[derive(Debug, Clone, Copy, PartialEq, Eq)]
pub enum LoopAction {
    /// Read the stop signal.
    ReadStop,
    /// Try to lock the connection.
    TakeLock,
    /// Send one heartbeat, or try once to receive, then release the lock.
    Work,
    /// Pause for so many milliseconds.
    Sleep(u64),
    /// Return, with the failure that ended the loop if one did.
    Return(Option<LiveError>),
}

/// The pause of a loop.
pub open spec fn interval(kind: LoopKind) -> u64 {
    match kind {
        LoopKind::Heartbeat => HEARTBEAT_INTERVAL_MS,
        LoopKind::Receive => RECEIVE_INTERVAL_MS,
    }
}

/// Whether a loop in the given state waits for the given event.
pub open spec fn awaited(state: LoopState, event: LoopEvent) -> bool {
    match (state, event) {
        (LoopState::Polling, LoopEvent::Stop(_)) => true,
        (LoopState::Locking, LoopEvent::Lock(_)) => true,
        (LoopState::Working, LoopEvent::Done) => true,
        (LoopState::Resting, LoopEvent::Woke) => true,
        _ => false,
    }
}

/// What a loop does while it waits in a state.
pub open spec fn pending(kind: LoopKind, state: LoopState) -> LoopAction {
    match state {
        LoopState::Polling => LoopAction::ReadStop,
        LoopState::Locking => LoopAction::TakeLock,
        LoopState::Working => LoopAction::Work,
        LoopState::Resting => LoopAction::Sleep(interval(kind)),
        LoopState::Exited { failed } => LoopAction::Return(
            if failed {
                Some(LiveError::LockFailure)
            } else {
                None
            },
        ),
    }
}

/// The state of a loop after an event. A set stop signal ends the loop at
/// the top of a round and nowhere else. A lock that cannot be taken ends the
/// heartbeat loop with a failure, and costs the receive loop one round. An
/// event that the loop does not wait for changes nothing.
pub open spec fn next_state(kind: LoopKind, state: LoopState, event: LoopEvent) -> LoopState {
    match (state, event) {
        (LoopState::Polling, LoopEvent::Stop(true)) => LoopState::Exited { failed: false },
        (LoopState::Polling, LoopEvent::Stop(false)) => LoopState::Locking,
        (LoopState::Locking, LoopEvent::Lock(true)) => LoopState::Working,
        (LoopState::Locking, LoopEvent::Lock(false)) => match kind {
            LoopKind::Heartbeat => LoopState::Exited { failed: true },
            LoopKind::Receive => LoopState::Resting,
        },
        (LoopState::Working, LoopEvent::Done) => LoopState::Resting,
        (LoopState::Resting, LoopEvent::Woke) => LoopState::Polling,
        _ => state,
    }
}

/// The state of a loop after a run of events.
pub open spec fn state_after(kind: LoopKind, state: LoopState, events: Seq<LoopEvent>) -> LoopState
    decreases events.len(),
{
    if events.len() == 0 {
        state
    } else {
        state_after(kind, next_state(kind, state, events.first()), events.drop_first())
    }
}

/// How many pauses a loop begins during a run of events.
pub open spec fn pauses_begun(kind: LoopKind, state: LoopState, events: Seq<LoopEvent>) -> nat
    decreases events.len(),
{
    if events.len() == 0 {
        0
    } else {
        let next = next_state(kind, state, events.first());
        let begun: nat = if next is Resting && !(state is Resting) {
            1
        } else {
            0
        };
        begun + pauses_begun(kind, next, events.drop_first())
    }
}

/// Whether every reading of the stop signal in a run of events found it set.
pub open spec fn stop_is_set(events: Seq<LoopEvent>) -> bool {
    forall|i: int| 0 <= i < events.len() ==> events[i] != LoopEvent::Stop(false)
}

/// Whether each event of a run is the one that the loop waits for when it
/// comes; a loop that has returned waits for none.
pub open spec fn in_step(kind: LoopKind, state: LoopState, events: Seq<LoopEvent>) -> bool
    decreases events.len(),
{
    if events.len() == 0 {
        true
    } else {
        (state is Exited || awaited(state, events.first())) && in_step(
            kind,
            next_state(kind, state, events.first()),
            events.drop_first(),
        )
    }
}

/// Starts a loop: it stands at the top of its first round and reads the
/// stop signal.
pub fn start_loop() -> (r: (LoopState, LoopAction))
    ensures
        r.0 == LoopState::Polling,
        r.1 == LoopAction::ReadStop,
{
    (LoopState::Polling, LoopAction::ReadStop)
}

/// The pause of a loop.
pub fn interval_of(kind: LoopKind) -> (r: u64)
    ensures
        r == interval(kind),
{
    match kind {
        LoopKind::Heartbeat => HEARTBEAT_INTERVAL_MS,
        LoopKind::Receive => RECEIVE_INTERVAL_MS,
    }
}

/// Tells a loop what happened and learns what it does next.
pub fn step(kind: LoopKind, state: LoopState, event: LoopEvent) -> (r: (LoopState, LoopAction))
    ensures
        r.0 == next_state(kind, state, event),
        r.1 == pending(kind, r.0),
{
    let next = match (state, event) {
        (LoopState::Polling, LoopEvent::Stop(true)) => LoopState::Exited { failed: false },
        (LoopState::Polling, LoopEvent::Stop(false)) => LoopState::Locking,
        (LoopState::Locking, LoopEvent::Lock(true)) => LoopState::Working,
        (LoopState::Locking, LoopEvent::Lock(false)) => match kind {
            LoopKind::Heartbeat => LoopState::Exited { failed: true },
            LoopKind::Receive => LoopState::Resting,
        },
        (LoopState::Working, LoopEvent::Done) => LoopState::Resting,
        (LoopState::Resting, LoopEvent::Woke) => LoopState::Polling,
        _ => state,
    };
    let action = match next {
        LoopState::Polling => LoopAction::ReadStop,
        LoopState::Locking => LoopAction::TakeLock,
        LoopState::Working => LoopAction::Work,
        LoopState::Resting => LoopAction::Sleep(interval_of(kind)),
        LoopState::Exited { failed } => LoopAction::Return(
            if failed {
                Some(LiveError::LockFailure)
            } else {
                None
            },
        ),
    };
    (next, action)
}

/// The pauses that a loop may still begin once the stop signal is set: one
/// where it is past the top of a round, none where it stands there, rests
/// already or has returned.
pub open spec fn pauses_left(state: LoopState) -> nat {
    match state {
        LoopState::Locking => 1,
        LoopState::Working => 1,
        _ => 0,
    }
}

/// Once the stop signal is set, a loop begins at most one more pause, of its
/// own interval, whatever it is told, and none where it was at the top of a
/// round or resting when the signal was set.
pub proof fn lemma_one_pause_after_stop(kind: LoopKind, state: LoopState, events: Seq<LoopEvent>)
    requires
        stop_is_set(events),
    ensures
        pauses_begun(kind, state, events) <= pauses_left(state),
    decreases events.len(),
{
    if events.len() > 0 {
        let next = next_state(kind, state, events.first());
        assert(events[0] != LoopEvent::Stop(false));
        assert forall|i: int| 0 <= i < events.drop_first().len() implies events.drop_first()[i]
            != LoopEvent::Stop(false) by {
            assert(events.drop_first()[i] == events[i + 1]);
        }
        lemma_one_pause_after_stop(kind, next, events.drop_first());
    }
}

/// How many events a loop takes at most, once the stop signal is set, until
/// it has returned.
pub open spec fn events_until_return(state: LoopState) -> nat {
    match state {
        LoopState::Locking => 4,
        LoopState::Working => 3,
        LoopState::Resting => 2,
        LoopState::Polling => 1,
        LoopState::Exited { .. } => 0,
    }
}

/// Once the stop signal is set, a loop that is told what it waits for has
/// returned after four events at most: the end of its work, the end of one
/// pause and one reading of the signal, and fewer where it stands further on
/// in its round.
pub proof fn lemma_returns_after_stop(kind: LoopKind, state: LoopState, events: Seq<LoopEvent>)
    requires
        stop_is_set(events),
        in_step(kind, state, events),
        events.len() >= events_until_return(state),
    ensures
        state_after(kind, state, events) is Exited,
    decreases events.len(),
{
    if state is Exited {
        lemma_exited_stays(kind, state, events);
    } else {
        let next = next_state(kind, state, events.first());
        assert(events[0] != LoopEvent::Stop(false));
        assert forall|i: int| 0 <= i < events.drop_first().len() implies events.drop_first()[i]
            != LoopEvent::Stop(false) by {
            assert(events.drop_first()[i] == events[i + 1]);
        }
        lemma_returns_after_stop(kind, next, events.drop_first());
    }
}

/// A loop that has returned stays so.
pub proof fn lemma_exited_stays(kind: LoopKind, state: LoopState, events: Seq<LoopEvent>)
    requires
        state is Exited,
    ensures
        state_after(kind, state, events) == state,
    decreases events.len(),
{
    if events.len() > 0 {
        lemma_exited_stays(kind, state, events.drop_first());
    }
}

/// Whether the inbound queue takes one more document when it holds
/// `queued` of them. A document that arrives at a full queue is dropped: the
/// receive loop never waits for the consumer.
pub fn admits(queued: usize) -> (r: bool)
    ensures
        r == (queued < QUEUE_CAPACITY),
{
    queued < QUEUE_CAPACITY
}

/// What the transport hands over: a raw document, or something that is not
/// an event.
#[derive(Debug)]
pub enum Inbound {
    Raw(serde_json::Value),
    Other,
}

/// What the program does for a session when the library says so.
#[derive(Debug, Clone, Copy, PartialEq, Eq)]
pub enum SessionAction {
    /// Sign in through the connection, and wait until that is done.
    SendAuth,
    /// Start one of the two loops.
    StartLoop(LoopKind),
}

/// What connecting an idle session takes, in this order: the loops start
/// only when the session has signed in.
pub open spec fn connect_actions() -> Seq<SessionAction> {
    seq![
        SessionAction::SendAuth,
        SessionAction::StartLoop(LoopKind::Heartbeat),
        SessionAction::StartLoop(LoopKind::Receive),
    ]
}

/// Where a session stands.
#[derive(Debug, Clone, Copy, PartialEq, Eq)]
pub enum SessionState {
    /// Made, not yet connected.
    Idle,
    /// Signed in; the loops run.
    Connected,
    /// The stop signal is set; a loop may still be on its way out.
    ShuttingDown,
    /// Both loops have returned.
    Stopped,
}

/// What a session holds.
pub struct SessionView {
    pub room: Seq<char>,
    pub cookie: Seq<char>,
    pub connected: bool,
    pub stop: bool,
    pub heartbeat_returned: bool,
    pub receive_returned: bool,
}

impl SessionView {
    /// Where the session stands.
    pub open spec fn state(self) -> SessionState {
        if !self.connected {
            SessionState::Idle
        } else if self.heartbeat_returned && self.receive_returned {
            SessionState::Stopped
        } else if self.stop {
            SessionState::ShuttingDown
        } else {
            SessionState::Connected
        }
    }

    /// The session after `connect`: an idle session is connected, every
    /// other is as it was.
    pub open spec fn connect(self) -> SessionView {
        SessionView { connected: true, ..self }
    }

    /// The session after `close`: the stop signal is set, nothing else
    /// changes.
    pub open spec fn close(self) -> SessionView {
        SessionView { stop: true, ..self }
    }

    /// The session after one of its loops has returned. Before the session
    /// is connected there is no loop, and nothing changes.
    pub open spec fn loop_returned(self, kind: LoopKind) -> SessionView {
        if !self.connected {
            self
        } else {
            match kind {
                LoopKind::Heartbeat => SessionView { heartbeat_returned: true, ..self },
                LoopKind::Receive => SessionView { receive_returned: true, ..self },
            }
        }
    }
}

/// One session: the room, the credential as the transport sends it, and how
/// far the session has come.
#[derive(Debug)]
pub struct LiveClient {
    room_id: String,
    cookie: String,
    connected: bool,
    stop: bool,
    heartbeat_returned: bool,
    receive_returned: bool,
}

impl View for LiveClient {
    type V = SessionView;

    closed spec fn view(&self) -> SessionView {
        SessionView {
            room: self.room_id@,
            cookie: self.cookie@,
            connected: self.connected,
            stop: self.stop,
            heartbeat_returned: self.heartbeat_returned,
            receive_returned: self.receive_returned,
        }
    }
}

impl LiveClient {
    /// Whether a room and a credential can open a session: neither is empty.
    pub fn accepts(room_id: &str, credential: &Credential) -> (r: bool)
        ensures
            r == (room_id@.len() > 0 && credential@.len() > 0),
    {
        !room_id.is_empty() && !credential.is_empty()
    }

    /// Makes an idle session for a room.
    pub fn new(room_id: &str, credential: &Credential) -> (r: Self)
        ensures
            r@ == (SessionView {
                room: room_id@,
                cookie: Credential::cookie(credential@),
                connected: false,
                stop: false,
                heartbeat_returned: false,
                receive_returned: false,
            }),
    {
        LiveClient {
            room_id: String::from_str(room_id),
            cookie: credential.to_text(),
            connected: false,
            stop: false,
            heartbeat_returned: false,
            receive_returned: false,
        }
    }

    /// The room of the session.
    pub fn room_id(&self) -> (r: &str)
        ensures
            r@ == self@.room,
    {
        self.room_id.as_str()
    }

    /// The credential as the transport sends it.
    pub fn cookie(&self) -> (r: &str)
        ensures
            r@ == self@.cookie,
    {
        self.cookie.as_str()
    }

    /// Where the session stands.
    pub fn state(&self) -> (r: SessionState)
        ensures
            r == self@.state(),
    {
        if !self.connected {
            SessionState::Idle
        } else if self.heartbeat_returned && self.receive_returned {
            SessionState::Stopped
        } else if self.stop {
            SessionState::ShuttingDown
        } else {
            SessionState::Connected
        }
    }

    /// Whether the stop signal is set.
    pub fn stop_requested(&self) -> (r: bool)
        ensures
            r == self@.stop,
    {
        self.stop
    }

    /// Connects the session. The answer lists what the caller now does, in
    /// order: sign in, then start both loops. Only an idle session asks for
    /// that; one that is connected already asks for nothing.
    pub fn connect(&mut self) -> (actions: Vec<SessionAction>)
        ensures
            actions@ == if old(self)@.connected {
                Seq::<SessionAction>::empty()
            } else {
                connect_actions()
            },
            final(self)@ == old(self)@.connect(),
    {
        let mut actions: Vec<SessionAction> = Vec::new();
        if !self.connected {
            self.connected = true;
            actions.push(SessionAction::SendAuth);
            actions.push(SessionAction::StartLoop(LoopKind::Heartbeat));
            actions.push(SessionAction::StartLoop(LoopKind::Receive));
            assert(actions@ =~= connect_actions());
        } else {
            assert(actions@ =~= Seq::<SessionAction>::empty());
        }
        actions
    }

    /// Sets the stop signal. It does not wait for the loops.
    pub fn close(&mut self)
        ensures
            final(self)@ == old(self)@.close(),
    {
        self.stop = true;
    }

    /// Records that a loop has returned and was joined.
    pub fn loop_returned(&mut self, kind: LoopKind)
        ensures
            final(self)@ == old(self)@.loop_returned(kind),
    {
        if self.connected {
            match kind {
                LoopKind::Heartbeat => {
                    self.heartbeat_returned = true;
                },
                LoopKind::Receive => {
                    self.receive_returned = true;
                },
            }
        }
    }

    /// Turns what the inbound queue yields into the next raw message of the
    /// room. There is none once the queue is closed and empty, and none for
    /// what is not a raw document.
    pub fn next_message(&self, polled: Option<Inbound>) -> (r: Option<RawMessage>)
        ensures
            match polled {
                Some(Inbound::Raw(data)) => r is Some && r->Some_0.room() == self@.room
                    && r->Some_0.document() == json_model(data),
                _ => r is None,
            },
    {
        match polled {
            Some(Inbound::Raw(data)) => Some(RawMessage::new(self.room_id.as_str(), data)),
            _ => None,
        }
    }
}

/// Only `close` sets the stop signal: a loop that returns, the heartbeat
/// loop after a failed lock for one, leaves the signal and with it the other
/// loop as they were.
pub proof fn lemma_return_keeps_signal(session: SessionView, kind: LoopKind)
    ensures
        session.loop_returned(kind).stop == session.stop,
        session.connect().stop == session.stop,
        kind == LoopKind::Heartbeat ==> session.loop_returned(kind).receive_returned
            == session.receive_returned,
        kind == LoopKind::Receive ==> session.loop_returned(kind).heartbeat_returned
            == session.heartbeat_returned,
{
}

/// A connected session that is closed shuts down, and is stopped once both
/// loops have returned, in whichever order.
pub proof fn lemma_close_then_join(session: SessionView)
    requires
        session.state() == SessionState::Connected,
    ensures
        session.close().state() == SessionState::ShuttingDown,
        session.close().loop_returned(LoopKind::Heartbeat).loop_returned(
            LoopKind::Receive,
        ).state() == SessionState::Stopped,
        session.close().loop_returned(LoopKind::Receive).loop_returned(
            LoopKind::Heartbeat,
        ).state() == SessionState::Stopped,
{
}

} // verus!
