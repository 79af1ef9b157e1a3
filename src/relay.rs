use vstd::prelude::*;

verus! {

/// Where a subscriber's session stands.
#[derive(Debug, Clone, Copy, PartialEq, Eq, Structural)]
pub enum SessionState {
    Authorizing,
    Connecting,
    Subscribed,
    Draining,
    Closed,
}

/// What happened, as seen by the session.
#[derive(Debug, Clone)]
pub enum SessionEvent {
    /// The authorization chain let the request through.
    Authorized,
    /// The authorization chain refused the request.
    Refused,
    /// The dedicated bus connection is open and subscribed to the channel.
    SubscriptionReady,
    /// Opening the dedicated bus connection failed.
    ConnectFailed,
    /// Subscribing to the channel's key failed.
    SubscribeFailed,
    /// The bus delivered a payload.
    BusPayload(Vec<u8>),
    /// The bus delivered something that is not a payload.
    BusOther,
    /// The subscription stream failed or ended.
    BusFailed,
    /// The client sent a frame of any kind, a close frame included.
    ClientFrame,
    /// The client socket reported an error.
    ClientError,
    /// The client stream ended.
    ClientGone,
    /// A frame could not be sent to the client.
    ForwardFailed,
    /// The client socket has been closed (whether or not the close succeeded).
    SocketClosed,
}

/// What the session asks its driver to do next.
#[derive(Debug, Clone)]
pub enum SessionAction {
    /// Nothing; wait for the next event.
    Wait,
    /// Answer with the authorization failure, without upgrading.
    Reject,
    /// Complete the upgrade, open a dedicated bus connection and subscribe.
    Connect,
    /// Send these bytes to the client as one binary frame.
    Forward(Vec<u8>),
    /// Note a bus message that is not a payload, and go on.
    CountUnexpected,
    /// Close the client socket (best effort) and drop the dedicated connection.
    CloseSocket,
    /// The session is over: report its end.
    Finish,
}

/// Why a session ended.
#[derive(Debug, Clone, Copy, PartialEq, Eq, Structural)]
pub enum SessionEnd {
    /// The client ended it (any inbound activity).
    ClientClosed,
    Refused,
    ConnectFailed,
    SubscribeFailed,
    BusFailed,
    SendFailed,
}

/// The transition table: next state, action, and the end it records, if any.
pub open spec fn transition(s: SessionState, e: SessionEvent) -> (SessionState, SessionAction, Option<SessionEnd>) {
    match (s, e) {
        (SessionState::Authorizing, SessionEvent::Authorized) => (SessionState::Connecting, SessionAction::Connect, None),
        (SessionState::Authorizing, SessionEvent::Refused) => (
            SessionState::Closed,
            SessionAction::Reject,
            Some(SessionEnd::Refused),
        ),
        (SessionState::Connecting, SessionEvent::SubscriptionReady) => (SessionState::Subscribed, SessionAction::Wait, None),
        (SessionState::Connecting, SessionEvent::ConnectFailed) => (
            SessionState::Draining,
            SessionAction::CloseSocket,
            Some(SessionEnd::ConnectFailed),
        ),
        (SessionState::Connecting, SessionEvent::SubscribeFailed) => (
            SessionState::Draining,
            SessionAction::CloseSocket,
            Some(SessionEnd::SubscribeFailed),
        ),
        (SessionState::Subscribed, SessionEvent::BusPayload(p)) => (
            SessionState::Subscribed,
            SessionAction::Forward(p),
            None,
        ),
        (SessionState::Subscribed, SessionEvent::BusOther) => (SessionState::Subscribed, SessionAction::CountUnexpected, None),
        (SessionState::Subscribed, SessionEvent::BusFailed) => (
            SessionState::Draining,
            SessionAction::CloseSocket,
            Some(SessionEnd::BusFailed),
        ),
        (SessionState::Subscribed, SessionEvent::ForwardFailed) => (
            SessionState::Draining,
            SessionAction::CloseSocket,
            Some(SessionEnd::SendFailed),
        ),
        (SessionState::Subscribed, SessionEvent::ClientFrame) => (
            SessionState::Draining,
            SessionAction::CloseSocket,
            Some(SessionEnd::ClientClosed),
        ),
        (SessionState::Subscribed, SessionEvent::ClientError) => (
            SessionState::Draining,
            SessionAction::CloseSocket,
            Some(SessionEnd::ClientClosed),
        ),
        (SessionState::Subscribed, SessionEvent::ClientGone) => (
            SessionState::Draining,
            SessionAction::CloseSocket,
            Some(SessionEnd::ClientClosed),
        ),
        (SessionState::Draining, SessionEvent::SocketClosed) => (SessionState::Closed, SessionAction::Finish, None),
        (s, _) => (s, SessionAction::Wait, None),
    }
}

/// One subscriber's session.
#[derive(Debug, Clone)]
pub struct Session {
    pub state: SessionState,
    /// Why the session ended, once it has begun to end.
    pub end: Option<SessionEnd>,
}

impl Session {
    pub fn new() -> (r: Session)
        ensures
            r.state == SessionState::Authorizing,
            r.end is None,
    {
        Session { state: SessionState::Authorizing, end: None }
    }

    /// Applies `event`, returning what to do next. The end recorded first is kept.
    pub fn step(&mut self, event: SessionEvent) -> (r: SessionAction)
        ensures
            final(self).state == transition(old(self).state, event).0,
            r == transition(old(self).state, event).1,
            final(self).end == match old(self).end {
                Some(e) => Some(e),
                None => transition(old(self).state, event).2,
            },
    {
        let (next, action, end): (SessionState, SessionAction, Option<SessionEnd>) = match (self.state, event) {
            (SessionState::Authorizing, SessionEvent::Authorized) => (SessionState::Connecting, SessionAction::Connect, None),
            (SessionState::Authorizing, SessionEvent::Refused) => (
                SessionState::Closed,
                SessionAction::Reject,
                Some(SessionEnd::Refused),
            ),
            (SessionState::Connecting, SessionEvent::SubscriptionReady) => (SessionState::Subscribed, SessionAction::Wait, None),
            (SessionState::Connecting, SessionEvent::ConnectFailed) => (
                SessionState::Draining,
                SessionAction::CloseSocket,
                Some(SessionEnd::ConnectFailed),
            ),
            (SessionState::Connecting, SessionEvent::SubscribeFailed) => (
                SessionState::Draining,
                SessionAction::CloseSocket,
                Some(SessionEnd::SubscribeFailed),
            ),
            (SessionState::Subscribed, SessionEvent::BusPayload(p)) => (
                SessionState::Subscribed,
                SessionAction::Forward(p),
                None,
            ),
            (SessionState::Subscribed, SessionEvent::BusOther) => (SessionState::Subscribed, SessionAction::CountUnexpected, None),
            (SessionState::Subscribed, SessionEvent::BusFailed) => (
                SessionState::Draining,
                SessionAction::CloseSocket,
                Some(SessionEnd::BusFailed),
            ),
            (SessionState::Subscribed, SessionEvent::ForwardFailed) => (
                SessionState::Draining,
                SessionAction::CloseSocket,
                Some(SessionEnd::SendFailed),
            ),
            (SessionState::Subscribed, SessionEvent::ClientFrame) => (
                SessionState::Draining,
                SessionAction::CloseSocket,
                Some(SessionEnd::ClientClosed),
            ),
            (SessionState::Subscribed, SessionEvent::ClientError) => (
                SessionState::Draining,
                SessionAction::CloseSocket,
                Some(SessionEnd::ClientClosed),
            ),
            (SessionState::Subscribed, SessionEvent::ClientGone) => (
                SessionState::Draining,
                SessionAction::CloseSocket,
                Some(SessionEnd::ClientClosed),
            ),
            (SessionState::Draining, SessionEvent::SocketClosed) => (SessionState::Closed, SessionAction::Finish, None),
            (s, _) => (s, SessionAction::Wait, None),
        };
        self.state = next;
        if self.end.is_none() {
            self.end = end;
        }
        action
    }

    /// Whether the session has ended successfully: only a client-initiated end counts.
    pub fn succeeded(&self) -> (r: bool)
        ensures
            r == (self.state == SessionState::Closed && self.end == Some(SessionEnd::ClientClosed)),
    {
        match self.state {
            SessionState::Closed => match self.end {
                Some(SessionEnd::ClientClosed) => true,
                _ => false,
            },
            _ => false,
        }
    }
}

/// The state a session reaches after `events`, from `s`.
pub open spec fn run(s: SessionState, events: Seq<SessionEvent>) -> SessionState
    decreases events.len(),
{
    if events.len() == 0 {
        s
    } else {
        run(transition(s, events[0]).0, events.drop_first())
    }
}

/// How many times the client socket is closed while `events` are applied from `s`.
pub open spec fn close_count(s: SessionState, events: Seq<SessionEvent>) -> nat
    decreases events.len(),
{
    if events.len() == 0 {
        0
    } else {
        let (next, action, _) = transition(s, events[0]);
        (if action is CloseSocket {
            1nat
        } else {
            0nat
        }) + close_count(next, events.drop_first())
    }
}

pub open spec fn winding_down(s: SessionState) -> bool {
    s == SessionState::Draining || s == SessionState::Closed
}

/// Once draining has begun, the socket is not closed again and the session never
/// goes back.
pub proof fn no_close_after_draining(s: SessionState, events: Seq<SessionEvent>)
    requires
        winding_down(s),
    ensures
        close_count(s, events) == 0,
        winding_down(run(s, events)),
    decreases events.len(),
{
    if events.len() > 0 {
        no_close_after_draining(transition(s, events[0]).0, events.drop_first());
    }
}

/// Whatever happens, a session closes the client socket at most once.
pub proof fn socket_closed_at_most_once(s: SessionState, events: Seq<SessionEvent>)
    ensures
        close_count(s, events) <= 1,
    decreases events.len(),
{
    if events.len() > 0 {
        let next = transition(s, events[0]).0;
        if winding_down(s) || transition(s, events[0]).1 is CloseSocket {
            no_close_after_draining(next, events.drop_first());
        } else {
            socket_closed_at_most_once(next, events.drop_first());
        }
    }
}

/// A session that got past authorization is closed only after its client
/// socket was closed: exactly once.
pub proof fn closed_session_closed_its_socket(s: SessionState, events: Seq<SessionEvent>)
    requires
        s == SessionState::Connecting || s == SessionState::Subscribed,
        run(s, events) == SessionState::Closed,
    ensures
        close_count(s, events) == 1,
    decreases events.len(),
{
    if events.len() > 0 {
        let next = transition(s, events[0]).0;
        if transition(s, events[0]).1 is CloseSocket {
            no_close_after_draining(next, events.drop_first());
        } else {
            closed_session_closed_its_socket(next, events.drop_first());
        }
    }
}

/// A closed session stays closed.
pub proof fn closed_is_terminal(events: Seq<SessionEvent>)
    ensures
        run(SessionState::Closed, events) == SessionState::Closed,
        close_count(SessionState::Closed, events) == 0,
    decreases events.len(),
{
    if events.len() > 0 {
        closed_is_terminal(events.drop_first());
    }
}

} // verus!
