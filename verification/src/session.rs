//! The relay's session with the broker.
//!
//! The session records what the relay knows of its connection. The
//! transport itself is driven elsewhere: each method here notes one event
//! and, where something is to be asked of the transport, says what.

use vstd::prelude::*;
use crate::transport::{
    connect_options, relay_connect_options, relay_subscription, subscription, ConnectOptions,
    SubscribeRequest,
};

verus! {

/// Where the session stands.
#[derive(Clone, Copy, Debug, PartialEq, Eq, Structural)]
pub enum Phase {
    Disconnected,
    Connecting,
    Connected,
}

/// The moves a session can make: it starts connecting from disconnected; a
/// connection attempt ends connected or, when it is given up, disconnected;
/// a connection ends disconnected. Staying put is allowed too, since not
/// every event changes the phase.
pub open spec fn may_follow(from: Phase, to: Phase) -> bool {
    ||| from == to
    ||| from is Disconnected && to is Connecting
    ||| from is Connecting && to is Connected
    ||| from is Connecting && to is Disconnected
    ||| from is Connected && to is Disconnected
}

/// What is known of the connection.
#[derive(Clone, Copy, Debug, PartialEq, Eq, Structural)]
pub struct SessionState {
    pub phase: Phase,
    /// Whether the broker resumed an earlier session at the last connect.
    pub session_present: bool,
    /// Whether the subscription to the inbound topic is in place.
    pub subscription_registered: bool,
}

impl SessionState {
    /// A subscription is in place, and a resumed session known of, only
    /// while connected.
    pub open spec fn well_formed(self) -> bool {
        &&& self.session_present ==> self.phase is Connected
        &&& self.subscription_registered ==> self.phase is Connected
    }

    pub open spec fn connected(self) -> bool {
        self.phase is Connected
    }

    /// The state with no connection.
    pub open spec fn disconnected() -> SessionState {
        SessionState { phase: Phase::Disconnected, session_present: false, subscription_registered: false }
    }

    /// The state while a connection attempt is under way.
    pub open spec fn connecting() -> SessionState {
        SessionState { phase: Phase::Connecting, session_present: false, subscription_registered: false }
    }

    /// The state right after the broker accepted a connection. A resumed
    /// session brings its subscription with it; a fresh one has none.
    pub open spec fn established(session_present: bool) -> SessionState {
        SessionState {
            phase: Phase::Connected,
            session_present,
            subscription_registered: session_present,
        }
    }

    /// This state with the subscription in place.
    pub open spec fn with_subscription(self) -> SessionState {
        SessionState { subscription_registered: true, ..self }
    }

    /// Whether a subscribe request is due: connected, and no subscription
    /// in place.
    pub open spec fn needs_subscription(self) -> bool {
        self.phase is Connected && !self.subscription_registered
    }

    /// The state after `event`. An event that does not fit the phase
    /// changes nothing.
    pub open spec fn after(self, event: SessionEvent) -> SessionState {
        match event {
            SessionEvent::ConnectStarted => if self.phase is Disconnected {
                SessionState::connecting()
            } else {
                self
            },
            SessionEvent::Established { session_present } => if self.phase is Connecting {
                SessionState::established(session_present)
            } else {
                self
            },
            SessionEvent::Abandoned => if self.phase is Connecting {
                SessionState::disconnected()
            } else {
                self
            },
            SessionEvent::Subscribed => if self.phase is Connected {
                self.with_subscription()
            } else {
                self
            },
            SessionEvent::Disconnected => if self.phase is Connected {
                SessionState::disconnected()
            } else {
                self
            },
        }
    }
}

/// What can happen to a session.
#[derive(Clone, Copy, Debug, PartialEq, Eq, Structural)]
pub enum SessionEvent {
    /// A connection attempt starts.
    ConnectStarted,
    /// The broker accepted the attempt, and says whether it resumed an
    /// earlier session.
    Established { session_present: bool },
    /// Connecting was given up.
    Abandoned,
    /// The broker accepted the subscription.
    Subscribed,
    /// The connection is gone: the transport dropped it or the relay closed
    /// it.
    Disconnected,
}

/// The relay's session with the broker.
#[derive(Clone, Copy, Debug)]
pub struct BrokerSession {
    state: SessionState,
}

impl View for BrokerSession {
    type V = SessionState;

    closed spec fn view(&self) -> SessionState {
        self.state
    }
}

impl BrokerSession {
    #[verifier::type_invariant]
    closed spec fn inv(self) -> bool {
        self.state.well_formed()
    }

    /// A session that is not connected.
    pub fn new() -> (s: BrokerSession)
        ensures
            s@ == SessionState::disconnected(),
    {
        BrokerSession {
            state: SessionState {
                phase: Phase::Disconnected,
                session_present: false,
                subscription_registered: false,
            },
        }
    }

    /// What is known of the connection. It is always well formed.
    pub fn state(&self) -> (state: SessionState)
        ensures
            state == self@,
            state.well_formed(),
    {
        proof {
            use_type_invariant(self);
        }
        self.state
    }

    /// Whether the relay holds a connection, as far as it knows.
    pub fn is_connected(&self) -> (connected: bool)
        ensures
            connected == self@.connected(),
    {
        match self.state.phase {
            Phase::Connected => true,
            _ => false,
        }
    }

    /// Starts a connection attempt from the disconnected phase and hands
    /// out the options to connect with. In any other phase nothing happens.
    pub fn connect(&mut self) -> (options: Option<ConnectOptions>)
        ensures
            options is Some <==> old(self)@.phase is Disconnected,
            options matches Some(o) ==> o@ == relay_connect_options(),
            final(self)@ == old(self)@.after(SessionEvent::ConnectStarted),
    {
        proof {
            use_type_invariant(&*self);
        }
        match self.state.phase {
            Phase::Disconnected => {
                *self = BrokerSession {
                    state: SessionState {
                        phase: Phase::Connecting,
                        session_present: false,
                        subscription_registered: false,
                    },
                };
                Some(connect_options())
            },
            _ => None,
        }
    }

    /// Notes that the broker accepted the connection attempt, and whether
    /// it resumed an earlier session. Outside a connection attempt nothing
    /// happens.
    pub fn established(&mut self, session_present: bool) -> (applied: bool)
        ensures
            applied == (old(self)@.phase is Connecting),
            final(self)@ == old(self)@.after(SessionEvent::Established { session_present }),
    {
        match self.state.phase {
            Phase::Connecting => {
                *self = BrokerSession {
                    state: SessionState {
                        phase: Phase::Connected,
                        session_present,
                        subscription_registered: session_present,
                    },
                };
                true
            },
            _ => false,
        }
    }

    /// Notes that connecting was given up. Outside a connection attempt
    /// nothing happens.
    pub fn abandoned(&mut self) -> (applied: bool)
        ensures
            applied == (old(self)@.phase is Connecting),
            final(self)@ == old(self)@.after(SessionEvent::Abandoned),
    {
        match self.state.phase {
            Phase::Connecting => {
                *self = BrokerSession::new();
                true
            },
            _ => false,
        }
    }

    /// Says whether a subscribe request is due, and hands it out if so:
    /// that is when the session is connected and has no subscription in
    /// place. Asking again changes nothing.
    pub fn ensure_subscription(&self) -> (request: Option<SubscribeRequest>)
        ensures
            request is Some <==> self@.needs_subscription(),
            request matches Some(r) ==> r@ == relay_subscription(),
    {
        match self.state.phase {
            Phase::Connected => {
                if self.state.subscription_registered {
                    None
                } else {
                    Some(subscription())
                }
            },
            _ => None,
        }
    }

    /// Notes that the broker accepted the subscription. While not connected
    /// nothing happens.
    pub fn subscribed(&mut self) -> (applied: bool)
        ensures
            applied == old(self)@.connected(),
            final(self)@ == old(self)@.after(SessionEvent::Subscribed),
    {
        match self.state.phase {
            Phase::Connected => {
                *self = BrokerSession {
                    state: SessionState {
                        phase: Phase::Connected,
                        session_present: self.state.session_present,
                        subscription_registered: true,
                    },
                };
                true
            },
            _ => false,
        }
    }

    /// Notes that the connection is gone, whether the transport dropped it
    /// or the relay closed it. While not connected nothing happens.
    pub fn disconnect(&mut self) -> (applied: bool)
        ensures
            applied == old(self)@.connected(),
            final(self)@ == old(self)@.after(SessionEvent::Disconnected),
    {
        match self.state.phase {
            Phase::Connected => {
                *self = BrokerSession::new();
                true
            },
            _ => false,
        }
    }
}

/// Whatever happens to a well-formed session, it stays well formed: a
/// subscription is in place only while connected. And its phase changes only
/// by the moves of [`may_follow`]: never from disconnected straight to
/// connected, never from connected straight to connecting.
pub proof fn session_stays_well_formed(before: SessionState, event: SessionEvent)
    requires
        before.well_formed(),
    ensures
        before.after(event).well_formed(),
        before.after(event).subscription_registered ==> before.after(event).connected(),
        may_follow(before.phase, before.after(event).phase),
        !may_follow(Phase::Disconnected, Phase::Connected),
        !may_follow(Phase::Connected, Phase::Connecting),
{
}

/// A connection made without a resumed session has no subscription in
/// place: a subscribe request is due. One made with a resumed session has
/// it already. Once the broker accepted the subscription, none is due.
pub proof fn subscription_follows_session(before: SessionState, session_present: bool)
    requires
        before.phase is Connecting,
    ensures
        before.after(SessionEvent::Established { session_present }).needs_subscription()
            == !session_present,
        !before.after(SessionEvent::Established { session_present }).after(
            SessionEvent::Subscribed,
        ).needs_subscription(),
{
}

} // verus!
