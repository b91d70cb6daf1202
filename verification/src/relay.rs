//! The relay's message pipeline as a machine of stages.
//!
//! The relay itself does no input or output. It is told what happened, one
//! event at a time, and answers with what is to be done next: connect,
//! subscribe, receive, write a point, wait and reconnect, disconnect, or
//! exit. Whoever drives it performs the action and reports the outcome as
//! the next event.

use vstd::prelude::*;
use crate::measurement::{decoded, DecodeError, Measurement};
use crate::point::{derive_point, point_of, Point, PointView};
use crate::reconnect::{
    attempt_after, failed_recovery_tries_all, recovery, recovery_is_bounded,
    recovery_stops_at_first_success, Attempt, ReconnectController, ReconnectPolicy,
};
use crate::session::{may_follow, BrokerSession, SessionState};
use crate::transport::{
    relay_connect_options, relay_subscription, ConnectOptions, ConnectOptionsView,
    SubscribeRequest, SubscribeRequestView,
};

verus! {

/// What the relay is set up with.
#[derive(Clone, Copy, Debug, PartialEq, Eq, Structural)]
pub struct RelayConfig {
    pub reconnect: ReconnectPolicy,
    /// The number of failed writes in a row at which the store counts as
    /// unusable and the relay stops. At least 1.
    pub write_failure_limit: u32,
}

impl RelayConfig {
    /// The standard reconnect policy, and a stop at the third failed write
    /// in a row.
    pub open spec fn standard() -> RelayConfig {
        RelayConfig { reconnect: ReconnectPolicy::standard(), write_failure_limit: 3 }
    }

    /// Whether a relay can be run with this.
    pub open spec fn valid(self) -> bool {
        self.write_failure_limit >= 1
    }
}

impl Default for RelayConfig {
    fn default() -> (config: RelayConfig)
        ensures
            config == RelayConfig::standard(),
    {
        RelayConfig {
            reconnect: ReconnectPolicy { max_attempts: 12, delay_ms: 5000 },
            write_failure_limit: 3,
        }
    }
}

/// Why a configuration is refused.
#[derive(Clone, Copy, Debug, PartialEq, Eq, Structural)]
pub enum ConfigError {
    /// A limit of zero failed writes would stop the relay before any write.
    ZeroWriteFailureLimit,
}

/// Why the relay stopped.
#[derive(Clone, Copy, Debug, PartialEq, Eq, Structural)]
pub enum ExitReason {
    /// The first connection attempt failed.
    ConnectFailed,
    /// The broker refused the subscription.
    SubscribeFailed,
    /// The connection was lost and every reconnect attempt failed.
    ReconnectExhausted,
    /// Writes to the store failed as often in a row as the limit says.
    StoreUnusable,
    /// The relay was asked to stop.
    Shutdown,
}

/// What the relay is waiting for.
#[derive(Clone, Copy, Debug, PartialEq, Eq, Structural)]
pub enum Stage {
    /// Not started.
    Idle,
    /// The first connection attempt is under way.
    Connecting,
    /// A subscribe request is under way.
    Subscribing,
    /// Waiting for the next inbound item.
    Receiving,
    /// A write to the store is under way.
    Writing,
    /// The connection is lost and a reconnect attempt is under way.
    Reconnecting,
    /// The relay is closing its connection before it stops.
    Closing(ExitReason),
    /// The relay has stopped.
    Stopped(ExitReason),
}

/// Something that went wrong and is to be reported, though the relay goes
/// on.
#[derive(Clone, Copy, Debug, PartialEq, Eq, Structural)]
pub enum Fault {
    /// The message was no measurement; it is skipped.
    Decode(DecodeError),
    /// The point was not written.
    StoreWrite,
    /// The transport lost the connection.
    ConnectionLost,
    /// Closing the connection failed; the relay stops all the same.
    CloseFailed,
}

/// What is to be done next.
#[derive(Clone, Debug, PartialEq, Eq)]
pub enum Action {
    /// Connect with these options.
    Connect(ConnectOptions),
    /// Subscribe as requested.
    Subscribe(SubscribeRequest),
    /// Wait for the next inbound item.
    Receive,
    /// Write this point to the store.
    Write(Point),
    /// Wait as the attempt says, then try to reconnect.
    Reconnect(Attempt),
    /// Close the connection.
    Disconnect,
    /// Leave the main loop.
    Exit(ExitReason),
}

/// What an [`Action`] stands for in contracts.
pub enum ActionView {
    Connect(ConnectOptionsView),
    Subscribe(SubscribeRequestView),
    Receive,
    Write(PointView),
    Reconnect(Attempt),
    Disconnect,
    Exit(ExitReason),
}

impl View for Action {
    type V = ActionView;

    open spec fn view(&self) -> ActionView {
        match self {
            Action::Connect(options) => ActionView::Connect(options@),
            Action::Subscribe(request) => ActionView::Subscribe(request@),
            Action::Receive => ActionView::Receive,
            Action::Write(point) => ActionView::Write(point@),
            Action::Reconnect(attempt) => ActionView::Reconnect(*attempt),
            Action::Disconnect => ActionView::Disconnect,
            Action::Exit(reason) => ActionView::Exit(*reason),
        }
    }
}

/// The relay's answer to an event.
#[derive(Clone, Debug, PartialEq, Eq)]
pub struct Step {
    pub action: Action,
    /// What is to be reported before the action is taken, if anything.
    pub fault: Option<Fault>,
}

/// What a [`Step`] stands for in contracts.
pub struct StepView {
    pub action: ActionView,
    pub fault: Option<Fault>,
}

impl View for Step {
    type V = StepView;

    open spec fn view(&self) -> StepView {
        StepView { action: self.action@, fault: self.fault }
    }
}

/// What happened.
#[derive(Clone, Debug, PartialEq, Eq)]
pub enum Event {
    /// The relay is switched on.
    Start,
    /// A connection attempt succeeded; the broker says whether it resumed
    /// an earlier session.
    Connected { session_present: bool },
    /// A connection attempt failed.
    ConnectFailed,
    /// The broker accepted the subscription.
    Subscribed,
    /// The broker refused the subscription.
    SubscribeFailed,
    /// A message arrived at the given time, in milliseconds since the Unix
    /// epoch.
    Message { payload: Vec<u8>, received_at_ms: i64 },
    /// The inbound stream had nothing to give; the transport says whether
    /// it still holds the connection.
    EndOfData { still_connected: bool },
    /// The store took the point.
    Written,
    /// The store did not take the point.
    WriteFailed,
    /// The relay is asked to stop.
    Shutdown,
    /// The connection was closed, cleanly or not.
    Closed { clean: bool },
}

/// What an [`Event`] stands for in contracts.
pub enum EventView {
    Start,
    Connected { session_present: bool },
    ConnectFailed,
    Subscribed,
    SubscribeFailed,
    Message { payload: Seq<u8>, received_at_ms: i64 },
    EndOfData { still_connected: bool },
    Written,
    WriteFailed,
    Shutdown,
    Closed { clean: bool },
}

impl View for Event {
    type V = EventView;

    open spec fn view(&self) -> EventView {
        match self {
            Event::Start => EventView::Start,
            Event::Connected { session_present } => EventView::Connected {
                session_present: *session_present,
            },
            Event::ConnectFailed => EventView::ConnectFailed,
            Event::Subscribed => EventView::Subscribed,
            Event::SubscribeFailed => EventView::SubscribeFailed,
            Event::Message { payload, received_at_ms } => EventView::Message {
                payload: payload@,
                received_at_ms: *received_at_ms,
            },
            Event::EndOfData { still_connected } => EventView::EndOfData {
                still_connected: *still_connected,
            },
            Event::Written => EventView::Written,
            Event::WriteFailed => EventView::WriteFailed,
            Event::Shutdown => EventView::Shutdown,
            Event::Closed { clean } => EventView::Closed { clean: *clean },
        }
    }
}

/// Where a relay stands.
#[derive(Clone, Copy, Debug, PartialEq, Eq, Structural)]
pub struct RelayState {
    pub stage: Stage,
    pub session: SessionState,
    /// The reconnect attempts asked for since the connection was lost.
    pub attempts: u32,
    /// The writes that failed in a row.
    pub write_failures: u32,
}

impl RelayState {
    /// The state of a relay that was not started.
    pub open spec fn initial() -> RelayState {
        RelayState {
            stage: Stage::Idle,
            session: SessionState::disconnected(),
            attempts: 0,
            write_failures: 0,
        }
    }

    /// Whether stage, session and counters fit together under `config`.
    pub open spec fn well_formed(self, config: RelayConfig) -> bool {
        &&& self.session.well_formed()
        &&& self.attempts <= config.reconnect.max_attempts
        &&& self.write_failures < config.write_failure_limit
        &&& match self.stage {
            Stage::Idle => self == RelayState::initial(),
            Stage::Connecting => self.session == SessionState::connecting() && self.attempts == 0,
            Stage::Subscribing => self.session.needs_subscription() && self.attempts == 0,
            Stage::Receiving | Stage::Writing => {
                &&& self.session.connected()
                &&& self.session.subscription_registered
                &&& self.attempts == 0
            },
            Stage::Reconnecting => self.session == SessionState::connecting() && self.attempts >= 1,
            Stage::Closing(_) => self.session.connected() && self.attempts == 0,
            Stage::Stopped(_) => self.session == SessionState::disconnected(),
        }
    }
}

/// A step that reports nothing.
pub open spec fn quietly(action: ActionView) -> StepView {
    StepView { action, fault: None }
}

/// After a connection attempt succeeded: a resumed session goes straight
/// to receiving, a fresh one subscribes first.
pub open spec fn after_connected(s: RelayState, session_present: bool) -> (RelayState, StepView) {
    let session = SessionState::established(session_present);
    if session_present {
        (RelayState { stage: Stage::Receiving, session, attempts: 0, ..s }, quietly(ActionView::Receive))
    } else {
        (
            RelayState { stage: Stage::Subscribing, session, attempts: 0, ..s },
            quietly(ActionView::Subscribe(relay_subscription())),
        )
    }
}

/// After the connection was lost or a reconnect attempt failed: the next
/// attempt if the budget allows one, else the end.
pub open spec fn after_failed_attempt(config: RelayConfig, s: RelayState, fault: Option<Fault>) -> (
    RelayState,
    StepView,
) {
    match attempt_after(config.reconnect, s.attempts as nat) {
        Some(attempt) => (
            RelayState {
                stage: Stage::Reconnecting,
                session: SessionState::connecting(),
                attempts: attempt.number,
                ..s
            },
            StepView { action: ActionView::Reconnect(attempt), fault },
        ),
        None => (
            RelayState {
                stage: Stage::Stopped(ExitReason::ReconnectExhausted),
                session: SessionState::disconnected(),
                ..s
            },
            StepView { action: ActionView::Exit(ExitReason::ReconnectExhausted), fault },
        ),
    }
}

/// After a message arrived: a measurement is written, anything else is
/// reported and skipped.
pub open spec fn after_message(s: RelayState, payload: Seq<u8>, received_at_ms: i64) -> (
    RelayState,
    StepView,
) {
    match decoded(payload) {
        Ok(m) => (
            RelayState { stage: Stage::Writing, ..s },
            quietly(ActionView::Write(point_of(m, received_at_ms))),
        ),
        Err(e) => (s, StepView { action: ActionView::Receive, fault: Some(Fault::Decode(e)) }),
    }
}

/// After a write failed: the relay goes on unless this failure fills the
/// limit.
pub open spec fn after_write_failed(config: RelayConfig, s: RelayState) -> (RelayState, StepView) {
    if s.write_failures + 1 >= config.write_failure_limit {
        (
            RelayState { stage: Stage::Closing(ExitReason::StoreUnusable), ..s },
            StepView { action: ActionView::Disconnect, fault: Some(Fault::StoreWrite) },
        )
    } else {
        (
            RelayState {
                stage: Stage::Receiving,
                write_failures: (s.write_failures + 1) as u32,
                ..s
            },
            StepView { action: ActionView::Receive, fault: Some(Fault::StoreWrite) },
        )
    }
}

/// The relay's answer to `event` in state `s`, and the state it is in
/// then. `None` where the event is not one that the stage waits for.
pub open spec fn next(config: RelayConfig, s: RelayState, event: EventView) -> Option<
    (RelayState, StepView),
> {
    match (s.stage, event) {
        (Stage::Idle, EventView::Start) => Some(
            (
                RelayState { stage: Stage::Connecting, session: SessionState::connecting(), ..s },
                quietly(ActionView::Connect(relay_connect_options())),
            ),
        ),
        (Stage::Connecting, EventView::Connected { session_present }) => Some(
            after_connected(s, session_present),
        ),
        (Stage::Connecting, EventView::ConnectFailed) => Some(
            (
                RelayState {
                    stage: Stage::Stopped(ExitReason::ConnectFailed),
                    session: SessionState::disconnected(),
                    ..s
                },
                quietly(ActionView::Exit(ExitReason::ConnectFailed)),
            ),
        ),
        (Stage::Subscribing, EventView::Subscribed) => Some(
            (
                RelayState { stage: Stage::Receiving, session: s.session.with_subscription(), ..s },
                quietly(ActionView::Receive),
            ),
        ),
        (Stage::Subscribing, EventView::SubscribeFailed) => Some(
            (
                RelayState { stage: Stage::Closing(ExitReason::SubscribeFailed), ..s },
                quietly(ActionView::Disconnect),
            ),
        ),
        (Stage::Receiving, EventView::Message { payload, received_at_ms }) => Some(
            after_message(s, payload, received_at_ms),
        ),
        (Stage::Receiving, EventView::EndOfData { still_connected }) => if still_connected {
            Some((s, quietly(ActionView::Receive)))
        } else {
            Some(after_failed_attempt(config, s, Some(Fault::ConnectionLost)))
        },
        (Stage::Receiving, EventView::Shutdown) => Some(
            (
                RelayState { stage: Stage::Closing(ExitReason::Shutdown), ..s },
                quietly(ActionView::Disconnect),
            ),
        ),
        (Stage::Writing, EventView::Written) => Some(
            (RelayState { stage: Stage::Receiving, write_failures: 0, ..s }, quietly(ActionView::Receive)),
        ),
        (Stage::Writing, EventView::WriteFailed) => Some(after_write_failed(config, s)),
        (Stage::Reconnecting, EventView::Connected { session_present }) => Some(
            after_connected(s, session_present),
        ),
        (Stage::Reconnecting, EventView::ConnectFailed) => Some(after_failed_attempt(config, s, None)),
        (Stage::Closing(reason), EventView::Closed { clean }) => Some(
            (
                RelayState {
                    stage: Stage::Stopped(reason),
                    session: SessionState::disconnected(),
                    ..s
                },
                StepView {
                    action: ActionView::Exit(reason),
                    fault: if clean {
                        None
                    } else {
                        Some(Fault::CloseFailed)
                    },
                },
            ),
        ),
        _ => None,
    }
}

/// Every answer of the relay leaves it in a state that fits together.
pub proof fn next_keeps_well_formed(config: RelayConfig, s: RelayState, event: EventView)
    requires
        config.valid(),
        s.well_formed(config),
    ensures
        next(config, s, event) matches Some((after, _)) ==> after.well_formed(config),
{
}

/// The relay's message pipeline.
#[derive(Clone, Copy, Debug)]
pub struct Relay {
    config: RelayConfig,
    stage: Stage,
    session: BrokerSession,
    reconnect: ReconnectController,
    write_failures: u32,
}

impl View for Relay {
    type V = RelayState;

    closed spec fn view(&self) -> RelayState {
        RelayState {
            stage: self.stage,
            session: self.session@,
            attempts: self.reconnect.made(),
            write_failures: self.write_failures,
        }
    }
}

impl Relay {
    #[verifier::type_invariant]
    closed spec fn inv(self) -> bool {
        &&& self.config.valid()
        &&& self.reconnect.policy() == self.config.reconnect
        &&& self@.well_formed(self.config)
    }

    /// What the relay was set up with.
    pub closed spec fn config(self) -> RelayConfig {
        self.config
    }

    /// A relay that is not started, or the reason why `config` is refused.
    pub fn new(config: RelayConfig) -> (r: Result<Relay, ConfigError>)
        ensures
            r is Ok <==> config.valid(),
            r matches Ok(relay) ==> relay.config() == config && relay@ == RelayState::initial(),
            r matches Err(e) ==> e == ConfigError::ZeroWriteFailureLimit,
    {
        if config.write_failure_limit == 0 {
            return Err(ConfigError::ZeroWriteFailureLimit);
        }
        Ok(
            Relay {
                config,
                stage: Stage::Idle,
                session: BrokerSession::new(),
                reconnect: ReconnectController::new(config.reconnect),
                write_failures: 0,
            },
        )
    }

    /// Where the relay stands. The state always fits together.
    pub fn state(&self) -> (state: RelayState)
        ensures
            state == self@,
            state.well_formed(self.config()),
            self.config().valid(),
    {
        proof {
            use_type_invariant(self);
        }
        RelayState {
            stage: self.stage,
            session: self.session.state(),
            attempts: self.reconnect.attempts(),
            write_failures: self.write_failures,
        }
    }

    /// Whether the relay has stopped.
    pub fn is_stopped(&self) -> (stopped: bool)
        ensures
            stopped == (self@.stage is Stopped),
    {
        match self.stage {
            Stage::Stopped(_) => true,
            _ => false,
        }
    }

    /// Takes in one event and answers with what is to be done next.
    ///
    /// An event that the stage does not wait for is refused: the answer is
    /// `None` and nothing changes.
    pub fn step(&mut self, event: Event) -> (step: Option<Step>)
        ensures
            final(self).config() == old(self).config(),
            match next(old(self).config(), old(self)@, event@) {
                Some((state, expected)) => {
                    &&& final(self)@ == state
                    &&& step matches Some(taken)
                    &&& taken@ == expected
                },
                None => final(self)@ == old(self)@ && step is None,
            },
    {
        proof {
            use_type_invariant(&*self);
        }
        match (self.stage, event) {
            (Stage::Idle, Event::Start) => {
                let mut session = self.session;
                let options = session.connect();
                *self = Relay { stage: Stage::Connecting, session, ..*self };
                Some(Step { action: Action::Connect(options.unwrap()), fault: None })
            },
            (Stage::Connecting, Event::Connected { session_present }) => Some(
                self.connected(session_present),
            ),
            (Stage::Connecting, Event::ConnectFailed) => {
                let mut session = self.session;
                session.abandoned();
                let reason = ExitReason::ConnectFailed;
                *self = Relay { stage: Stage::Stopped(reason), session, ..*self };
                Some(Step { action: Action::Exit(reason), fault: None })
            },
            (Stage::Subscribing, Event::Subscribed) => {
                let mut session = self.session;
                session.subscribed();
                *self = Relay { stage: Stage::Receiving, session, ..*self };
                Some(Step { action: Action::Receive, fault: None })
            },
            (Stage::Subscribing, Event::SubscribeFailed) => {
                *self = Relay { stage: Stage::Closing(ExitReason::SubscribeFailed), ..*self };
                Some(Step { action: Action::Disconnect, fault: None })
            },
            (Stage::Receiving, Event::Message { payload, received_at_ms }) => Some(
                self.handle_message(payload.as_slice(), received_at_ms),
            ),
            (Stage::Receiving, Event::EndOfData { still_connected }) => {
                if still_connected {
                    Some(Step { action: Action::Receive, fault: None })
                } else {
                    Some(self.try_reconnect(Some(Fault::ConnectionLost)))
                }
            },
            (Stage::Receiving, Event::Shutdown) => {
                *self = Relay { stage: Stage::Closing(ExitReason::Shutdown), ..*self };
                Some(Step { action: Action::Disconnect, fault: None })
            },
            (Stage::Writing, Event::Written) => {
                *self = Relay { stage: Stage::Receiving, write_failures: 0, ..*self };
                Some(Step { action: Action::Receive, fault: None })
            },
            (Stage::Writing, Event::WriteFailed) => Some(self.write_failed()),
            (Stage::Reconnecting, Event::Connected { session_present }) => Some(
                self.connected(session_present),
            ),
            (Stage::Reconnecting, Event::ConnectFailed) => Some(self.try_reconnect(None)),
            (Stage::Closing(reason), Event::Closed { clean }) => {
                let mut session = self.session;
                session.disconnect();
                *self = Relay { stage: Stage::Stopped(reason), session, ..*self };
                let fault = if clean {
                    None
                } else {
                    Some(Fault::CloseFailed)
                };
                Some(Step { action: Action::Exit(reason), fault })
            },
            _ => None,
        }
    }

    /// Notes a connection attempt that succeeded.
    fn connected(&mut self, session_present: bool) -> (step: Step)
        requires
            old(self)@.stage is Connecting || old(self)@.stage is Reconnecting,
        ensures
            final(self).config() == old(self).config(),
            (final(self)@, step@) == after_connected(old(self)@, session_present),
    {
        proof {
            use_type_invariant(&*self);
        }
        let mut session = self.session;
        session.established(session_present);
        let mut reconnect = self.reconnect;
        reconnect.reset();
        match session.ensure_subscription() {
            Some(request) => {
                *self = Relay { stage: Stage::Subscribing, session, reconnect, ..*self };
                Step { action: Action::Subscribe(request), fault: None }
            },
            None => {
                *self = Relay { stage: Stage::Receiving, session, reconnect, ..*self };
                Step { action: Action::Receive, fault: None }
            },
        }
    }

    /// Asks for the next reconnect attempt after the connection was lost
    /// or an attempt failed, or gives up when the budget is used up.
    fn try_reconnect(&mut self, fault: Option<Fault>) -> (step: Step)
        requires
            old(self)@.stage is Receiving || old(self)@.stage is Reconnecting,
        ensures
            final(self).config() == old(self).config(),
            (final(self)@, step@) == after_failed_attempt(old(self).config(), old(self)@, fault),
    {
        proof {
            use_type_invariant(&*self);
        }
        let mut session = self.session;
        session.disconnect();
        session.abandoned();
        let mut reconnect = self.reconnect;
        match reconnect.next_attempt() {
            Some(attempt) => {
                let _ = session.connect();
                *self = Relay { stage: Stage::Reconnecting, session, reconnect, ..*self };
                Step { action: Action::Reconnect(attempt), fault }
            },
            None => {
                let reason = ExitReason::ReconnectExhausted;
                *self = Relay { stage: Stage::Stopped(reason), session, ..*self };
                Step { action: Action::Exit(reason), fault }
            },
        }
    }

    /// Decodes one inbound message and, where it is a measurement, asks
    /// for its point to be written.
    fn handle_message(&mut self, payload: &[u8], received_at_ms: i64) -> (step: Step)
        requires
            old(self)@.stage is Receiving,
        ensures
            final(self).config() == old(self).config(),
            (final(self)@, step@) == after_message(old(self)@, payload@, received_at_ms),
    {
        proof {
            use_type_invariant(&*self);
        }
        match Measurement::decode(payload) {
            Ok(measurement) => {
                let point = derive_point(&measurement, received_at_ms);
                *self = Relay { stage: Stage::Writing, ..*self };
                Step { action: Action::Write(point), fault: None }
            },
            Err(e) => Step { action: Action::Receive, fault: Some(Fault::Decode(e)) },
        }
    }

    /// Notes a write that failed.
    fn write_failed(&mut self) -> (step: Step)
        requires
            old(self)@.stage is Writing,
        ensures
            final(self).config() == old(self).config(),
            (final(self)@, step@) == after_write_failed(old(self).config(), old(self)@),
    {
        proof {
            use_type_invariant(&*self);
        }
        if self.write_failures + 1 >= self.config.write_failure_limit {
            *self = Relay { stage: Stage::Closing(ExitReason::StoreUnusable), ..*self };
            Step { action: Action::Disconnect, fault: Some(Fault::StoreWrite) }
        } else {
            let write_failures: u32 = self.write_failures + 1;
            *self = Relay { stage: Stage::Receiving, write_failures, ..*self };
            Step { action: Action::Receive, fault: Some(Fault::StoreWrite) }
        }
    }
}

/// The state after `event`: that of the relay's answer, or `s` itself where
/// the event is refused.
pub open spec fn state_after(config: RelayConfig, s: RelayState, event: EventView) -> RelayState {
    match next(config, s, event) {
        Some((after, _)) => after,
        None => s,
    }
}

/// The state after a run of events, taken in order.
pub open spec fn run(config: RelayConfig, s: RelayState, events: Seq<EventView>) -> RelayState
    decreases events.len(),
{
    if events.len() == 0 {
        s
    } else {
        state_after(config, run(config, s, events.drop_last()), events.last())
    }
}

/// The events of a connection that is found lost and of `failures`
/// reconnect attempts that fail one after the other.
pub open spec fn lost_and_failing(failures: nat) -> Seq<EventView> {
    seq![EventView::EndOfData { still_connected: false }] + Seq::new(
        failures,
        |i: int| EventView::ConnectFailed,
    )
}

/// An empty poll on a connection that still stands changes nothing: the
/// relay goes on receiving, and no reconnect is asked for.
pub proof fn empty_poll_keeps_receiving(config: RelayConfig, s: RelayState)
    requires
        s.stage is Receiving,
    ensures
        next(config, s, EventView::EndOfData { still_connected: true }) == Some(
            (s, quietly(ActionView::Receive)),
        ),
{
}

/// A message that is a measurement is handed to the store as a point that
/// holds the same room and the same two readings and is stamped with the
/// time of receipt; the relay then waits for the write.
pub proof fn measurement_is_written_as_it_came(
    config: RelayConfig,
    s: RelayState,
    payload: Seq<u8>,
    received_at_ms: i64,
)
    requires
        s.stage is Receiving,
        decoded(payload) is Ok,
    ensures
        ({
            let m = decoded(payload)->Ok_0;
            let point = point_of(m, received_at_ms);
            &&& next(config, s, EventView::Message { payload, received_at_ms }) == Some(
                (RelayState { stage: Stage::Writing, ..s }, quietly(ActionView::Write(point))),
            )
            &&& point.tags == seq![("room"@, m.room)]
            &&& point.fields == seq![("temperature"@, m.temperature), ("humidity"@, m.humidity)]
            &&& point.timestamp_ms == received_at_ms
        }),
{
}

/// A message that is no measurement is reported and skipped: the relay
/// stays as it is and goes on receiving.
pub proof fn bad_message_is_skipped(
    config: RelayConfig,
    s: RelayState,
    payload: Seq<u8>,
    received_at_ms: i64,
)
    requires
        s.stage is Receiving,
        decoded(payload) is Err,
    ensures
        next(config, s, EventView::Message { payload, received_at_ms }) == Some(
            (
                s,
                StepView {
                    action: ActionView::Receive,
                    fault: Some(Fault::Decode(decoded(payload)->Err_0)),
                },
            ),
        ),
{
}

/// Messages are taken up one at a time and only while receiving: in every
/// other stage a message is refused.
pub proof fn messages_wait_their_turn(
    config: RelayConfig,
    s: RelayState,
    payload: Seq<u8>,
    received_at_ms: i64,
)
    requires
        !(s.stage is Receiving),
    ensures
        next(config, s, EventView::Message { payload, received_at_ms }) is None,
{
}

/// Whenever the relay asks for a reconnect attempt, the attempt's number is
/// one more than the attempts asked for before, and at most the policy's
/// bound; the wait is the policy's delay.
pub proof fn reconnect_attempts_are_counted(config: RelayConfig, s: RelayState, event: EventView)
    requires
        config.valid(),
        s.well_formed(config),
    ensures
        next(config, s, event) matches Some((after, step)) ==> (step.action matches ActionView::Reconnect(
            attempt,
        ) ==> {
            &&& attempt.number == s.attempts + 1
            &&& after.attempts == attempt.number
            &&& 1 <= attempt.number <= config.reconnect.max_attempts
            &&& attempt.after_ms == config.reconnect.delay_ms
        }),
{
}

/// After the connection is found lost, the relay asks for one reconnect
/// attempt after the other while they fail, and gives up when as many have
/// failed as the policy allows: it never asks for more.
pub proof fn reconnect_gives_up_at_the_bound(config: RelayConfig, s: RelayState, failures: nat)
    requires
        config.valid(),
        s.well_formed(config),
        s.stage is Receiving,
        failures <= config.reconnect.max_attempts,
    ensures
        failures < config.reconnect.max_attempts ==> run(config, s, lost_and_failing(failures))
            == (RelayState {
            stage: Stage::Reconnecting,
            session: SessionState::connecting(),
            attempts: (failures + 1) as u32,
            write_failures: s.write_failures,
        }),
        failures == config.reconnect.max_attempts ==> run(config, s, lost_and_failing(failures))
            == (RelayState {
            stage: Stage::Stopped(ExitReason::ReconnectExhausted),
            session: SessionState::disconnected(),
            attempts: failures as u32,
            write_failures: s.write_failures,
        }),
    decreases failures,
{
    let events = lost_and_failing(failures);
    if failures == 0 {
        assert(run(config, s, events.drop_last()) == s);
    } else {
        let before = lost_and_failing((failures - 1) as nat);
        assert(events.drop_last() =~= before);
        reconnect_gives_up_at_the_bound(config, s, (failures - 1) as nat);
    }
}

/// The events of reconnect attempts that end as `outcomes` say, each `true`
/// a success.
pub open spec fn attempt_events(outcomes: Seq<bool>, session_present: bool) -> Seq<EventView> {
    Seq::new(
        outcomes.len(),
        |i: int|
            if outcomes[i] {
                EventView::Connected { session_present }
            } else {
                EventView::ConnectFailed
            },
    )
}

/// The relay recovers from a lost connection as the reconnect policy says.
/// Take the attempts that a recovery makes when they end as `outcomes`
/// say. If it reconnects, the relay is back at work after them. If it
/// uses up the budget, the relay has stopped. If the outcomes end before
/// either, the relay is waiting for the next attempt.
pub proof fn relay_recovers_as_the_policy_says(
    config: RelayConfig,
    s: RelayState,
    outcomes: Seq<bool>,
    session_present: bool,
)
    requires
        config.valid(),
        s.well_formed(config),
        s.stage is Receiving,
    ensures
        ({
            let r = recovery(config.reconnect, outcomes);
            let made = outcomes.take(r.attempts as int);
            let end = run(
                config,
                s,
                seq![EventView::EndOfData { still_connected: false }] + attempt_events(
                    made,
                    session_present,
                ),
            );
            &&& r.attempts <= config.reconnect.max_attempts
            &&& r.reconnected ==> !(end.stage is Stopped) && end.session
                == SessionState::established(session_present) && end.stage == (if session_present {
                Stage::Receiving
            } else {
                Stage::Subscribing
            })
            &&& !r.reconnected && r.attempts == config.reconnect.max_attempts ==> end.stage
                == Stage::Stopped(ExitReason::ReconnectExhausted)
            &&& !r.reconnected && r.attempts < config.reconnect.max_attempts ==> end.stage
                is Reconnecting && end.attempts == r.attempts + 1
        }),
{
    let policy = config.reconnect;
    let r = recovery(policy, outcomes);
    let made = outcomes.take(r.attempts as int);
    let lost = seq![EventView::EndOfData { still_connected: false }];
    let events = lost + attempt_events(made, session_present);
    recovery_is_bounded(policy, 0, outcomes);
    recovery_stops_at_first_success(policy, outcomes);
    if r.reconnected {
        let failures = (r.attempts - 1) as nat;
        assert(events.drop_last() =~= lost_and_failing(failures));
        reconnect_gives_up_at_the_bound(config, s, failures);
    } else {
        failed_recovery_tries_all(policy, 0, outcomes);
        assert(events =~= lost_and_failing(r.attempts));
        reconnect_gives_up_at_the_bound(config, s, r.attempts);
    }
}

/// A reconnect that succeeds brings the relay back to work whatever failed
/// before it. With a resumed session the relay receives at once and asks
/// for no subscription. Without one it asks for the subscription, takes up
/// no message before the broker accepted it, and then receives.
pub proof fn reconnect_resumes_receiving(
    config: RelayConfig,
    s: RelayState,
    session_present: bool,
    payload: Seq<u8>,
    received_at_ms: i64,
)
    requires
        config.valid(),
        s.well_formed(config),
        s.stage is Reconnecting,
    ensures
        ({
            let (back, step) = next(config, s, EventView::Connected { session_present })->Some_0;
            let receiving = RelayState {
                stage: Stage::Receiving,
                session: SessionState::established(true),
                attempts: 0,
                write_failures: s.write_failures,
            };
            &&& next(config, s, EventView::Connected { session_present }) is Some
            &&& session_present ==> back == receiving && step == quietly(ActionView::Receive)
            &&& !session_present ==> {
                &&& back.stage is Subscribing
                &&& step == quietly(ActionView::Subscribe(relay_subscription()))
                &&& next(config, back, EventView::Message { payload, received_at_ms }) is None
                &&& next(config, back, EventView::Subscribed) == Some(
                    (
                        RelayState {
                            stage: Stage::Receiving,
                            session: SessionState::established(false).with_subscription(),
                            attempts: 0,
                            write_failures: s.write_failures,
                        },
                        quietly(ActionView::Receive),
                    ),
                )
            }
        }),
{
}

/// While it receives or writes, the relay asks for no subscription: the
/// one made after connecting is the only one until the connection is lost.
pub proof fn no_subscription_while_at_work(config: RelayConfig, s: RelayState, event: EventView)
    requires
        s.stage is Receiving || s.stage is Writing,
    ensures
        next(config, s, event) matches Some((_, step)) ==> !(step.action is Subscribe),
{
}

/// A relay that has stopped takes no event.
pub proof fn stopped_is_final(config: RelayConfig, s: RelayState, event: EventView)
    requires
        s.stage is Stopped,
    ensures
        next(config, s, event) is None,
{
}

/// The session of a relay moves as a session may. The one step that makes
/// two moves at once is the loss of the connection, which is followed by
/// the start of a reconnect attempt.
pub proof fn relay_moves_session_as_allowed(config: RelayConfig, s: RelayState, event: EventView)
    requires
        config.valid(),
        s.well_formed(config),
    ensures
        next(config, s, event) matches Some((after, _)) ==> {
            ||| may_follow(s.session.phase, after.session.phase)
            ||| (event == EventView::EndOfData { still_connected: false }
                && s.session.phase is Connected && after.session.phase is Connecting)
        },
{
}

} // verus!
