//! Session state machine of the modem.

use vstd::prelude::*;
use crate::fsm::events::{
    DestinationAddrs, DestinationAddrsView, EmittedEvent, EmittedEventView, FsmAction,
    FsmActionView, FsmEvent, FsmEventView,
};
use crate::fsm::events;
use crate::fsm::mac_map::MacMap;
use crate::fsm::session_common;
use crate::fsm::session_common::{
    build_destination_down, build_destination_up, build_destination_update, build_heartbeat,
    build_session_termination_response, extract_destination_mac, extract_extensions_supported,
    extract_heartbeat_interval, extract_status, local_heartbeat_interval, no_actions, push_action,
    push_cancel, push_down, push_heartbeat_timer, push_init_timer, push_reset, push_termination,
    SessionConfig, SessionConfigView,
};
use crate::fsm::timers::{
    TimerKind, TIMER_HEARTBEAT, TIMER_HEARTBEAT_MISSED, TIMER_SESSION_INIT, TIMER_TERMINATION,
};
use crate::fsm::transaction::{RequestKind, TransactionTracker, TransactionView};
use crate::proto::data_item;
use crate::proto::data_item::{DataItem, DataItemView, PeerFlags};
use crate::proto::duration::Duration;
use crate::proto::ids::{ExtensionId, MessageType};
use crate::proto::mac::MacAddress;
use crate::proto::message::{Message, MessageView};
use crate::proto::metrics::LinkMetrics;
use crate::proto::status::StatusCode;

verus! {

// Session-wide metrics of the Session Initialization Response, which must
// carry all of them. Real values come with each destination.
pub const PLACEHOLDER_DATA_RATE_BPS: u64 = 1_000_000_000;

pub const PLACEHOLDER_RESOURCES: u8 = 100;

pub const PLACEHOLDER_RLQ: u8 = 100;

pub const PLACEHOLDER_MTU: u16 = 1500;

/// States of a session on the modem.
#[derive(Clone, Copy, Debug, PartialEq, Eq, Structural)]
pub enum ModemSessionState {
    Listening,
    AwaitingSessionInit,
    InSession,
    Terminating,
    Terminated,
}

/// What the modem knows of a destination: whether the router has accepted it.
#[derive(Clone, Copy, Debug, PartialEq, Eq, Structural)]
pub struct DestinationState {
    pub announced: bool,
}

#[derive(Debug)]
pub struct ModemSessionFsm {
    pub state: ModemSessionState,
    pub tx: TransactionTracker,
    pub destinations: MacMap<DestinationState>,
    pub config: SessionConfig,
    /// Heartbeat interval that the peer announced in its Session
    /// Initialization; `None` when it announced none.
    pub peer_heartbeat_interval: Option<Duration>,
    /// Extensions that the peer announced in its Session Initialization; empty
    /// when it announced none.
    pub peer_extensions: Vec<ExtensionId>,
}

#[verifier::ext_equal]
pub struct ModemSessionView {
    pub state: ModemSessionState,
    pub tx: TransactionView,
    pub destinations: Map<MacAddress, DestinationState>,
    pub config: SessionConfigView,
    pub peer_heartbeat_interval: Option<Duration>,
    pub peer_extensions: Seq<ExtensionId>,
}

impl View for ModemSessionFsm {
    type V = ModemSessionView;

    open spec fn view(&self) -> ModemSessionView {
        ModemSessionView {
            state: self.state,
            tx: self.tx@,
            destinations: self.destinations@,
            config: self.config@,
            peer_heartbeat_interval: self.peer_heartbeat_interval,
            peer_extensions: self.peer_extensions@,
        }
    }
}

/// The Session Initialization Response that a modem with this configuration
/// sends.
pub open spec fn session_initialization_response(config: SessionConfigView) -> MessageView {
    MessageView::of(
        MessageType::SESSION_INITIALIZATION_RESPONSE,
        seq![
            session_common::status_item(StatusCode(StatusCode::SUCCESS)),
            DataItemView::HeartbeatInterval(config.heartbeat_interval()),
            DataItemView::PeerType {
                flags: PeerFlags { smi: false },
                description: config.peer_description,
            },
            DataItemView::ExtensionsSupported(config.advertised_extensions),
            DataItemView::Mtu(PLACEHOLDER_MTU),
            DataItemView::MaxDataRateReceive(PLACEHOLDER_DATA_RATE_BPS),
            DataItemView::MaxDataRateTransmit(PLACEHOLDER_DATA_RATE_BPS),
            DataItemView::CurrentDataRateReceive(PLACEHOLDER_DATA_RATE_BPS),
            DataItemView::CurrentDataRateTransmit(PLACEHOLDER_DATA_RATE_BPS),
            DataItemView::Latency(Duration { nanos: 0 }),
            DataItemView::Resources(PLACEHOLDER_RESOURCES),
            DataItemView::RelativeLinkQualityReceive(PLACEHOLDER_RLQ),
            DataItemView::RelativeLinkQualityTransmit(PLACEHOLDER_RLQ),
        ],
    )
}

impl ModemSessionView {
    /// A session that has not begun.
    pub open spec fn fresh(config: SessionConfigView) -> Self {
        ModemSessionView {
            state: ModemSessionState::Listening,
            tx: TransactionView::idle(),
            destinations: Map::empty(),
            config,
            peer_heartbeat_interval: None,
            peer_extensions: Seq::empty(),
        }
    }

    /// The same in another state.
    pub open spec fn at(self, state: ModemSessionState) -> Self {
        ModemSessionView { state, ..self }
    }

    /// Nothing happens.
    pub open spec fn stays(self) -> (Self, Seq<FsmActionView>) {
        (self, Seq::empty())
    }

    /// The session is over, after these actions.
    pub open spec fn ends(self, actions: Seq<FsmActionView>) -> (Self, Seq<FsmActionView>) {
        (self.at(ModemSessionState::Terminated), actions)
    }

    /// What an event does before a connection has come in.
    pub open spec fn next_listening(self, event: FsmEventView) -> (Self, Seq<FsmActionView>) {
        match event {
            FsmEventView::TcpAccepted => (
                self.at(ModemSessionState::AwaitingSessionInit),
                seq![session_common::starts_init_timer(self.config)],
            ),
            FsmEventView::AppShutdown { .. } => self.ends(Seq::empty()),
            FsmEventView::TcpClosed => self.ends(Seq::empty()),
            _ => self.stays(),
        }
    }

    /// What an event does while Session Initialization is awaited. A message
    /// that is something else ends the session without a reply.
    pub open spec fn next_awaiting(self, event: FsmEventView) -> (Self, Seq<FsmActionView>) {
        match event {
            FsmEventView::RecvMessage(message) => if message.message_type == MessageType(
                MessageType::SESSION_INITIALIZATION,
            ) {
                let peer_extensions = match message.extensions() {
                    Some(ids) => ids,
                    None => Seq::empty(),
                };
                (
                    ModemSessionView {
                        state: ModemSessionState::InSession,
                        peer_heartbeat_interval: message.heartbeat_interval(),
                        peer_extensions,
                        ..self
                    },
                    seq![
                        session_common::cancels(TIMER_SESSION_INIT),
                        FsmActionView::SendMessage(session_initialization_response(self.config)),
                        session_common::starts_heartbeat_timer(self.config),
                    ] + session_common::resets(message.heartbeat_interval()) + seq![
                        FsmActionView::Emit(EmittedEventView::SessionUp { peer_extensions }),
                    ],
                )
            } else {
                self.ends(
                    seq![
                        session_common::cancels(TIMER_SESSION_INIT),
                        FsmActionView::CloseTcp,
                        session_common::reports_down(StatusCode(StatusCode::INVALID_DATA)),
                    ],
                )
            },
            FsmEventView::TimerExpired(_, TimerKind::SessionInit) => self.ends(
                seq![
                    FsmActionView::CloseTcp,
                    session_common::reports_down(StatusCode(StatusCode::TIMED_OUT)),
                ],
            ),
            FsmEventView::TcpClosed => self.ends(
                seq![
                    session_common::cancels(TIMER_SESSION_INIT),
                    session_common::reports_down(StatusCode(StatusCode::TIMED_OUT)),
                ],
            ),
            FsmEventView::AppShutdown { reason } => self.ends(
                seq![
                    session_common::cancels(TIMER_SESSION_INIT),
                    FsmActionView::CloseTcp,
                    session_common::reports_down(reason),
                ],
            ),
            _ => self.stays(),
        }
    }

    /// Once the router has answered `Destination_Up` for `mac`: the request is
    /// closed; success marks the destination as announced, any other status
    /// drops it, so that adding it again is a clean retry.
    pub open spec fn up_answered(self, mac: MacAddress, status: StatusCode) -> Self {
        let closed = ModemSessionView { tx: self.tx.without_destination(mac), ..self };
        if status == StatusCode(StatusCode::SUCCESS) {
            if self.destinations.contains_key(mac) {
                ModemSessionView {
                    destinations: self.destinations.insert(
                        mac,
                        DestinationState { announced: true },
                    ),
                    ..closed
                }
            } else {
                closed
            }
        } else {
            ModemSessionView { destinations: self.destinations.remove(mac), ..closed }
        }
    }

    /// Once the router has answered `Destination_Down` for `mac`: the request
    /// is closed and the destination dropped.
    pub open spec fn down_answered(self, mac: MacAddress) -> Self {
        ModemSessionView {
            tx: self.tx.without_destination(mac),
            destinations: self.destinations.remove(mac),
            ..self
        }
    }

    /// What a message does during the session. Each that does not end the
    /// session re-arms the missed-heartbeat deadline.
    pub open spec fn next_session_message(self, message: MessageView) -> (
        Self,
        Seq<FsmActionView>,
    ) {
        let code = message.message_type.0;
        let resets = session_common::resets(self.peer_heartbeat_interval);
        if code == MessageType::SESSION_TERMINATION {
            self.ends(
                session_common::cancels_heartbeats() + seq![
                    FsmActionView::SendMessage(MessageView::session_termination_response()),
                    FsmActionView::CloseTcp,
                    session_common::reports_down(message.status_or(StatusCode::SHUTTING_DOWN)),
                ],
            )
        } else if code == MessageType::DESTINATION_UP_RESPONSE {
            match message.mac() {
                Some(mac) => (
                    self.up_answered(mac, message.status_or(StatusCode::SUCCESS)),
                    resets,
                ),
                None => (self, resets),
            }
        } else if code == MessageType::DESTINATION_DOWN_RESPONSE {
            match message.mac() {
                Some(mac) => (self.down_answered(mac), resets),
                None => (self, resets),
            }
        } else {
            (self, resets)
        }
    }

    /// What adding a destination does: `Destination_Up` goes out, unless a
    /// request about the destination is in flight already.
    pub open spec fn next_add(
        self,
        mac: MacAddress,
        metrics: LinkMetrics,
        addrs: DestinationAddrsView,
    ) -> (Self, Seq<FsmActionView>) {
        if self.tx.per_destination.contains_key(mac) {
            self.stays()
        } else {
            (
                ModemSessionView {
                    tx: self.tx.with_destination(mac, RequestKind::DestinationUp),
                    destinations: if self.destinations.contains_key(mac) {
                        self.destinations
                    } else {
                        self.destinations.insert(mac, DestinationState { announced: false })
                    },
                    ..self
                },
                seq![
                    FsmActionView::SendMessage(MessageView::destination_up(mac, metrics, addrs)),
                ],
            )
        }
    }

    /// What dropping a destination does: `Destination_Down` goes out, unless
    /// the destination is not known or a request about it is in flight. The
    /// destination stays until the router has answered.
    pub open spec fn next_drop(self, mac: MacAddress, reason: StatusCode) -> (
        Self,
        Seq<FsmActionView>,
    ) {
        if !self.destinations.contains_key(mac) || self.tx.per_destination.contains_key(mac) {
            self.stays()
        } else {
            (
                ModemSessionView {
                    tx: self.tx.with_destination(mac, RequestKind::DestinationDown),
                    ..self
                },
                seq![FsmActionView::SendMessage(MessageView::destination_down(mac, reason))],
            )
        }
    }

    /// What an event does during the session.
    pub open spec fn next_in_session(self, event: FsmEventView) -> (Self, Seq<FsmActionView>) {
        match event {
            FsmEventView::RecvMessage(message) => self.next_session_message(message),
            FsmEventView::AppAddDestination { mac, metrics, addrs } => self.next_add(
                mac,
                metrics,
                addrs,
            ),
            FsmEventView::AppUpdateMetrics { mac, metrics } => if self.destinations.contains_key(
                mac,
            ) {
                (
                    self,
                    seq![
                        FsmActionView::SendMessage(MessageView::destination_update(mac, metrics)),
                    ],
                )
            } else {
                self.stays()
            },
            FsmEventView::AppDropDestination { mac, reason } => self.next_drop(mac, reason),
            FsmEventView::TimerExpired(_, TimerKind::Heartbeat) => (
                self,
                seq![FsmActionView::SendMessage(MessageView::heartbeat())],
            ),
            FsmEventView::TimerExpired(_, TimerKind::HeartbeatMissed) => (
                self.at(ModemSessionState::Terminating),
                seq![session_common::cancels(TIMER_HEARTBEAT)] + session_common::asks_termination(
                    self.config,
                    StatusCode(StatusCode::TIMED_OUT),
                ),
            ),
            FsmEventView::AppShutdown { reason } => (
                self.at(ModemSessionState::Terminating),
                session_common::cancels_heartbeats() + session_common::asks_termination(
                    self.config,
                    reason,
                ),
            ),
            FsmEventView::TcpClosed => self.ends(
                session_common::cancels_heartbeats() + seq![
                    session_common::reports_down(StatusCode(StatusCode::TIMED_OUT)),
                ],
            ),
            _ => self.stays(),
        }
    }

    /// What an event does while Session Termination Response is awaited.
    pub open spec fn next_terminating(self, event: FsmEventView) -> (Self, Seq<FsmActionView>) {
        match event {
            FsmEventView::RecvMessage(message) => if message.message_type == MessageType(
                MessageType::SESSION_TERMINATION_RESPONSE,
            ) {
                self.ends(
                    seq![
                        session_common::cancels(TIMER_TERMINATION),
                        FsmActionView::CloseTcp,
                        session_common::reports_down(StatusCode(StatusCode::SUCCESS)),
                    ],
                )
            } else {
                self.stays()
            },
            FsmEventView::TimerExpired(_, TimerKind::Termination) => self.ends(
                seq![
                    FsmActionView::CloseTcp,
                    session_common::reports_down(StatusCode(StatusCode::TIMED_OUT)),
                ],
            ),
            FsmEventView::TcpClosed => self.ends(
                seq![
                    session_common::cancels(TIMER_TERMINATION),
                    session_common::reports_down(StatusCode(StatusCode::SUCCESS)),
                ],
            ),
            _ => self.stays(),
        }
    }

    /// What an event does: the session afterwards, and the actions in order.
    pub open spec fn next(self, event: FsmEventView) -> (Self, Seq<FsmActionView>) {
        match self.state {
            ModemSessionState::Listening => self.next_listening(event),
            ModemSessionState::AwaitingSessionInit => self.next_awaiting(event),
            ModemSessionState::InSession => self.next_in_session(event),
            ModemSessionState::Terminating => self.next_terminating(event),
            ModemSessionState::Terminated => self.stays(),
        }
    }
}

fn build_session_initialization_response(config: &SessionConfig) -> (r: Message)
    ensures
        r@ == session_initialization_response(config@),
{
    let r = Message::new(MessageType(MessageType::SESSION_INITIALIZATION_RESPONSE)).with_item(
        DataItem::Status { code: StatusCode(StatusCode::SUCCESS), text: String::new() },
    ).with_item(DataItem::HeartbeatInterval(local_heartbeat_interval(config))).with_item(
        DataItem::PeerType {
            flags: PeerFlags::default(),
            description: config.peer_description.clone(),
        },
    ).with_item(
        DataItem::ExtensionsSupported(data_item::clone_ids(&config.advertised_extensions)),
    ).with_item(DataItem::Mtu(PLACEHOLDER_MTU)).with_item(
        DataItem::MaxDataRateReceive(PLACEHOLDER_DATA_RATE_BPS),
    ).with_item(DataItem::MaxDataRateTransmit(PLACEHOLDER_DATA_RATE_BPS)).with_item(
        DataItem::CurrentDataRateReceive(PLACEHOLDER_DATA_RATE_BPS),
    ).with_item(DataItem::CurrentDataRateTransmit(PLACEHOLDER_DATA_RATE_BPS)).with_item(
        DataItem::Latency(Duration::from_micros(0)),
    ).with_item(DataItem::Resources(PLACEHOLDER_RESOURCES)).with_item(
        DataItem::RelativeLinkQualityReceive(PLACEHOLDER_RLQ),
    ).with_item(DataItem::RelativeLinkQualityTransmit(PLACEHOLDER_RLQ));
    assert(r@.data_items =~~= session_initialization_response(config@).data_items);
    r
}

impl Default for ModemSessionFsm {
    fn default() -> (r: Self)
        ensures
            r@ == ModemSessionView::fresh(SessionConfigView::standard("dlep-modem"@)),
    {
        let standard = SessionConfig::default();
        ModemSessionFsm::with_config(
            SessionConfig {
                peer_description: "dlep-modem".to_owned(),
                heartbeat_interval_ms: standard.heartbeat_interval_ms,
                session_init_timeout: standard.session_init_timeout,
                termination_timeout: standard.termination_timeout,
                advertised_extensions: standard.advertised_extensions,
            },
        )
    }
}

impl ModemSessionFsm {
    pub fn new() -> (r: Self)
        ensures
            r@ == ModemSessionView::fresh(SessionConfigView::standard("dlep-modem"@)),
    {
        ModemSessionFsm::default()
    }

    pub fn with_config(config: SessionConfig) -> (r: Self)
        ensures
            r@ == ModemSessionView::fresh(config@),
    {
        let r = ModemSessionFsm {
            state: ModemSessionState::Listening,
            tx: TransactionTracker::default(),
            destinations: MacMap::new(),
            config,
            peer_heartbeat_interval: None,
            peer_extensions: Vec::new(),
        };
        assert(r@ =~= ModemSessionView::fresh(config@));
        r
    }

    pub fn state(&self) -> (r: ModemSessionState)
        ensures
            r == self@.state,
    {
        self.state
    }

    /// Take one event and return the actions that it calls for, in order.
    pub fn step(&mut self, event: FsmEvent) -> (r: Vec<FsmAction>)
        ensures
            (final(self)@, events::action_views(r@)) == old(self)@.next(event@),
    {
        match self.state {
            ModemSessionState::Listening => self.step_listening(event),
            ModemSessionState::AwaitingSessionInit => self.step_awaiting(event),
            ModemSessionState::InSession => self.step_in_session(event),
            ModemSessionState::Terminating => self.step_terminating(event),
            ModemSessionState::Terminated => no_actions(),
        }
    }

    fn step_listening(&mut self, event: FsmEvent) -> (r: Vec<FsmAction>)
        ensures
            (final(self)@, events::action_views(r@)) == old(self)@.next_listening(event@),
    {
        let ghost expected = self@.next_listening(event@);
        let mut actions = no_actions();
        match event {
            FsmEvent::TcpAccepted => {
                self.state = ModemSessionState::AwaitingSessionInit;
                push_init_timer(&mut actions, &self.config);
            },
            FsmEvent::AppShutdown { .. } => {
                self.state = ModemSessionState::Terminated;
            },
            FsmEvent::TcpClosed => {
                self.state = ModemSessionState::Terminated;
            },
            _ => {},
        }
        assert(events::action_views(actions@) =~= expected.1);
        actions
    }

    fn step_awaiting(&mut self, event: FsmEvent) -> (r: Vec<FsmAction>)
        ensures
            (final(self)@, events::action_views(r@)) == old(self)@.next_awaiting(event@),
    {
        let ghost expected = self@.next_awaiting(event@);
        let mut actions = no_actions();
        match event {
            FsmEvent::RecvMessage(msg) => {
                push_cancel(&mut actions, TIMER_SESSION_INIT);
                if msg.message_type == MessageType(MessageType::SESSION_INITIALIZATION) {
                    self.peer_heartbeat_interval = extract_heartbeat_interval(&msg);
                    self.peer_extensions = match extract_extensions_supported(&msg) {
                        Some(ids) => ids,
                        None => Vec::new(),
                    };
                    self.state = ModemSessionState::InSession;
                    push_action(
                        &mut actions,
                        FsmAction::SendMessage(build_session_initialization_response(&self.config)),
                    );
                    push_heartbeat_timer(&mut actions, &self.config);
                    push_reset(&mut actions, self.peer_heartbeat_interval);
                    let peer_extensions = data_item::clone_ids(&self.peer_extensions);
                    push_action(
                        &mut actions,
                        FsmAction::Emit(EmittedEvent::SessionUp { peer_extensions }),
                    );
                    assert(self@.peer_extensions =~= expected.0.peer_extensions);
                } else {
                    // The modem must not answer, only close.
                    self.state = ModemSessionState::Terminated;
                    push_action(&mut actions, FsmAction::CloseTcp);
                    push_down(&mut actions, StatusCode(StatusCode::INVALID_DATA));
                }
            },
            FsmEvent::TimerExpired(_, TimerKind::SessionInit) => {
                self.state = ModemSessionState::Terminated;
                push_action(&mut actions, FsmAction::CloseTcp);
                push_down(&mut actions, StatusCode(StatusCode::TIMED_OUT));
            },
            FsmEvent::TcpClosed => {
                self.state = ModemSessionState::Terminated;
                push_cancel(&mut actions, TIMER_SESSION_INIT);
                push_down(&mut actions, StatusCode(StatusCode::TIMED_OUT));
            },
            FsmEvent::AppShutdown { reason } => {
                self.state = ModemSessionState::Terminated;
                push_cancel(&mut actions, TIMER_SESSION_INIT);
                push_action(&mut actions, FsmAction::CloseTcp);
                push_down(&mut actions, reason);
            },
            _ => {},
        }
        assert(events::action_views(actions@) =~= expected.1);
        actions
    }

    fn step_session_message(&mut self, msg: Message) -> (r: Vec<FsmAction>)
        ensures
            (final(self)@, events::action_views(r@)) == old(self)@.next_session_message(msg@),
    {
        let ghost expected = self@.next_session_message(msg@);
        let mut actions = no_actions();
        let code: u16 = msg.message_type.0;
        if code == MessageType::SESSION_TERMINATION {
            let status = match extract_status(&msg) {
                Some(code) => code,
                None => StatusCode(StatusCode::SHUTTING_DOWN),
            };
            self.state = ModemSessionState::Terminated;
            push_cancel(&mut actions, TIMER_HEARTBEAT);
            push_cancel(&mut actions, TIMER_HEARTBEAT_MISSED);
            push_action(&mut actions, FsmAction::SendMessage(build_session_termination_response()));
            push_action(&mut actions, FsmAction::CloseTcp);
            push_down(&mut actions, status);
        } else {
            if code == MessageType::DESTINATION_UP_RESPONSE {
                let status = match extract_status(&msg) {
                    Some(code) => code,
                    None => StatusCode(StatusCode::SUCCESS),
                };
                if let Some(mac) = extract_destination_mac(&msg) {
                    self.tx.close_destination(&mac);
                    if status == StatusCode(StatusCode::SUCCESS) {
                        if self.destinations.contains_key(&mac) {
                            self.destinations.insert(mac, DestinationState { announced: true });
                        }
                    } else {
                        self.destinations.remove(&mac);
                    }
                }
            } else if code == MessageType::DESTINATION_DOWN_RESPONSE {
                if let Some(mac) = extract_destination_mac(&msg) {
                    self.tx.close_destination(&mac);
                    self.destinations.remove(&mac);
                }
            }
            push_reset(&mut actions, self.peer_heartbeat_interval);
        }
        assert(events::action_views(actions@) =~= expected.1);
        actions
    }

    fn step_add(&mut self, mac: MacAddress, metrics: LinkMetrics, addrs: DestinationAddrs) -> (r:
        Vec<FsmAction>)
        ensures
            (final(self)@, events::action_views(r@)) == old(self)@.next_add(mac, metrics, addrs@),
    {
        let ghost expected = self@.next_add(mac, metrics, addrs@);
        let mut actions = no_actions();
        if self.tx.open_destination(mac, RequestKind::DestinationUp).is_err() {
            return actions;
        }
        if !self.destinations.contains_key(&mac) {
            self.destinations.insert(mac, DestinationState { announced: false });
        }
        push_action(
            &mut actions,
            FsmAction::SendMessage(build_destination_up(mac, &metrics, &addrs)),
        );
        assert(events::action_views(actions@) =~= expected.1);
        actions
    }

    fn step_drop(&mut self, mac: MacAddress, reason: StatusCode) -> (r: Vec<FsmAction>)
        ensures
            (final(self)@, events::action_views(r@)) == old(self)@.next_drop(mac, reason),
    {
        let ghost expected = self@.next_drop(mac, reason);
        let mut actions = no_actions();
        if !self.destinations.contains_key(&mac) {
            return actions;
        }
        if self.tx.open_destination(mac, RequestKind::DestinationDown).is_err() {
            return actions;
        }
        push_action(&mut actions, FsmAction::SendMessage(build_destination_down(mac, reason)));
        assert(events::action_views(actions@) =~= expected.1);
        actions
    }

    fn step_in_session(&mut self, event: FsmEvent) -> (r: Vec<FsmAction>)
        ensures
            (final(self)@, events::action_views(r@)) == old(self)@.next_in_session(event@),
    {
        let ghost expected = self@.next_in_session(event@);
        let mut actions = no_actions();
        match event {
            FsmEvent::RecvMessage(msg) => {
                return self.step_session_message(msg);
            },
            FsmEvent::AppAddDestination { mac, metrics, addrs } => {
                return self.step_add(mac, metrics, addrs);
            },
            FsmEvent::AppUpdateMetrics { mac, metrics } => {
                // An update for a destination that the router never heard of
                // is not sent.
                if self.destinations.contains_key(&mac) {
                    push_action(
                        &mut actions,
                        FsmAction::SendMessage(build_destination_update(mac, &metrics)),
                    );
                }
            },
            FsmEvent::AppDropDestination { mac, reason } => {
                return self.step_drop(mac, reason);
            },
            FsmEvent::TimerExpired(_, TimerKind::Heartbeat) => {
                push_action(&mut actions, FsmAction::SendMessage(build_heartbeat()));
            },
            FsmEvent::TimerExpired(_, TimerKind::HeartbeatMissed) => {
                // Two heartbeats in a row were missed.
                self.state = ModemSessionState::Terminating;
                push_cancel(&mut actions, TIMER_HEARTBEAT);
                push_termination(&mut actions, &self.config, StatusCode(StatusCode::TIMED_OUT));
            },
            FsmEvent::AppShutdown { reason } => {
                self.state = ModemSessionState::Terminating;
                push_cancel(&mut actions, TIMER_HEARTBEAT);
                push_cancel(&mut actions, TIMER_HEARTBEAT_MISSED);
                push_termination(&mut actions, &self.config, reason);
            },
            FsmEvent::TcpClosed => {
                self.state = ModemSessionState::Terminated;
                push_cancel(&mut actions, TIMER_HEARTBEAT);
                push_cancel(&mut actions, TIMER_HEARTBEAT_MISSED);
                push_down(&mut actions, StatusCode(StatusCode::TIMED_OUT));
            },
            _ => {},
        }
        assert(events::action_views(actions@) =~= expected.1);
        actions
    }

    fn step_terminating(&mut self, event: FsmEvent) -> (r: Vec<FsmAction>)
        ensures
            (final(self)@, events::action_views(r@)) == old(self)@.next_terminating(event@),
    {
        let ghost expected = self@.next_terminating(event@);
        let mut actions = no_actions();
        match event {
            FsmEvent::RecvMessage(msg) => {
                if msg.message_type == MessageType(MessageType::SESSION_TERMINATION_RESPONSE) {
                    self.state = ModemSessionState::Terminated;
                    push_cancel(&mut actions, TIMER_TERMINATION);
                    push_action(&mut actions, FsmAction::CloseTcp);
                    push_down(&mut actions, StatusCode(StatusCode::SUCCESS));
                }
            },
            FsmEvent::TimerExpired(_, TimerKind::Termination) => {
                self.state = ModemSessionState::Terminated;
                push_action(&mut actions, FsmAction::CloseTcp);
                push_down(&mut actions, StatusCode(StatusCode::TIMED_OUT));
            },
            FsmEvent::TcpClosed => {
                // The peer may be shutting down as well: a transport that drops
                // now counts as success.
                self.state = ModemSessionState::Terminated;
                push_cancel(&mut actions, TIMER_TERMINATION);
                push_down(&mut actions, StatusCode(StatusCode::SUCCESS));
            },
            _ => {},
        }
        assert(events::action_views(actions@) =~= expected.1);
        actions
    }
}

} // verus!
