//! Session state machine of the router.

use vstd::prelude::*;
use crate::fsm::events::{EmittedEvent, EmittedEventView, FsmAction, FsmActionView, FsmEvent, FsmEventView};
use crate::fsm::events;
use crate::fsm::mac_map::MacMap;
use crate::fsm::session_common;
use crate::fsm::session_common::{
    build_destination_down_response, build_destination_up_response, build_heartbeat,
    build_session_termination_response, drop_session_actions, extract_destination_addrs,
    extract_destination_mac, extract_extensions_supported, extract_heartbeat_interval,
    extract_link_metrics, extract_status, local_heartbeat_interval, no_actions, push_action,
    push_cancel, push_down, push_heartbeat_timer, push_init_timer, push_reset, push_termination,
    SessionConfig, SessionConfigView,
};
use crate::fsm::timers::{
    TimerKind, TIMER_HEARTBEAT, TIMER_HEARTBEAT_MISSED, TIMER_SESSION_INIT, TIMER_TERMINATION,
};
use crate::fsm::transaction::{TransactionTracker, TransactionView};
use crate::proto::data_item;
use crate::proto::data_item::{DataItem, DataItemView, PeerFlags};
use crate::proto::duration::Duration;
use crate::proto::ids::{ExtensionId, MessageType};
use crate::proto::mac::MacAddress;
use crate::proto::message::{Message, MessageView};
use crate::proto::metrics::LinkMetrics;
use crate::proto::status::StatusCode;

verus! {

/// States of a session on the router. The runtime connects first and reports
/// `TcpConnected` when that is done, so there is no state for connecting.
#[derive(Clone, Copy, Debug, PartialEq, Eq, Structural)]
pub enum RouterSessionState {
    Closed,
    SessionInitPending,
    InSession,
    Terminating,
    Terminated,
}

/// What the router knows of a destination.
#[derive(Clone, Copy, Debug, PartialEq, Eq, Structural)]
pub struct DestinationState {
    pub up: bool,
}

#[derive(Debug)]
pub struct RouterSessionFsm {
    pub state: RouterSessionState,
    pub tx: TransactionTracker,
    pub destinations: MacMap<DestinationState>,
    pub config: SessionConfig,
    /// Heartbeat interval that the peer announced in its Session
    /// Initialization Response; `None` when it announced none.
    pub peer_heartbeat_interval: Option<Duration>,
    /// Extensions that the peer announced in its Session Initialization
    /// Response; empty when it announced none.
    pub peer_extensions: Vec<ExtensionId>,
}

#[verifier::ext_equal]
pub struct RouterSessionView {
    pub state: RouterSessionState,
    pub tx: TransactionView,
    pub destinations: Map<MacAddress, DestinationState>,
    pub config: SessionConfigView,
    pub peer_heartbeat_interval: Option<Duration>,
    pub peer_extensions: Seq<ExtensionId>,
}

impl View for RouterSessionFsm {
    type V = RouterSessionView;

    open spec fn view(&self) -> RouterSessionView {
        RouterSessionView {
            state: self.state,
            tx: self.tx@,
            destinations: self.destinations@,
            config: self.config@,
            peer_heartbeat_interval: self.peer_heartbeat_interval,
            peer_extensions: self.peer_extensions@,
        }
    }
}

/// The Session Initialization that a router with this configuration sends.
pub open spec fn session_initialization(config: SessionConfigView) -> MessageView {
    MessageView::of(
        MessageType::SESSION_INITIALIZATION,
        seq![
            DataItemView::HeartbeatInterval(config.heartbeat_interval()),
            DataItemView::PeerType {
                flags: PeerFlags { smi: false },
                description: config.peer_description,
            },
            DataItemView::ExtensionsSupported(config.advertised_extensions),
        ],
    )
}

impl RouterSessionView {
    /// A session that has not begun.
    pub open spec fn fresh(config: SessionConfigView) -> Self {
        RouterSessionView {
            state: RouterSessionState::Closed,
            tx: TransactionView::idle(),
            destinations: Map::empty(),
            config,
            peer_heartbeat_interval: None,
            peer_extensions: Seq::empty(),
        }
    }

    /// The same in another state.
    pub open spec fn at(self, state: RouterSessionState) -> Self {
        RouterSessionView { state, ..self }
    }

    /// Nothing happens.
    pub open spec fn stays(self) -> (Self, Seq<FsmActionView>) {
        (self, Seq::empty())
    }

    /// The session is over, after these actions.
    pub open spec fn ends(self, actions: Seq<FsmActionView>) -> (Self, Seq<FsmActionView>) {
        (self.at(RouterSessionState::Terminated), actions)
    }

    /// What an event does before the session has begun.
    pub open spec fn next_closed(self, event: FsmEventView) -> (Self, Seq<FsmActionView>) {
        match event {
            FsmEventView::TcpConnected => (
                self.at(RouterSessionState::SessionInitPending),
                seq![
                    FsmActionView::SendMessage(session_initialization(self.config)),
                    session_common::starts_init_timer(self.config),
                ],
            ),
            FsmEventView::AppShutdown { .. } => self.ends(Seq::empty()),
            FsmEventView::TcpClosed => self.ends(Seq::empty()),
            _ => self.stays(),
        }
    }

    /// What a message does while Session Initialization Response is awaited:
    /// the response begins the session or ends it, as its status says; any
    /// other message ends it without a reply.
    pub open spec fn next_init_message(self, message: MessageView) -> (Self, Seq<FsmActionView>) {
        if message.message_type == MessageType(MessageType::SESSION_INITIALIZATION_RESPONSE) {
            let status = message.status_or(StatusCode::SUCCESS);
            if status.0 >= 128 {
                self.ends(
                    seq![
                        session_common::cancels(TIMER_SESSION_INIT),
                        FsmActionView::CloseTcp,
                        session_common::reports_down(status),
                    ],
                )
            } else {
                let peer_extensions = match message.extensions() {
                    Some(ids) => ids,
                    None => Seq::empty(),
                };
                (
                    RouterSessionView {
                        state: RouterSessionState::InSession,
                        peer_heartbeat_interval: message.heartbeat_interval(),
                        peer_extensions,
                        ..self
                    },
                    seq![
                        session_common::cancels(TIMER_SESSION_INIT),
                        session_common::starts_heartbeat_timer(self.config),
                    ] + session_common::resets(message.heartbeat_interval()) + seq![
                        FsmActionView::Emit(EmittedEventView::SessionUp { peer_extensions }),
                    ],
                )
            }
        } else {
            self.ends(
                seq![
                    session_common::cancels(TIMER_SESSION_INIT),
                    FsmActionView::CloseTcp,
                    session_common::reports_down(StatusCode(StatusCode::INVALID_DATA)),
                ],
            )
        }
    }

    /// What an event does while Session Initialization Response is awaited.
    pub open spec fn next_init_pending(self, event: FsmEventView) -> (Self, Seq<FsmActionView>) {
        match event {
            FsmEventView::RecvMessage(message) => self.next_init_message(message),
            FsmEventView::TimerExpired(_, TimerKind::SessionInit) => self.ends(
                seq![
                    FsmActionView::CloseTcp,
                    session_common::reports_down(StatusCode(StatusCode::TIMED_OUT)),
                ],
            ),
            FsmEventView::TcpClosed => self.ends(
                seq![session_common::reports_down(StatusCode(StatusCode::TIMED_OUT))],
            ),
            FsmEventView::AppShutdown { reason } => self.ends(
                seq![
                    session_common::cancels(TIMER_SESSION_INIT),
                    FsmActionView::CloseTcp,
                    session_common::reports_down(reason),
                ],
            ),
            _ => self.stays(),
        }
    }

    /// What a message does during the session. Each that does not end the
    /// session re-arms the missed-heartbeat deadline, and one that updates or
    /// takes down a destination without saying which does nothing more.
    pub open spec fn next_session_message(self, message: MessageView) -> (
        Self,
        Seq<FsmActionView>,
    ) {
        let code = message.message_type.0;
        let resets = session_common::resets(self.peer_heartbeat_interval);
        if code == MessageType::SESSION_TERMINATION {
            self.ends(
                session_common::cancels_heartbeats() + seq![
                    FsmActionView::SendMessage(MessageView::session_termination_response()),
                    FsmActionView::CloseTcp,
                    session_common::reports_down(message.status_or(StatusCode::SHUTTING_DOWN)),
                ],
            )
        } else if code == MessageType::DESTINATION_UP {
            match message.mac() {
                None => self.ends(session_common::drops_session()),
                Some(mac) => (
                    RouterSessionView {
                        destinations: self.destinations.insert(mac, DestinationState { up: true }),
                        ..self
                    },
                    seq![
                        FsmActionView::SendMessage(
                            MessageView::destination_up_response(
                                mac,
                                StatusCode(StatusCode::SUCCESS),
                            ),
                        ),
                        FsmActionView::Emit(
                            EmittedEventView::DestinationUp {
                                mac,
                                metrics: message.link_metrics_or_zero(),
                                addrs: session_common::addrs_of(message.data_items),
                            },
                        ),
                    ] + resets,
                ),
            }
        } else if code == MessageType::DESTINATION_UPDATE {
            match message.mac() {
                None => (self, resets),
                Some(mac) => (
                    self,
                    seq![
                        FsmActionView::Emit(
                            EmittedEventView::DestinationUpdate {
                                mac,
                                metrics: message.link_metrics_or_zero(),
                            },
                        ),
                    ] + resets,
                ),
            }
        } else if code == MessageType::DESTINATION_DOWN {
            match message.mac() {
                None => (self, resets),
                Some(mac) => (
                    RouterSessionView { destinations: self.destinations.remove(mac), ..self },
                    seq![
                        FsmActionView::SendMessage(
                            MessageView::destination_down_response(
                                mac,
                                StatusCode(StatusCode::SUCCESS),
                            ),
                        ),
                        FsmActionView::Emit(
                            EmittedEventView::DestinationDown {
                                mac,
                                reason: message.status_or(StatusCode::SUCCESS),
                            },
                        ),
                    ] + resets,
                ),
            }
        } else {
            (self, resets)
        }
    }

    /// What an event does during the session.
    pub open spec fn next_in_session(self, event: FsmEventView) -> (Self, Seq<FsmActionView>) {
        match event {
            FsmEventView::RecvMessage(message) => self.next_session_message(message),
            FsmEventView::TimerExpired(_, TimerKind::Heartbeat) => (
                self,
                seq![FsmActionView::SendMessage(MessageView::heartbeat())],
            ),
            FsmEventView::TimerExpired(_, TimerKind::HeartbeatMissed) => (
                self.at(RouterSessionState::Terminating),
                seq![session_common::cancels(TIMER_HEARTBEAT)] + session_common::asks_termination(
                    self.config,
                    StatusCode(StatusCode::TIMED_OUT),
                ),
            ),
            FsmEventView::AppShutdown { reason } => (
                self.at(RouterSessionState::Terminating),
                session_common::cancels_heartbeats() + session_common::asks_termination(
                    self.config,
                    reason,
                ),
            ),
            FsmEventView::TcpClosed => self.ends(
                session_common::cancels_heartbeats() + seq![
                    session_common::reports_down(StatusCode(StatusCode::TIMED_OUT)),
                ],
            ),
            _ => self.stays(),
        }
    }

    /// What an event does while Session Termination Response is awaited.
    pub open spec fn next_terminating(self, event: FsmEventView) -> (Self, Seq<FsmActionView>) {
        match event {
            FsmEventView::RecvMessage(message) => if message.message_type == MessageType(
                MessageType::SESSION_TERMINATION_RESPONSE,
            ) {
                self.ends(
                    seq![
                        session_common::cancels(TIMER_TERMINATION),
                        FsmActionView::CloseTcp,
                        session_common::reports_down(StatusCode(StatusCode::SUCCESS)),
                    ],
                )
            } else {
                self.stays()
            },
            FsmEventView::TimerExpired(_, TimerKind::Termination) => self.ends(
                seq![
                    FsmActionView::CloseTcp,
                    session_common::reports_down(StatusCode(StatusCode::TIMED_OUT)),
                ],
            ),
            FsmEventView::TcpClosed => self.ends(
                seq![
                    session_common::cancels(TIMER_TERMINATION),
                    session_common::reports_down(StatusCode(StatusCode::SUCCESS)),
                ],
            ),
            _ => self.stays(),
        }
    }

    /// What an event does: the session afterwards, and the actions in order.
    pub open spec fn next(self, event: FsmEventView) -> (Self, Seq<FsmActionView>) {
        match self.state {
            RouterSessionState::Closed => self.next_closed(event),
            RouterSessionState::SessionInitPending => self.next_init_pending(event),
            RouterSessionState::InSession => self.next_in_session(event),
            RouterSessionState::Terminating => self.next_terminating(event),
            RouterSessionState::Terminated => self.stays(),
        }
    }
}

fn build_session_initialization(config: &SessionConfig) -> (r: Message)
    ensures
        r@ == session_initialization(config@),
{
    let r = Message::new(MessageType(MessageType::SESSION_INITIALIZATION)).with_item(
        DataItem::HeartbeatInterval(local_heartbeat_interval(config)),
    ).with_item(
        DataItem::PeerType {
            flags: PeerFlags::default(),
            description: config.peer_description.clone(),
        },
    ).with_item(
        DataItem::ExtensionsSupported(data_item::clone_ids(&config.advertised_extensions)),
    );
    assert(r@ =~= session_initialization(config@));
    r
}

impl Default for RouterSessionFsm {
    fn default() -> (r: Self)
        ensures
            r@ == RouterSessionView::fresh(SessionConfigView::standard("dlep-router"@)),
    {
        RouterSessionFsm::with_config(SessionConfig::default())
    }
}

impl RouterSessionFsm {
    pub fn new() -> (r: Self)
        ensures
            r@ == RouterSessionView::fresh(SessionConfigView::standard("dlep-router"@)),
    {
        RouterSessionFsm::default()
    }

    pub fn with_config(config: SessionConfig) -> (r: Self)
        ensures
            r@ == RouterSessionView::fresh(config@),
    {
        let r = RouterSessionFsm {
            state: RouterSessionState::Closed,
            tx: TransactionTracker::default(),
            destinations: MacMap::new(),
            config,
            peer_heartbeat_interval: None,
            peer_extensions: Vec::new(),
        };
        assert(r@ =~= RouterSessionView::fresh(config@));
        r
    }

    pub fn state(&self) -> (r: RouterSessionState)
        ensures
            r == self@.state,
    {
        self.state
    }

    /// Take one event and return the actions that it calls for, in order.
    pub fn step(&mut self, event: FsmEvent) -> (r: Vec<FsmAction>)
        ensures
            (final(self)@, events::action_views(r@)) == old(self)@.next(event@),
    {
        match self.state {
            RouterSessionState::Closed => self.step_closed(event),
            RouterSessionState::SessionInitPending => self.step_init_pending(event),
            RouterSessionState::InSession => self.step_in_session(event),
            RouterSessionState::Terminating => self.step_terminating(event),
            RouterSessionState::Terminated => no_actions(),
        }
    }

    fn step_closed(&mut self, event: FsmEvent) -> (r: Vec<FsmAction>)
        ensures
            (final(self)@, events::action_views(r@)) == old(self)@.next_closed(event@),
    {
        let ghost expected = self@.next_closed(event@);
        let mut actions = no_actions();
        match event {
            FsmEvent::TcpConnected => {
                self.state = RouterSessionState::SessionInitPending;
                push_action(
                    &mut actions,
                    FsmAction::SendMessage(build_session_initialization(&self.config)),
                );
                push_init_timer(&mut actions, &self.config);
            },
            FsmEvent::AppShutdown { .. } => {
                self.state = RouterSessionState::Terminated;
            },
            FsmEvent::TcpClosed => {
                self.state = RouterSessionState::Terminated;
            },
            _ => {},
        }
        assert(events::action_views(actions@) =~= expected.1);
        actions
    }

    fn step_init_pending(&mut self, event: FsmEvent) -> (r: Vec<FsmAction>)
        ensures
            (final(self)@, events::action_views(r@)) == old(self)@.next_init_pending(event@),
    {
        let ghost expected = self@.next_init_pending(event@);
        let mut actions = no_actions();
        match event {
            FsmEvent::RecvMessage(msg) => {
                if msg.message_type == MessageType(MessageType::SESSION_INITIALIZATION_RESPONSE) {
                    let status = match extract_status(&msg) {
                        Some(code) => code,
                        None => StatusCode(StatusCode::SUCCESS),
                    };
                    push_cancel(&mut actions, TIMER_SESSION_INIT);
                    if status.terminates_session() {
                        self.state = RouterSessionState::Terminated;
                        push_action(&mut actions, FsmAction::CloseTcp);
                        push_down(&mut actions, status);
                    } else {
                        self.peer_heartbeat_interval = extract_heartbeat_interval(&msg);
                        self.peer_extensions = match extract_extensions_supported(&msg) {
                            Some(ids) => ids,
                            None => Vec::new(),
                        };
                        self.state = RouterSessionState::InSession;
                        push_heartbeat_timer(&mut actions, &self.config);
                        push_reset(&mut actions, self.peer_heartbeat_interval);
                        let peer_extensions = data_item::clone_ids(&self.peer_extensions);
                        push_action(
                            &mut actions,
                            FsmAction::Emit(EmittedEvent::SessionUp { peer_extensions }),
                        );
                        assert(self@.peer_extensions =~= expected.0.peer_extensions);
                    }
                } else {
                    // Out of sequence: drop the connection now rather than wait
                    // for the timer.
                    self.state = RouterSessionState::Terminated;
                    push_cancel(&mut actions, TIMER_SESSION_INIT);
                    push_action(&mut actions, FsmAction::CloseTcp);
                    push_down(&mut actions, StatusCode(StatusCode::INVALID_DATA));
                }
            },
            FsmEvent::TimerExpired(_, TimerKind::SessionInit) => {
                self.state = RouterSessionState::Terminated;
                push_action(&mut actions, FsmAction::CloseTcp);
                push_down(&mut actions, StatusCode(StatusCode::TIMED_OUT));
            },
            FsmEvent::TcpClosed => {
                self.state = RouterSessionState::Terminated;
                push_down(&mut actions, StatusCode(StatusCode::TIMED_OUT));
            },
            FsmEvent::AppShutdown { reason } => {
                self.state = RouterSessionState::Terminated;
                push_cancel(&mut actions, TIMER_SESSION_INIT);
                push_action(&mut actions, FsmAction::CloseTcp);
                push_down(&mut actions, reason);
            },
            _ => {},
        }
        assert(events::action_views(actions@) =~= expected.1);
        actions
    }

    /// Metrics that a message reports, all zero when it reports none.
    fn metrics_in(msg: &Message) -> (r: LinkMetrics)
        ensures
            r == msg@.link_metrics_or_zero(),
    {
        match extract_link_metrics(msg) {
            Some(m) => m,
            None => LinkMetrics::default(),
        }
    }

    fn step_session_message(&mut self, msg: Message) -> (r: Vec<FsmAction>)
        ensures
            (final(self)@, events::action_views(r@)) == old(self)@.next_session_message(msg@),
    {
        let ghost expected = self@.next_session_message(msg@);
        let mut actions = no_actions();
        let code: u16 = msg.message_type.0;
        if code == MessageType::SESSION_TERMINATION {
            let status = match extract_status(&msg) {
                Some(code) => code,
                None => StatusCode(StatusCode::SHUTTING_DOWN),
            };
            self.state = RouterSessionState::Terminated;
            push_cancel(&mut actions, TIMER_HEARTBEAT);
            push_cancel(&mut actions, TIMER_HEARTBEAT_MISSED);
            push_action(&mut actions, FsmAction::SendMessage(build_session_termination_response()));
            push_action(&mut actions, FsmAction::CloseTcp);
            push_down(&mut actions, status);
        } else if code == MessageType::DESTINATION_UP {
            let mac = match extract_destination_mac(&msg) {
                Some(mac) => mac,
                None => {
                    // A destination that comes up without an address cannot be
                    // reported.
                    self.state = RouterSessionState::Terminated;
                    return drop_session_actions();
                },
            };
            let metrics = Self::metrics_in(&msg);
            let addrs = extract_destination_addrs(&msg);
            self.destinations.insert(mac, DestinationState { up: true });
            push_action(
                &mut actions,
                FsmAction::SendMessage(
                    build_destination_up_response(mac, StatusCode(StatusCode::SUCCESS)),
                ),
            );
            push_action(
                &mut actions,
                FsmAction::Emit(EmittedEvent::DestinationUp { mac, metrics, addrs }),
            );
            push_reset(&mut actions, self.peer_heartbeat_interval);
        } else if code == MessageType::DESTINATION_UPDATE {
            if let Some(mac) = extract_destination_mac(&msg) {
                let metrics = Self::metrics_in(&msg);
                push_action(
                    &mut actions,
                    FsmAction::Emit(EmittedEvent::DestinationUpdate { mac, metrics }),
                );
            }
            push_reset(&mut actions, self.peer_heartbeat_interval);
        } else if code == MessageType::DESTINATION_DOWN {
            if let Some(mac) = extract_destination_mac(&msg) {
                let reason = match extract_status(&msg) {
                    Some(code) => code,
                    None => StatusCode(StatusCode::SUCCESS),
                };
                self.destinations.remove(&mac);
                push_action(
                    &mut actions,
                    FsmAction::SendMessage(
                        build_destination_down_response(mac, StatusCode(StatusCode::SUCCESS)),
                    ),
                );
                push_action(
                    &mut actions,
                    FsmAction::Emit(EmittedEvent::DestinationDown { mac, reason }),
                );
            }
            push_reset(&mut actions, self.peer_heartbeat_interval);
        } else {
            // Any other message is a sign of life and nothing more.
            push_reset(&mut actions, self.peer_heartbeat_interval);
        }
        assert(events::action_views(actions@) =~= expected.1);
        actions
    }

    fn step_in_session(&mut self, event: FsmEvent) -> (r: Vec<FsmAction>)
        ensures
            (final(self)@, events::action_views(r@)) == old(self)@.next_in_session(event@),
    {
        let ghost expected = self@.next_in_session(event@);
        let mut actions = no_actions();
        match event {
            FsmEvent::RecvMessage(msg) => {
                return self.step_session_message(msg);
            },
            FsmEvent::TimerExpired(_, TimerKind::Heartbeat) => {
                push_action(&mut actions, FsmAction::SendMessage(build_heartbeat()));
            },
            FsmEvent::TimerExpired(_, TimerKind::HeartbeatMissed) => {
                // Two heartbeats in a row were missed.
                self.state = RouterSessionState::Terminating;
                push_cancel(&mut actions, TIMER_HEARTBEAT);
                push_termination(&mut actions, &self.config, StatusCode(StatusCode::TIMED_OUT));
            },
            FsmEvent::AppShutdown { reason } => {
                self.state = RouterSessionState::Terminating;
                push_cancel(&mut actions, TIMER_HEARTBEAT);
                push_cancel(&mut actions, TIMER_HEARTBEAT_MISSED);
                push_termination(&mut actions, &self.config, reason);
            },
            FsmEvent::TcpClosed => {
                self.state = RouterSessionState::Terminated;
                push_cancel(&mut actions, TIMER_HEARTBEAT);
                push_cancel(&mut actions, TIMER_HEARTBEAT_MISSED);
                push_down(&mut actions, StatusCode(StatusCode::TIMED_OUT));
            },
            _ => {},
        }
        assert(events::action_views(actions@) =~= expected.1);
        actions
    }

    fn step_terminating(&mut self, event: FsmEvent) -> (r: Vec<FsmAction>)
        ensures
            (final(self)@, events::action_views(r@)) == old(self)@.next_terminating(event@),
    {
        let ghost expected = self@.next_terminating(event@);
        let mut actions = no_actions();
        match event {
            FsmEvent::RecvMessage(msg) => {
                if msg.message_type == MessageType(MessageType::SESSION_TERMINATION_RESPONSE) {
                    self.state = RouterSessionState::Terminated;
                    push_cancel(&mut actions, TIMER_TERMINATION);
                    push_action(&mut actions, FsmAction::CloseTcp);
                    push_down(&mut actions, StatusCode(StatusCode::SUCCESS));
                }
            },
            FsmEvent::TimerExpired(_, TimerKind::Termination) => {
                self.state = RouterSessionState::Terminated;
                push_action(&mut actions, FsmAction::CloseTcp);
                push_down(&mut actions, StatusCode(StatusCode::TIMED_OUT));
            },
            FsmEvent::TcpClosed => {
                // The peer may be shutting down as well: a transport that drops
                // now counts as success.
                self.state = RouterSessionState::Terminated;
                push_cancel(&mut actions, TIMER_TERMINATION);
                push_down(&mut actions, StatusCode(StatusCode::SUCCESS));
            },
            _ => {},
        }
        assert(events::action_views(actions@) =~= expected.1);
        actions
    }
}

} // verus!
