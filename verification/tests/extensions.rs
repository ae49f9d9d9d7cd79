//! Extensions: announcing and negotiating.

use dlep::ext::{
    ids_in_use, is_core_message, left_for_core, state_change, DlepExtension, ExtHandled,
    ExtensionRegistry, Role, StateChange,
};
use dlep::fsm::events::{DestinationAddrs, EmittedEvent};
use dlep::proto::data_item::DataItem;
use dlep::proto::ids::{ExtensionId, MessageType};
use dlep::proto::mac::MacAddress;
use dlep::proto::metrics::LinkMetrics;
use dlep::proto::status::StatusCode;

struct Plugin {
    name: &'static str,
    ids: Vec<ExtensionId>,
    wants: Option<ExtensionId>,
}

impl DlepExtension for Plugin {
    fn advertised_ids(&self) -> &[ExtensionId] {
        &self.ids
    }

    fn on_negotiated(&self, remote_ids: &[ExtensionId]) -> bool {
        match self.wants {
            Some(id) => remote_ids.contains(&id),
            None => true,
        }
    }
}

/// Overrides nothing that has a default.
struct Passive {
    ids: [ExtensionId; 1],
}

impl DlepExtension for Passive {
    fn advertised_ids(&self) -> &[ExtensionId] {
        &self.ids
    }
}

fn plugin(name: &'static str, ids: &[u16], wants: Option<u16>) -> Plugin {
    Plugin {
        name,
        ids: ids.iter().map(|id| ExtensionId(*id)).collect(),
        wants: wants.map(ExtensionId),
    }
}

fn ids(raw: &[u16]) -> Vec<ExtensionId> {
    raw.iter().map(|id| ExtensionId(*id)).collect()
}

#[test]
fn registry_without_extensions_announces_nothing() {
    let registry: ExtensionRegistry<Plugin> = ExtensionRegistry::new();
    assert!(registry.advertised().is_empty());
    assert!(registry.negotiate(&ids(&[1])).is_empty());
    assert!(registry.iter().is_empty());
}

#[test]
fn announced_ids_are_in_order_and_once_each() {
    let mut registry = ExtensionRegistry::new();
    registry.register(plugin("a", &[0xF000, 3, 7], None));
    registry.register(plugin("b", &[], None));
    registry.register(plugin("c", &[7, 1, 0xF000, 1], None));
    assert_eq!(registry.advertised(), ids(&[1, 3, 7, 0xF000]));
}

#[test]
fn order_of_registration_does_not_change_what_is_announced() {
    let mut one = ExtensionRegistry::new();
    one.register(plugin("a", &[5, 2], None));
    one.register(plugin("b", &[9, 2], None));
    let mut other = ExtensionRegistry::new();
    other.register(plugin("b", &[2, 9], None));
    other.register(plugin("a", &[2, 5], None));
    assert_eq!(one.advertised(), other.advertised());
}

#[test]
fn extensions_that_accept_take_part_in_order() {
    let mut registry = ExtensionRegistry::new();
    registry.register(plugin("first", &[1], Some(1)));
    registry.register(plugin("refuses", &[2], Some(2)));
    registry.register(plugin("always", &[3], None));
    registry.register(plugin("last", &[4], Some(4)));
    let accepted: Vec<&str> = registry
        .negotiate(&ids(&[4, 1]))
        .iter()
        .map(|e| e.name)
        .collect();
    assert_eq!(accepted, vec!["first", "always", "last"]);
    assert_eq!(registry.iter().len(), 4);
}

#[test]
fn extension_accepts_unless_it_says_otherwise() {
    let mut registry = ExtensionRegistry::new();
    registry.register(Passive {
        ids: [ExtensionId(0xF000)],
    });
    assert_eq!(registry.negotiate(&[]).len(), 1);
    assert_eq!(registry.advertised(), ids(&[0xF000]));
}

#[test]
fn ids_in_use_are_those_of_both_sides() {
    let accepted = vec![
        plugin("a", &[9, 1, 5], None),
        plugin("b", &[5, 2], None),
        plugin("c", &[], None),
    ];
    assert_eq!(ids_in_use(&accepted, &ids(&[7, 5, 9, 5])), ids(&[5, 9]));
    assert!(ids_in_use(&accepted, &ids(&[3])).is_empty());
    assert!(ids_in_use(&accepted, &[]).is_empty());
    let nobody: Vec<Plugin> = Vec::new();
    assert!(ids_in_use(&nobody, &ids(&[5])).is_empty());
}

#[test]
fn message_types_above_the_assigned_ones_belong_to_extensions() {
    assert!(!is_core_message(MessageType(0)));
    for code in 1..=16u16 {
        assert!(is_core_message(MessageType(code)));
    }
    assert!(!is_core_message(MessageType(17)));
    assert!(!is_core_message(MessageType(0xF000)));
}

#[test]
fn roles_tell_themselves_apart() {
    assert!(Role::Router.is_router() && !Role::Router.is_modem());
    assert!(Role::Modem.is_modem() && !Role::Modem.is_router());
}

#[test]
fn extensions_hear_of_sessions_and_destinations() {
    let mac = MacAddress::new_eui48([1, 2, 3, 4, 5, 6]);
    let up = EmittedEvent::SessionUp {
        peer_extensions: vec![],
    };
    assert!(matches!(
        state_change(&up),
        Some(StateChange::Session(s)) if s.up
    ));
    let down = EmittedEvent::SessionDown(StatusCode(0));
    assert!(matches!(
        state_change(&down),
        Some(StateChange::Session(s)) if !s.up
    ));
    let came = EmittedEvent::DestinationUp {
        mac,
        metrics: LinkMetrics {
            mtu: 1500,
            ..LinkMetrics::default()
        },
        addrs: DestinationAddrs::default(),
    };
    match state_change(&came) {
        Some(StateChange::Destination(got, state)) => {
            assert_eq!(got, mac);
            assert!(state.up);
            assert_eq!(state.last_status, StatusCode(StatusCode::SUCCESS));
            assert_eq!(state.metrics.unwrap().mtu, 1500);
        }
        other => panic!("expected a destination, got {other:?}"),
    }
    let went = EmittedEvent::DestinationDown {
        mac,
        reason: StatusCode(StatusCode::TIMED_OUT),
    };
    match state_change(&went) {
        Some(StateChange::Destination(_, state)) => {
            assert!(!state.up && state.metrics.is_none());
            assert_eq!(state.last_status, StatusCode(132));
        }
        other => panic!("expected a destination, got {other:?}"),
    }
    let update = EmittedEvent::DestinationUpdate {
        mac,
        metrics: LinkMetrics::default(),
    };
    assert!(state_change(&update).is_none());
}

#[test]
fn handled_data_items_are_hidden_from_the_core() {
    let left = left_for_core(vec![
        (DataItem::Mtu(1), ExtHandled::Passthrough),
        (DataItem::Mtu(2), ExtHandled::Handled),
        (DataItem::Mtu(3), ExtHandled::Passthrough),
        (DataItem::Mtu(4), ExtHandled::Handled),
    ]);
    assert_eq!(left.len(), 2);
    assert!(matches!(left[0], DataItem::Mtu(1)));
    assert!(matches!(left[1], DataItem::Mtu(3)));
    assert!(left_for_core(vec![]).is_empty());
}
