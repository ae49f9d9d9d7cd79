//! Requests in flight.
//!
//! At any time at most one session-level request is outstanding, and at most
//! one request per destination. An attempt to open a second one is refused
//! with the one that is already open.

use vstd::prelude::*;
use crate::fsm::mac_map::MacMap;
use crate::proto::mac::MacAddress;

verus! {

#[derive(Debug)]
pub struct TransactionTracker {
    pub session_pending: Option<PendingRequest>,
    pub per_destination: MacMap<PendingRequest>,
}

#[derive(Clone, Copy, Debug, PartialEq, Eq, Structural)]
pub struct PendingRequest {
    pub kind: RequestKind,
}

#[derive(Clone, Copy, Debug, PartialEq, Eq, Structural)]
pub enum RequestKind {
    SessionUpdate,
    SessionTermination,
    DestinationUp,
    DestinationAnnounce,
    DestinationDown,
    LinkCharacteristics,
}

/// The requests in flight: that of the session, and those of destinations.
#[verifier::ext_equal]
pub struct TransactionView {
    pub session_pending: Option<PendingRequest>,
    pub per_destination: Map<MacAddress, PendingRequest>,
}

impl View for TransactionTracker {
    type V = TransactionView;

    open spec fn view(&self) -> TransactionView {
        TransactionView {
            session_pending: self.session_pending,
            per_destination: self.per_destination@,
        }
    }
}

impl TransactionView {
    /// Nothing in flight.
    pub open spec fn idle() -> Self {
        TransactionView { session_pending: None, per_destination: Map::empty() }
    }

    /// With a session-level request in flight.
    pub open spec fn with_session(self, kind: RequestKind) -> Self {
        TransactionView { session_pending: Some(PendingRequest { kind }), ..self }
    }

    /// With no session-level request in flight.
    pub open spec fn without_session(self) -> Self {
        TransactionView { session_pending: None, ..self }
    }

    /// With a request about `mac` in flight.
    pub open spec fn with_destination(self, mac: MacAddress, kind: RequestKind) -> Self {
        TransactionView {
            per_destination: self.per_destination.insert(mac, PendingRequest { kind }),
            ..self
        }
    }

    /// With no request about `mac` in flight.
    pub open spec fn without_destination(self, mac: MacAddress) -> Self {
        TransactionView { per_destination: self.per_destination.remove(mac), ..self }
    }
}

impl Default for TransactionTracker {
    fn default() -> (r: Self)
        ensures
            r@ == TransactionView::idle(),
    {
        TransactionTracker { session_pending: None, per_destination: MacMap::new() }
    }
}

impl TransactionTracker {
    pub fn session_busy(&self) -> (r: bool)
        ensures
            r == (self@.session_pending is Some),
    {
        self.session_pending.is_some()
    }

    pub fn destination_busy(&self, mac: &MacAddress) -> (r: bool)
        ensures
            r == self@.per_destination.contains_key(*mac),
    {
        self.per_destination.contains_key(mac)
    }

    /// Open a session-level request, unless one is open already.
    pub fn open_session(&mut self, kind: RequestKind) -> (r: Result<(), PendingRequest>)
        ensures
            match old(self)@.session_pending {
                Some(existing) => r == Err::<(), PendingRequest>(existing) && final(self)@ == old(
                    self,
                )@,
                None => r is Ok && final(self)@ == old(self)@.with_session(kind),
            },
    {
        if let Some(existing) = self.session_pending {
            return Err(existing);
        }
        self.session_pending = Some(PendingRequest { kind });
        Ok(())
    }

    /// Close the session-level request and give it back.
    pub fn close_session(&mut self) -> (r: Option<PendingRequest>)
        ensures
            r == old(self)@.session_pending,
            final(self)@ == old(self)@.without_session(),
    {
        self.session_pending.take()
    }

    /// Open a request about a destination, unless one is open already.
    pub fn open_destination(&mut self, mac: MacAddress, kind: RequestKind) -> (r: Result<
        (),
        PendingRequest,
    >)
        ensures
            if old(self)@.per_destination.contains_key(mac) {
                r == Err::<(), PendingRequest>(old(self)@.per_destination[mac]) && final(self)@
                    == old(self)@
            } else {
                r is Ok && final(self)@ == old(self)@.with_destination(mac, kind)
            },
    {
        if let Some(existing) = self.per_destination.get(&mac) {
            return Err(*existing);
        }
        self.per_destination.insert(mac, PendingRequest { kind });
        Ok(())
    }

    /// Close the request about a destination and give it back.
    pub fn close_destination(&mut self, mac: &MacAddress) -> (r: Option<PendingRequest>)
        ensures
            r == (if old(self)@.per_destination.contains_key(*mac) {
                Some(old(self)@.per_destination[*mac])
            } else {
                None
            }),
            final(self)@ == old(self)@.without_destination(*mac),
    {
        self.per_destination.remove(mac)
    }
}

/// Closing a request about a destination undoes opening it, and touches no
/// other request.
pub proof fn law_close_undoes_open(before: TransactionView, mac: MacAddress, kind: RequestKind)
    requires
        !before.per_destination.contains_key(mac),
    ensures
        before.with_destination(mac, kind).per_destination.contains_key(mac),
        before.with_destination(mac, kind).without_destination(mac) == before,
        before.with_destination(mac, kind).session_pending == before.session_pending,
        forall|other: MacAddress|
            other != mac ==> before.with_destination(mac, kind).per_destination.contains_key(other)
                == before.per_destination.contains_key(other),
{
    assert(before.with_destination(mac, kind).without_destination(mac).per_destination
        =~= before.per_destination);
}

/// Session-level requests and requests about destinations do not stand in each
/// other's way.
pub proof fn law_scopes_are_independent(
    before: TransactionView,
    mac: MacAddress,
    kind: RequestKind,
    session_kind: RequestKind,
)
    ensures
        before.with_session(session_kind).per_destination == before.per_destination,
        before.without_session().per_destination == before.per_destination,
        before.without_destination(mac).session_pending == before.session_pending,
        before.with_session(session_kind).with_destination(mac, kind) == before.with_destination(
            mac,
            kind,
        ).with_session(session_kind),
{
}

} // verus!
