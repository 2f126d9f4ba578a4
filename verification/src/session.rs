//! The session core: one process's connection state, lobby role and
//! province synchronization, wired together.  It owns the cascades
//! that cross components — leaving to the menu, a Host's graceful
//! teardown, a Client reacting to that teardown — with the required
//! ordering: the role is reset before the province, so no stale
//! authority write survives the transition.

use crate::address::{classify, ValidationError};
use crate::connection::{ConnState, ConnectAttempt, ConnectionError, ConnectionEvent, ConnectionManager};
use crate::events::EventQueue;
use crate::lobby::{Lobby, LobbyRole};
use crate::province::{ProvinceState, ProvinceSync};
use vstd::prelude::*;

verus! {

/// A cross-component reset signal, in the order it must be acted on.
#[derive(Clone, Copy, PartialEq, Eq, Structural, Debug)]
pub enum ResetSignal {
    RoleCleared,
    ProvinceReset,
}

/// The Host's graceful-teardown broadcast: every connected Client's
/// session is void.  Sent on Host disconnect, not left to timeout
/// detection.
#[derive(Clone, Copy, PartialEq, Eq, Structural, Debug)]
pub struct HostTeardownEvent;

/// Why a connection intent was rejected before or at the manager.
#[derive(Clone, Copy, PartialEq, Eq, Structural, Debug)]
pub enum ConnectRejection {
    Invalid(ValidationError),
    Connection(ConnectionError),
}

/// One process's session state: the three single-writer holders.
pub struct Core {
    pub conn: ConnectionManager,
    pub lobby: Lobby,
    pub province: ProvinceSync,
}

/// A Client's state after it handles the Host's teardown broadcast:
/// session gone, no role, back at the menu.
pub open spec fn after_host_teardown(c: Core) -> Core {
    Core {
        conn: ConnectionManager { state: ConnState::Idle },
        lobby: Lobby { role: LobbyRole::Idle },
        province: ProvinceSync { applied: ProvinceState::Menu, selected: ProvinceState::Menu },
    }
}

impl Core {
    /// Process start: disconnected, no role, at the menu.
    pub fn new() -> (c: Self)
        ensures
            c.conn.state == ConnState::Idle,
            c.lobby.role == LobbyRole::Idle,
            c.province.applied == ProvinceState::Menu,
            c.province.selected == ProvinceState::Menu,
    {
        Core { conn: ConnectionManager::new(), lobby: Lobby::new(), province: ProvinceSync::new() }
    }

    /// Consume a one-shot connection intent: validate the address
    /// first — a malformed address never reaches the Connection
    /// Manager — then hand the attempt to the manager, which rejects
    /// anything but `Idle` as `Busy` without altering state.
    pub fn handle_connection_event(&mut self, ev: ConnectionEvent) -> (r: Result<
        ConnectAttempt,
        ConnectRejection,
    >)
        ensures
            !crate::address::accepts(ev.address@) ==> r == Err::<ConnectAttempt, ConnectRejection>(
                ConnectRejection::Invalid(ValidationError::Malformed),
            ) && *final(self) == *old(self),
            crate::address::accepts(ev.address@) && old(self).conn.state != ConnState::Idle ==> r
                == Err::<ConnectAttempt, ConnectRejection>(
                ConnectRejection::Connection(ConnectionError::Busy),
            ) && *final(self) == *old(self),
            crate::address::accepts(ev.address@) && old(self).conn.state == ConnState::Idle ==> {
                &&& final(self).conn.state == ConnState::Connecting
                &&& final(self).lobby == old(self).lobby
                &&& final(self).province == old(self).province
                &&& r matches Ok(at) && at.username@ == ev.username@ && at.address@
                    == crate::address::canon(ev.address@)
            },
    {
        match classify(ev.address.as_slice()) {
            Ok(target) => {
                match self.conn.initiate(&target, ev.username) {
                    Ok(at) => Ok(at),
                    Err(e) => Err(ConnectRejection::Connection(e)),
                }
            },
            Err(e) => Err(ConnectRejection::Invalid(e)),
        }
    }

    /// Fold the handshake's outcome in.  A confirmed protocol mismatch
    /// is fatal for the session: the whole process state is torn down
    /// — role reset before province reset — rather than attempting
    /// degraded operation.  Any other failure only parks the manager
    /// in `Failed` for the caller to acknowledge.
    pub fn handle_connection_outcome(&mut self, outcome: Result<(), ConnectionError>)
        ensures
            old(self).conn.state != ConnState::Connecting ==> *final(self) == *old(self),
            old(self).conn.state == ConnState::Connecting ==> {
                &&& final(self).conn.state == (match outcome {
                    Ok(_) => ConnState::Connected,
                    Err(e) => ConnState::Failed(e),
                })
                &&& (outcome == Err::<(), ConnectionError>(ConnectionError::ProtocolMismatch) ==> {
                    &&& final(self).lobby.role == LobbyRole::Idle
                    &&& final(self).province.applied == ProvinceState::Menu
                    &&& final(self).province.selected == ProvinceState::Menu
                })
                &&& (outcome != Err::<(), ConnectionError>(ConnectionError::ProtocolMismatch) ==> {
                    &&& final(self).lobby == old(self).lobby
                    &&& final(self).province == old(self).province
                })
            },
    {
        let was_connecting = matches!(self.conn.state, ConnState::Connecting);
        self.conn.complete(outcome);
        if was_connecting && matches!(outcome, Err(ConnectionError::ProtocolMismatch)) {
            self.lobby.leave();
            self.province.selected = ProvinceState::Menu;
            self.province.applied = ProvinceState::Menu;
        }
    }

    /// The explicit "Back to Menu" action: leave the lobby, then reset
    /// the province to the menu.  The returned signals carry the
    /// required order — role reset strictly before province reset.
    pub fn back_to_menu(&mut self) -> (signals: Vec<ResetSignal>)
        ensures
            final(self).lobby.role == LobbyRole::Idle,
            final(self).province.applied == ProvinceState::Menu,
            final(self).province.selected == ProvinceState::Menu,
            final(self).conn == old(self).conn,
            signals@ == seq![ResetSignal::RoleCleared, ResetSignal::ProvinceReset],
    {
        let mut signals: Vec<ResetSignal> = Vec::new();
        self.lobby.leave();
        signals.push(ResetSignal::RoleCleared);
        self.province.selected = ProvinceState::Menu;
        self.province.applied = ProvinceState::Menu;
        signals.push(ResetSignal::ProvinceReset);
        proof {
            assert(signals@ =~= seq![ResetSignal::RoleCleared, ResetSignal::ProvinceReset]);
        }
        signals
    }

    /// A Host disconnects: broadcast the graceful teardown to every
    /// connected Client, then tear this process down the same way —
    /// role reset before province reset.
    pub fn disconnect_as_host(&mut self, bus: &mut EventQueue<HostTeardownEvent>)
        requires
            old(self).lobby.role == LobbyRole::Host,
            old(self).conn.state == ConnState::Connected,
        ensures
            final(bus)@ == old(bus)@.push(HostTeardownEvent),
            final(self).conn.state == ConnState::Idle,
            final(self).lobby.role == LobbyRole::Idle,
            final(self).province.applied == ProvinceState::Menu,
            final(self).province.selected == ProvinceState::Menu,
    {
        bus.push(HostTeardownEvent);
        self.conn.disconnect();
        self.lobby.leave();
        self.province.selected = ProvinceState::Menu;
        self.province.applied = ProvinceState::Menu;
    }

    /// A connected Client disconnects deliberately: session down, role
    /// and province released, role first.
    pub fn disconnect(&mut self)
        requires
            old(self).conn.state == ConnState::Connected,
        ensures
            final(self).conn.state == ConnState::Idle,
            final(self).lobby.role == LobbyRole::Idle,
            final(self).province.applied == ProvinceState::Menu,
            final(self).province.selected == ProvinceState::Menu,
    {
        self.conn.disconnect();
        self.lobby.leave();
        self.province.selected = ProvinceState::Menu;
        self.province.applied = ProvinceState::Menu;
    }

    /// A Client receives the Host's teardown broadcast: whatever state
    /// it was in, its session is void — no role, menu province, idle
    /// connection.
    pub fn handle_host_teardown(&mut self)
        ensures
            *final(self) == after_host_teardown(*old(self)),
            final(self).lobby.role == LobbyRole::Idle,
            final(self).province.applied == ProvinceState::Menu,
            final(self).province.selected == ProvinceState::Menu,
    {
        self.conn = ConnectionManager { state: ConnState::Idle };
        self.lobby.leave();
        self.province.selected = ProvinceState::Menu;
        self.province.applied = ProvinceState::Menu;
    }
}

/// Host teardown leaves no Client behind: for every connected Client,
/// whatever its state, handling the broadcast drives its role to
/// `Idle` and its province to `Menu` — none stays in a stale
/// `Client`/non-menu state.
pub proof fn lemma_host_teardown_resets_all(clients: Seq<Core>)
    ensures
        forall|i: int|
            0 <= i < clients.len() ==> {
                &&& #[trigger] after_host_teardown(clients[i]).lobby.role == LobbyRole::Idle
                &&& after_host_teardown(clients[i]).province.applied == ProvinceState::Menu
                &&& after_host_teardown(clients[i]).province.selected == ProvinceState::Menu
                &&& after_host_teardown(clients[i]).conn.state == ConnState::Idle
            },
{
}

} // verus!
