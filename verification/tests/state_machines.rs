use pih_pah::address::ConnectionTarget;
use pih_pah::connection::{
    ConnState, ConnectionError, ConnectionEvent, ConnectionManager,
};
use pih_pah::events::EventQueue;
use pih_pah::lobby::{Lobby, LobbyError, LobbyRole};
use pih_pah::province::{
    ChangeProvinceServerEvent, LoadSignal, ProvinceError, ProvinceState, ProvinceSync,
};
use pih_pah::session::{ConnectRejection, Core, ResetSignal};

#[test]
fn initiate_from_idle_hands_out_attempt() {
    let mut m = ConnectionManager::new();
    let target = ConnectionTarget::IpPort { a: 127, b: 0, c: 0, d: 1, port: 5000 };
    let at = m.initiate(&target, b"alice".to_vec()).unwrap();
    assert_eq!(m.state, ConnState::Connecting);
    assert_eq!(at.address, b"127.0.0.1:5000".to_vec());
    assert_eq!(at.username, b"alice".to_vec());
}

#[test]
fn initiate_while_connecting_is_busy_and_alters_nothing() {
    let mut m = ConnectionManager::new();
    let target = ConnectionTarget::IpPort { a: 127, b: 0, c: 0, d: 1, port: 5000 };
    m.initiate(&target, b"alice".to_vec()).unwrap();
    assert_eq!(m.state, ConnState::Connecting);
    let r = m.initiate(&target, b"alice".to_vec());
    assert_eq!(r, Err(ConnectionError::Busy));
    assert_eq!(m.state, ConnState::Connecting);
}

#[test]
fn handshake_outcomes_drive_the_states() {
    let mut m = ConnectionManager::new();
    let target = ConnectionTarget::IpPort { a: 127, b: 0, c: 0, d: 1, port: 5000 };
    m.initiate(&target, b"alice".to_vec()).unwrap();
    m.complete(Ok(()));
    assert_eq!(m.state, ConnState::Connected);
    m.disconnect();
    assert_eq!(m.state, ConnState::Idle);

    m.initiate(&target, b"alice".to_vec()).unwrap();
    m.complete(Err(ConnectionError::TimedOut));
    assert_eq!(m.state, ConnState::Failed(ConnectionError::TimedOut));
    m.acknowledge_failure();
    assert_eq!(m.state, ConnState::Idle);
}

#[test]
fn lobby_roles_enter_from_idle_only() {
    let mut l = Lobby::new();
    assert_eq!(l.role, LobbyRole::Idle);
    l.become_host().unwrap();
    assert_eq!(l.role, LobbyRole::Host);
    assert_eq!(l.become_client(), Err(LobbyError::AlreadyInLobby));
    assert_eq!(l.role, LobbyRole::Host);
    l.leave();
    assert_eq!(l.role, LobbyRole::Idle);
    l.become_client().unwrap();
    assert_eq!(l.role, LobbyRole::Client);
}

#[test]
fn applying_same_province_twice_broadcasts_once() {
    let mut p = ProvinceSync::new();
    let mut bus: EventQueue<ChangeProvinceServerEvent> = EventQueue::new();
    p.select(ProvinceState::GravityHell);
    let first = p.apply(LobbyRole::Host, &mut bus).unwrap();
    assert!(first);
    let second = p.apply(LobbyRole::Host, &mut bus).unwrap();
    assert!(!second);
    let events = bus.drain();
    assert_eq!(events, vec![ChangeProvinceServerEvent(ProvinceState::GravityHell)]);
    assert_eq!(p.applied, ProvinceState::GravityHell);
}

#[test]
fn client_commit_is_rejected_without_mutation() {
    let mut p = ProvinceSync::new();
    let mut bus: EventQueue<ChangeProvinceServerEvent> = EventQueue::new();
    p.select(ProvinceState::ShootingRange);
    let r = p.apply(LobbyRole::Client, &mut bus);
    assert_eq!(r, Err(ProvinceError::NotAuthorized));
    assert_eq!(p.applied, ProvinceState::Menu);
    assert_eq!(p.selected, ProvinceState::ShootingRange);
    assert!(bus.is_empty());
}

#[test]
fn standalone_process_may_commit() {
    let mut p = ProvinceSync::new();
    let mut bus: EventQueue<ChangeProvinceServerEvent> = EventQueue::new();
    p.select(ProvinceState::ShootingRange);
    assert!(p.apply(LobbyRole::Idle, &mut bus).unwrap());
    assert_eq!(p.applied, ProvinceState::ShootingRange);
}

#[test]
fn cancel_reverts_the_candidate_without_events() {
    let mut p = ProvinceSync::new();
    let mut bus: EventQueue<ChangeProvinceServerEvent> = EventQueue::new();
    p.select(ProvinceState::GravityHell);
    p.cancel();
    assert_eq!(p.selected, ProvinceState::Menu);
    let applied = p.apply(LobbyRole::Host, &mut bus).unwrap();
    assert!(!applied);
    assert!(bus.is_empty());
}

#[test]
fn client_sends_its_candidate_upstream() {
    let mut p = ProvinceSync::new();
    p.select(ProvinceState::GravityHell);
    let req = p.change_request();
    assert_eq!(req, pih_pah::province::ChangeProvinceRequest(ProvinceState::GravityHell));
    // The request alone changes nothing; only the Host's broadcast does.
    assert_eq!(p.applied, ProvinceState::Menu);
}

#[test]
fn host_relays_a_client_request_as_one_broadcast() {
    let mut p = ProvinceSync::new();
    let mut bus: EventQueue<ChangeProvinceServerEvent> = EventQueue::new();
    let req = pih_pah::province::ChangeProvinceRequest(ProvinceState::GravityHell);
    assert!(p.handle_change_request(LobbyRole::Host, req, &mut bus).unwrap());
    assert_eq!(p.applied, ProvinceState::GravityHell);
    // The same request again is a no-op.
    assert!(!p.handle_change_request(LobbyRole::Host, req, &mut bus).unwrap());
    assert_eq!(bus.drain().len(), 1);
    // A Client may not relay at all.
    let r = p.handle_change_request(LobbyRole::Client, req, &mut bus);
    assert_eq!(r, Err(ProvinceError::NotAuthorized));
}

#[test]
fn client_applies_broadcast() {
    let mut p = ProvinceSync::new();
    p.apply_broadcast(ChangeProvinceServerEvent(ProvinceState::GravityHell));
    assert_eq!(p.applied, ProvinceState::GravityHell);
    assert_eq!(p.selected, ProvinceState::GravityHell);
}

#[test]
fn loader_signals_unload_then_load() {
    let r = pih_pah::province::loader_signals(ProvinceState::Menu, ProvinceState::ShootingRange);
    assert_eq!(
        r,
        vec![
            LoadSignal::Unload(ProvinceState::Menu),
            LoadSignal::Load(ProvinceState::ShootingRange)
        ]
    );
    let none = pih_pah::province::loader_signals(ProvinceState::Menu, ProvinceState::Menu);
    assert!(none.is_empty());
}

#[test]
fn back_to_menu_resets_role_before_province() {
    let mut c = Core::new();
    c.lobby.become_host().unwrap();
    c.province.select(ProvinceState::GravityHell);
    let mut bus: EventQueue<ChangeProvinceServerEvent> = EventQueue::new();
    c.province.apply(LobbyRole::Host, &mut bus).unwrap();
    let signals = c.back_to_menu();
    assert_eq!(signals, vec![ResetSignal::RoleCleared, ResetSignal::ProvinceReset]);
    assert_eq!(c.lobby.role, LobbyRole::Idle);
    assert_eq!(c.province.applied, ProvinceState::Menu);
    assert_eq!(c.province.selected, ProvinceState::Menu);
}

#[test]
fn host_teardown_leaves_no_stale_client() {
    let mut host = Core::new();
    host.conn.initiate(
        &ConnectionTarget::IpPort { a: 127, b: 0, c: 0, d: 1, port: 5000 },
        b"host".to_vec(),
    )
    .unwrap();
    host.conn.complete(Ok(()));
    host.lobby.become_host().unwrap();

    let mut clients = Vec::new();
    for name in [b"ann".to_vec(), b"bob".to_vec()] {
        let mut c = Core::new();
        c.conn
            .initiate(
                &ConnectionTarget::IpPort { a: 127, b: 0, c: 0, d: 1, port: 5000 },
                name,
            )
            .unwrap();
        c.conn.complete(Ok(()));
        c.lobby.become_client().unwrap();
        c.province.apply_broadcast(ChangeProvinceServerEvent(ProvinceState::GravityHell));
        clients.push(c);
    }

    let mut teardown_bus = EventQueue::new();
    host.disconnect_as_host(&mut teardown_bus);
    assert_eq!(teardown_bus.len(), 1);
    assert_eq!(host.lobby.role, LobbyRole::Idle);

    for c in clients.iter_mut() {
        c.handle_host_teardown();
        assert_eq!(c.lobby.role, LobbyRole::Idle);
        assert_eq!(c.province.applied, ProvinceState::Menu);
        assert_eq!(c.province.selected, ProvinceState::Menu);
        assert_eq!(c.conn.state, ConnState::Idle);
    }
}

#[test]
fn protocol_mismatch_forces_full_teardown() {
    let mut c = Core::new();
    c.handle_connection_event(ConnectionEvent {
        address: b"127.0.0.1:5000".to_vec(),
        username: b"alice".to_vec(),
    })
    .unwrap();
    c.province.apply_broadcast(ChangeProvinceServerEvent(ProvinceState::ShootingRange));
    c.handle_connection_outcome(Err(ConnectionError::ProtocolMismatch));
    assert_eq!(c.conn.state, ConnState::Failed(ConnectionError::ProtocolMismatch));
    assert_eq!(c.lobby.role, LobbyRole::Idle);
    assert_eq!(c.province.applied, ProvinceState::Menu);
    assert_eq!(c.province.selected, ProvinceState::Menu);
}

#[test]
fn ordinary_failure_waits_for_acknowledgement() {
    let mut c = Core::new();
    c.handle_connection_event(ConnectionEvent {
        address: b"127.0.0.1:5000".to_vec(),
        username: b"alice".to_vec(),
    })
    .unwrap();
    c.handle_connection_outcome(Err(ConnectionError::Refused));
    assert_eq!(c.conn.state, ConnState::Failed(ConnectionError::Refused));
    c.conn.acknowledge_failure();
    assert_eq!(c.conn.state, ConnState::Idle);
}

#[test]
fn malformed_address_never_reaches_the_manager() {
    let mut c = Core::new();
    let r = c.handle_connection_event(ConnectionEvent {
        address: b"???".to_vec(),
        username: b"alice".to_vec(),
    });
    assert!(matches!(
        r,
        Err(ConnectRejection::Invalid(
            pih_pah::address::ValidationError::Malformed
        ))
    ));
    assert_eq!(c.conn.state, ConnState::Idle);
}

#[test]
fn connection_event_is_validated_then_initiated() {
    let mut c = Core::new();
    let at = c
        .handle_connection_event(ConnectionEvent {
            address: b"127.0.0.1:5000".to_vec(),
            username: b"alice".to_vec(),
        })
        .unwrap();
    assert_eq!(at.address, b"127.0.0.1:5000".to_vec());
    assert_eq!(at.username, b"alice".to_vec());
    assert_eq!(c.conn.state, ConnState::Connecting);
}
