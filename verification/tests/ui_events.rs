use pih_pah::events::{EventQueue, GameMenu, GameMenuEvent, UiAction};
use pih_pah::server::ResServer;
use pih_pah::ui_flow::{ConnectionForm, UiIntent, UiState};

#[test]
fn queue_drains_in_fifo_order() {
    let mut q: EventQueue<u32> = EventQueue::new();
    q.push(1);
    q.push(2);
    q.push(3);
    assert_eq!(q.len(), 3);
    assert_eq!(q.drain(), vec![1, 2, 3]);
    assert!(q.is_empty());
    assert_eq!(q.drain(), Vec::<u32>::new());
}

#[test]
fn menu_actions_apply_in_order() {
    let mut m = GameMenu::new();
    let mut q: EventQueue<GameMenuEvent> = EventQueue::new();
    q.push(GameMenuEvent(UiAction::Enable));
    q.push(GameMenuEvent(UiAction::Toggle));
    q.push(GameMenuEvent(UiAction::Toggle));
    m.handle_actions(&mut q);
    assert!(m.is_active);
    assert!(q.is_empty());

    q.push(GameMenuEvent(UiAction::Disable));
    m.handle_actions(&mut q);
    assert!(!m.is_active);

    q.push(GameMenuEvent(UiAction::Toggle));
    m.handle_actions(&mut q);
    assert!(m.is_active);
}

#[test]
fn screen_flow_starts_at_the_greeting() {
    let s = UiState::default();
    assert!(s.is_auth_open);
    assert!(!s.is_connection_open);
    assert!(!s.is_login_open);
    assert!(!s.is_register_open);
    assert!(!s.is_user_info_open);
}

#[test]
fn login_flow_reaches_the_connection_screen() {
    let mut s = UiState::default();
    s.handle(UiIntent::OpenLogin);
    assert!(!s.is_auth_open && s.is_login_open);
    s.handle(UiIntent::LoginFailed);
    assert!(s.is_login_open);
    s.handle(UiIntent::LoginSucceeded);
    assert!(!s.is_login_open && s.is_connection_open);
    s.handle(UiIntent::ConnectClicked);
    assert!(!s.is_connection_open);
}

#[test]
fn register_flow_returns_to_the_greeting() {
    let mut s = UiState::default();
    s.handle(UiIntent::OpenRegister);
    assert!(!s.is_auth_open && s.is_register_open);
    s.handle(UiIntent::BackToAuth);
    assert!(s.is_auth_open && !s.is_register_open);
    s.handle(UiIntent::SkipToConnection);
    assert!(!s.is_auth_open && s.is_connection_open);
}

#[test]
fn connection_form_is_prefilled() {
    let f = ConnectionForm::default();
    assert_eq!(f.username, b"noname".to_vec());
    assert_eq!(f.addr, b"127.0.0.1:5000".to_vec());
    // The prefilled address is a valid connection target.
    assert!(pih_pah::address::classify(&f.addr).is_ok());
}

#[test]
fn server_entry_keeps_its_fields() {
    let s = ResServer::new("main".to_string(), "127.0.0.1:5000".to_string(), true);
    assert_eq!(s.name, "main");
    assert_eq!(s.address, "127.0.0.1:5000");
    assert!(s.online);
}
