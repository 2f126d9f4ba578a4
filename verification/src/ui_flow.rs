//! Screen flow for the pre-game windows: the greeting, login,
//! register and connection screens.  The core tracks which window is
//! open and how user intents move between them; drawing the widgets is
//! the excluded UI layer's job.  Errors are surfaced for a
//! user-initiated retry — a failed login re-prompts, it never crashes
//! the interactive loop.

use vstd::prelude::*;

verus! {

/// Which pre-game windows are open.
#[derive(Clone, Copy, PartialEq, Eq, Structural, Debug)]
pub struct UiState {
    pub is_auth_open: bool,
    pub is_connection_open: bool,
    pub is_login_open: bool,
    pub is_register_open: bool,
    pub is_user_info_open: bool,
}

impl Default for UiState {
    /// At process start only the greeting window is open.
    fn default() -> (s: Self)
        ensures
            s.is_auth_open,
            !s.is_connection_open,
            !s.is_login_open,
            !s.is_register_open,
            !s.is_user_info_open,
    {
        UiState {
            is_auth_open: true,
            is_connection_open: false,
            is_login_open: false,
            is_register_open: false,
            is_user_info_open: false,
        }
    }
}

/// A user intent on the pre-game screens.
#[derive(Clone, Copy, PartialEq, Eq, Structural, Debug)]
pub enum UiIntent {
    /// From the greeting: open the login window.
    OpenLogin,
    /// From the greeting: open the register window.
    OpenRegister,
    /// From the greeting: skip authentication, straight to connection.
    SkipToConnection,
    /// From login or register: back to the greeting.
    BackToAuth,
    /// The register form was submitted; its window closes.
    SubmitRegister,
    /// A login attempt succeeded: on to the connection window.
    LoginSucceeded,
    /// A login attempt failed: stay on the login window to re-prompt.
    LoginFailed,
    /// The connection form was submitted; its window closes.
    ConnectClicked,
}

/// How one intent moves the screen flow.
pub open spec fn ui_step(s: UiState, i: UiIntent) -> UiState {
    match i {
        UiIntent::OpenLogin => UiState { is_auth_open: false, is_login_open: true, ..s },
        UiIntent::OpenRegister => UiState { is_auth_open: false, is_register_open: true, ..s },
        UiIntent::SkipToConnection => UiState {
            is_auth_open: false,
            is_connection_open: true,
            ..s
        },
        UiIntent::BackToAuth => UiState {
            is_auth_open: true,
            is_login_open: false,
            is_register_open: false,
            ..s
        },
        UiIntent::SubmitRegister => UiState { is_register_open: false, ..s },
        UiIntent::LoginSucceeded => UiState {
            is_login_open: false,
            is_connection_open: true,
            ..s
        },
        UiIntent::LoginFailed => s,
        UiIntent::ConnectClicked => UiState { is_connection_open: false, ..s },
    }
}

impl UiState {
    /// Apply one user intent.
    pub fn handle(&mut self, i: UiIntent)
        ensures
            *final(self) == ui_step(*old(self), i),
    {
        match i {
            UiIntent::OpenLogin => {
                self.is_auth_open = false;
                self.is_login_open = true;
            },
            UiIntent::OpenRegister => {
                self.is_auth_open = false;
                self.is_register_open = true;
            },
            UiIntent::SkipToConnection => {
                self.is_auth_open = false;
                self.is_connection_open = true;
            },
            UiIntent::BackToAuth => {
                self.is_auth_open = true;
                self.is_login_open = false;
                self.is_register_open = false;
            },
            UiIntent::SubmitRegister => {
                self.is_register_open = false;
            },
            UiIntent::LoginSucceeded => {
                self.is_login_open = false;
                self.is_connection_open = true;
            },
            UiIntent::LoginFailed => {},
            UiIntent::ConnectClicked => {
                self.is_connection_open = false;
            },
        }
    }
}

/// The connection form's editable fields.
#[derive(Clone, PartialEq, Eq, Debug)]
pub struct ConnectionForm {
    pub username: Vec<u8>,
    pub addr: Vec<u8>,
}

impl Default for ConnectionForm {
    /// The form starts prefilled: name `noname`, address
    /// `127.0.0.1:5000`.
    fn default() -> (f: Self)
        ensures
            f.username@ == seq![110u8, 111u8, 110u8, 97u8, 109u8, 101u8],
            f.addr@ == seq![
                49u8,
                50u8,
                55u8,
                46u8,
                48u8,
                46u8,
                48u8,
                46u8,
                49u8,
                58u8,
                53u8,
                48u8,
                48u8,
                48u8,
            ],
    {
        let username: Vec<u8> = vec![110u8, 111u8, 110u8, 97u8, 109u8, 101u8];
        let addr: Vec<u8> = vec![
            49u8,
            50u8,
            55u8,
            46u8,
            48u8,
            46u8,
            48u8,
            46u8,
            49u8,
            58u8,
            53u8,
            48u8,
            48u8,
            48u8,
        ];
        proof {
            assert(username@ =~= seq![110u8, 111u8, 110u8, 97u8, 109u8, 101u8]);
            assert(addr@ =~= seq![
                49u8,
                50u8,
                55u8,
                46u8,
                48u8,
                46u8,
                48u8,
                46u8,
                49u8,
                58u8,
                53u8,
                48u8,
                48u8,
                48u8,
            ]);
        }
        ConnectionForm { username, addr }
    }
}

} // verus!
