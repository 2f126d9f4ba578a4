//! Lobby State Machine: tracks whether this process is acting as Host,
//! Client, or is idle.  The role is the single source of truth for "am
//! I authoritative over province state".  A role is entered from `None`
//! only; leaving a lobby always drives the role back to `None`.

use vstd::prelude::*;

verus! {

/// The process-wide lobby role.  `Host` is authoritative for province
/// state; `Client` renders a province but never originates a change.
#[derive(Clone, Copy, PartialEq, Eq, Structural, Debug)]
pub enum LobbyRole {
    Idle,
    Host,
    Client,
}

/// Rejection of a role transition.
#[derive(Clone, Copy, PartialEq, Eq, Structural, Debug)]
pub enum LobbyError {
    AlreadyInLobby,
}

/// The lobby state holder.  The Lobby State Machine is its only legal
/// writer; all other components read snapshots.
#[derive(Clone, Copy, PartialEq, Eq, Structural, Debug)]
pub struct Lobby {
    pub role: LobbyRole,
}

impl Lobby {
    pub fn new() -> (l: Self)
        ensures
            l.role == LobbyRole::Idle,
    {
        Lobby { role: LobbyRole::Idle }
    }

    /// Take the Host role.  Legal only when no role is held.
    pub fn become_host(&mut self) -> (r: Result<(), LobbyError>)
        ensures
            old(self).role == LobbyRole::Idle ==> r == Ok::<(), LobbyError>(()) && final(self).role == LobbyRole::Host,
            old(self).role != LobbyRole::Idle ==> r == Err::<(), LobbyError>(
                LobbyError::AlreadyInLobby,
            ) && *final(self) == *old(self),
    {
        match self.role {
            LobbyRole::Idle => {
                self.role = LobbyRole::Host;
                Ok(())
            },
            _ => Err(LobbyError::AlreadyInLobby),
        }
    }

    /// Join a lobby as a Client.  Legal only when no role is held.
    pub fn become_client(&mut self) -> (r: Result<(), LobbyError>)
        ensures
            old(self).role == LobbyRole::Idle ==> r == Ok::<(), LobbyError>(()) && final(self).role == LobbyRole::Client,
            old(self).role != LobbyRole::Idle ==> r == Err::<(), LobbyError>(
                LobbyError::AlreadyInLobby,
            ) && *final(self) == *old(self),
    {
        match self.role {
            LobbyRole::Idle => {
                self.role = LobbyRole::Client;
                Ok(())
            },
            _ => Err(LobbyError::AlreadyInLobby),
        }
    }

    /// Leave the lobby, from any role.
    pub fn leave(&mut self)
        ensures
            final(self).role == LobbyRole::Idle,
    {
        self.role = LobbyRole::Idle;
    }
}

} // verus!
