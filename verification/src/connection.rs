//! Connection Manager: owns the transition from "disconnected" to
//! "network session established", given a validated address and a
//! display name.  The handshake itself is outside work, dispatched on a
//! background worker; its result comes back as a completion event.
//! A new `initiate` while an attempt is pending (or a session is live)
//! is rejected as `Busy` rather than racing two attempts, and a failed
//! attempt returns to `Idle` only after the caller acknowledges it —
//! no silent auto-retry.

use crate::address::{canonical_bytes, ConnectionTarget};
use vstd::prelude::*;

verus! {

/// Why a connection attempt failed or was rejected.
#[derive(Clone, Copy, PartialEq, Eq, Structural, Debug)]
pub enum ConnectionError {
    TimedOut,
    Refused,
    ProtocolMismatch,
    Busy,
}

/// The Connection Manager's state.  `Failed` keeps the error until the
/// caller acknowledges it.
#[derive(Clone, Copy, PartialEq, Eq, Structural, Debug)]
pub enum ConnState {
    Idle,
    Connecting,
    Connected,
    Failed(ConnectionError),
}

/// A one-shot connection intent from the UI: a raw address string and
/// the display name to join under.  Consumed exactly once.
#[derive(Clone, PartialEq, Eq, Debug)]
pub struct ConnectionEvent {
    pub address: Vec<u8>,
    pub username: Vec<u8>,
}

/// The payload a background worker needs to attempt the handshake: the
/// canonical address bytes and the display name.  Plain values; the
/// worker reports back with `ConnectionManager::complete`.
#[derive(Clone, PartialEq, Eq, Debug)]
pub struct ConnectAttempt {
    pub address: Vec<u8>,
    pub username: Vec<u8>,
}

/// The connection state holder; this machine is its only legal writer.
#[derive(Clone, Copy, PartialEq, Eq, Structural, Debug)]
pub struct ConnectionManager {
    pub state: ConnState,
}

impl ConnectionManager {
    pub fn new() -> (m: Self)
        ensures
            m.state == ConnState::Idle,
    {
        ConnectionManager { state: ConnState::Idle }
    }

    /// Begin establishing a session with a validated target.  Legal
    /// only from `Idle`: the state becomes `Connecting` and the attempt
    /// payload is handed out.  From any other state the call is
    /// rejected with `Busy` and nothing is altered.
    pub fn initiate(&mut self, target: &ConnectionTarget, username: Vec<u8>) -> (r: Result<
        ConnectAttempt,
        ConnectionError,
    >)
        ensures
            old(self).state == ConnState::Idle ==> {
                &&& final(self).state == ConnState::Connecting
                &&& r matches Ok(at) && at.address@ == canonical_bytes(*target) && at.username@
                    == username@
            },
            old(self).state != ConnState::Idle ==> r == Err::<ConnectAttempt, ConnectionError>(
                ConnectionError::Busy,
            ) && *final(self) == *old(self),
    {
        match self.state {
            ConnState::Idle => {
                self.state = ConnState::Connecting;
                Ok(ConnectAttempt { address: target.to_bytes(), username })
            },
            _ => Err(ConnectionError::Busy),
        }
    }

    /// The background worker reports the handshake's outcome.  Only a
    /// pending attempt is affected: success yields `Connected`, failure
    /// keeps the error in `Failed`; a stray completion in any other
    /// state is dropped.
    pub fn complete(&mut self, outcome: Result<(), ConnectionError>)
        ensures
            old(self).state == ConnState::Connecting ==> final(self).state == (match outcome {
                Ok(_) => ConnState::Connected,
                Err(e) => ConnState::Failed(e),
            }),
            old(self).state != ConnState::Connecting ==> *final(self) == *old(self),
    {
        if let ConnState::Connecting = self.state {
            match outcome {
                Ok(_) => {
                    self.state = ConnState::Connected;
                },
                Err(e) => {
                    self.state = ConnState::Failed(e);
                },
            }
        }
    }

    /// The caller acknowledges a failure; only then does the manager
    /// return to `Idle`.  In any other state nothing changes.
    pub fn acknowledge_failure(&mut self)
        ensures
            (old(self).state matches ConnState::Failed(_)) ==> final(self).state == ConnState::Idle,
            !(old(self).state matches ConnState::Failed(_)) ==> *final(self) == *old(self),
    {
        if let ConnState::Failed(_) = self.state {
            self.state = ConnState::Idle;
        }
    }

    /// Tear the session down deterministically.  Legal from
    /// `Connected`; the manager returns to `Idle`.  Releasing the role
    /// and province state that depended on the session is the session
    /// core's cascade, ordered around this call.
    pub fn disconnect(&mut self)
        requires
            old(self).state == ConnState::Connected,
        ensures
            final(self).state == ConnState::Idle,
    {
        self.state = ConnState::Idle;
    }
}

} // verus!
