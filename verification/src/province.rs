//! Province State Machine: the authoritative "which world is loaded"
//! state.  Selecting stages a candidate without side effects; applying
//! commits it, emits the authoritative broadcast, and is idempotent;
//! cancelling reverts the candidate.  Only a Host (or a process running
//! standalone, with no lobby) may commit a transition.

use crate::events::EventQueue;
use crate::lobby::LobbyRole;
use vstd::prelude::*;

verus! {

/// A loadable game level (map).  `Menu` is the initial state.
#[derive(Clone, Copy, PartialEq, Eq, Structural, Debug)]
pub enum ProvinceState {
    Menu,
    ShootingRange,
    GravityHell,
}

/// The authoritative broadcast: the Host committed a province change
/// and every connected Client must load this province.
#[derive(Clone, Copy, PartialEq, Eq, Structural, Debug)]
pub struct ChangeProvinceServerEvent(pub ProvinceState);

/// A Client's change request, sent upstream to the Host; it is applied
/// only upon the Host's broadcast confirmation.
#[derive(Clone, Copy, PartialEq, Eq, Structural, Debug)]
pub struct ChangeProvinceRequest(pub ProvinceState);

/// A signal to the province-loader collaborator.
#[derive(Clone, Copy, PartialEq, Eq, Structural, Debug)]
pub enum LoadSignal {
    Unload(ProvinceState),
    Load(ProvinceState),
}

/// Rejection of a province commit.
#[derive(Clone, Copy, PartialEq, Eq, Structural, Debug)]
pub enum ProvinceError {
    NotAuthorized,
}

/// Whether a process with this role may commit a province transition:
/// the Host may, a standalone process (no lobby) may, a Client may not.
pub open spec fn may_commit(role: LobbyRole) -> bool {
    role != LobbyRole::Client
}

/// The two conceptual copies of the province state: the applied
/// (currently loaded) value and the selected (pending, pre-confirmation)
/// candidate.  Outside the brief selection window they are equal.
#[derive(Clone, Copy, PartialEq, Eq, Structural, Debug)]
pub struct ProvinceSync {
    pub applied: ProvinceState,
    pub selected: ProvinceState,
}

/// What one commit attempt does: no change and no broadcast when the
/// candidate already equals the applied state, otherwise the candidate
/// becomes applied and exactly one broadcast is emitted.
pub open spec fn spec_apply(p: ProvinceSync) -> (ProvinceSync, Seq<ChangeProvinceServerEvent>) {
    if p.selected == p.applied {
        (p, Seq::<ChangeProvinceServerEvent>::empty())
    } else {
        (
            ProvinceSync { applied: p.selected, selected: p.selected },
            seq![ChangeProvinceServerEvent(p.selected)],
        )
    }
}

impl ProvinceSync {
    /// Both copies start at the menu.
    pub fn new() -> (p: Self)
        ensures
            p.applied == ProvinceState::Menu,
            p.selected == ProvinceState::Menu,
    {
        ProvinceSync { applied: ProvinceState::Menu, selected: ProvinceState::Menu }
    }

    /// Stage a candidate province.  No side effects: the applied state
    /// and the broadcast channel are untouched.
    pub fn select(&mut self, candidate: ProvinceState)
        ensures
            final(self).selected == candidate,
            final(self).applied == old(self).applied,
    {
        self.selected = candidate;
    }

    /// Revert the pending candidate to the applied value, emitting
    /// nothing.
    pub fn cancel(&mut self)
        ensures
            final(self).selected == old(self).applied,
            final(self).applied == old(self).applied,
    {
        self.selected = self.applied;
    }

    /// The change-request a Client sends upstream for its current
    /// candidate.
    pub fn change_request(&self) -> (e: ChangeProvinceRequest)
        ensures
            e.0 == self.selected,
    {
        ChangeProvinceRequest(self.selected)
    }

    /// Commit the staged candidate.  A Client is rejected without any
    /// mutation; a Host (or standalone process) commits: if the
    /// candidate differs from the applied state it becomes applied and
    /// exactly one broadcast is pushed, and otherwise nothing changes
    /// and nothing is emitted, so re-applying an applied value is a
    /// no-op.  Returns whether a broadcast was emitted.
    pub fn apply(&mut self, role: LobbyRole, bus: &mut EventQueue<ChangeProvinceServerEvent>) -> (r:
        Result<bool, ProvinceError>)
        ensures
            !may_commit(role) ==> r == Err::<bool, ProvinceError>(ProvinceError::NotAuthorized)
                && *final(self) == *old(self) && final(bus)@ == old(bus)@,
            may_commit(role) ==> {
                let (p2, evs) = spec_apply(*old(self));
                &&& *final(self) == p2
                &&& final(bus)@ == old(bus)@ + evs
                &&& r == Ok::<bool, ProvinceError>(evs.len() == 1)
            },
    {
        match role {
            LobbyRole::Client => {
                proof {
                    assert(final(bus)@ =~= old(bus)@);
                }
                Err(ProvinceError::NotAuthorized)
            },
            _ => {
                if self.selected == self.applied {
                    proof {
                        assert(final(bus)@ =~= old(bus)@ + spec_apply(*old(self)).1);
                    }
                    Ok(false)
                } else {
                    self.applied = self.selected;
                    bus.push(ChangeProvinceServerEvent(self.selected));
                    proof {
                        assert(final(bus)@ =~= old(bus)@ + spec_apply(*old(self)).1);
                    }
                    Ok(true)
                }
            },
        }
    }

    /// The Host takes up a Client's change request sent upstream: the
    /// requested value is staged and committed in one step, with the
    /// same idempotence as `apply`.  On a process that may not commit
    /// the request is rejected untouched.
    pub fn handle_change_request(
        &mut self,
        role: LobbyRole,
        req: ChangeProvinceRequest,
        bus: &mut EventQueue<ChangeProvinceServerEvent>,
    ) -> (r: Result<bool, ProvinceError>)
        ensures
            !may_commit(role) ==> r == Err::<bool, ProvinceError>(ProvinceError::NotAuthorized)
                && *final(self) == *old(self) && final(bus)@ == old(bus)@,
            may_commit(role) ==> {
                let (p2, evs) = spec_apply(
                    ProvinceSync { applied: old(self).applied, selected: req.0 },
                );
                &&& *final(self) == p2
                &&& final(bus)@ == old(bus)@ + evs
                &&& r == Ok::<bool, ProvinceError>(evs.len() == 1)
            },
    {
        match role {
            LobbyRole::Client => {
                proof {
                    assert(final(bus)@ =~= old(bus)@);
                }
                Err(ProvinceError::NotAuthorized)
            },
            _ => {
                self.select(req.0);
                self.apply(role, bus)
            },
        }
    }

    /// A Client applies the Host's broadcast confirmation: both copies
    /// follow the broadcast value.
    pub fn apply_broadcast(&mut self, ev: ChangeProvinceServerEvent)
        ensures
            final(self).applied == ev.0,
            final(self).selected == ev.0,
    {
        self.applied = ev.0;
        self.selected = ev.0;
    }
}

/// Applying the same value twice in a row produces exactly one
/// broadcast, not two: the second commit finds the candidate already
/// applied and emits nothing.
pub proof fn lemma_apply_idempotent(p: ProvinceSync)
    ensures
        spec_apply(spec_apply(p).0).1 == Seq::<ChangeProvinceServerEvent>::empty(),
        spec_apply(p).1.len() + spec_apply(spec_apply(p).0).1.len() == (if p.selected == p.applied {
            0int
        } else {
            1int
        }),
{
}

/// What the province-loader collaborator must do for a committed
/// transition: unload the previous province, then load the new one;
/// nothing for a transition to the same value.
pub fn loader_signals(prev: ProvinceState, next: ProvinceState) -> (r: Vec<LoadSignal>)
    ensures
        prev != next ==> r@ == seq![LoadSignal::Unload(prev), LoadSignal::Load(next)],
        prev == next ==> r@ == Seq::<LoadSignal>::empty(),
{
    let mut r: Vec<LoadSignal> = Vec::new();
    if prev != next {
        r.push(LoadSignal::Unload(prev));
        r.push(LoadSignal::Load(next));
        proof {
            assert(r@ =~= seq![LoadSignal::Unload(prev), LoadSignal::Load(next)]);
        }
    }
    r
}

} // verus!

