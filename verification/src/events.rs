//! Typed event queues: decoupled, FIFO message channels connecting the
//! core's components.  Events queued in a tick are drained in FIFO order
//! within that tick; no direct cross-component calls.

use vstd::prelude::*;

verus! {

/// A user-intent action aimed at the in-game menu.
#[derive(Clone, Copy, PartialEq, Eq, Structural, Debug)]
pub enum UiAction {
    Enable,
    Disable,
    Toggle,
}

/// A menu intent carried on the event bus.
#[derive(Clone, Copy, PartialEq, Eq, Structural, Debug)]
pub struct GameMenuEvent(pub UiAction);

/// A typed FIFO event channel.  Producers `push`; the per-tick update
/// drains the queue front to back.
pub struct EventQueue<T> {
    items: Vec<T>,
}

impl<T> View for EventQueue<T> {
    type V = Seq<T>;

    closed spec fn view(&self) -> Seq<T> {
        self.items@
    }
}

impl<T> EventQueue<T> {
    pub fn new() -> (q: Self)
        ensures
            q@ == Seq::<T>::empty(),
    {
        EventQueue { items: Vec::new() }
    }

    pub fn len(&self) -> (n: usize)
        ensures
            n == self@.len(),
    {
        self.items.len()
    }

    pub fn is_empty(&self) -> (b: bool)
        ensures
            b == (self@.len() == 0),
    {
        self.items.len() == 0
    }

    /// Enqueue one event at the back.
    pub fn push(&mut self, e: T)
        ensures
            final(self)@ == old(self)@.push(e),
    {
        self.items.push(e);
    }

    /// Remove and return all queued events, oldest first.
    pub fn drain(&mut self) -> (out: Vec<T>)
        ensures
            out@ == old(self)@,
            final(self)@ == Seq::<T>::empty(),
    {
        let mut out: Vec<T> = Vec::new();
        while self.items.len() > 0
            invariant
                out@ + self.items@ == old(self)@,
            decreases self.items@.len(),
        {
            let e = self.items.remove(0);
            out.push(e);
        }
        proof {
            assert(self.items@ =~= Seq::<T>::empty());
            assert(out@ + self.items@ =~= out@);
        }
        out
    }
}

/// Effect of one menu action on the menu's visibility flag.
pub open spec fn apply_action(active: bool, a: UiAction) -> bool {
    match a {
        UiAction::Enable => true,
        UiAction::Disable => false,
        UiAction::Toggle => !active,
    }
}

/// Effect of a whole sequence of menu actions, applied front to back.
pub open spec fn apply_actions(active: bool, s: Seq<UiAction>) -> bool
    decreases s.len(),
{
    if s.len() == 0 {
        active
    } else {
        apply_actions(apply_action(active, s[0]), s.skip(1))
    }
}

pub proof fn lemma_apply_actions_push(active: bool, s: Seq<UiAction>, a: UiAction)
    ensures
        apply_actions(active, s.push(a)) == apply_action(apply_actions(active, s), a),
    decreases s.len(),
{
    if s.len() == 0 {
        let p = s.push(a);
        assert(p[0] == a);
        assert(p.skip(1) =~= Seq::<UiAction>::empty());
        assert(apply_actions(active, p) == apply_actions(apply_action(active, a), p.skip(1)));
        assert(apply_actions(apply_action(active, a), p.skip(1)) == apply_action(active, a));
    } else {
        assert(s.push(a).skip(1) =~= s.skip(1).push(a));
        lemma_apply_actions_push(apply_action(active, s[0]), s.skip(1), a);
    }
}

/// The in-game menu's visibility state, driven by `GameMenuEvent`s.
pub struct GameMenu {
    pub is_active: bool,
}

impl GameMenu {
    pub fn new() -> (m: Self)
        ensures
            !m.is_active,
    {
        GameMenu { is_active: false }
    }

    /// Drain the menu's event channel and apply each action in FIFO order.
    pub fn handle_actions(&mut self, q: &mut EventQueue<GameMenuEvent>)
        ensures
            final(self).is_active == apply_actions(
                old(self).is_active,
                old(q)@.map_values(|e: GameMenuEvent| e.0),
            ),
            final(q)@ == Seq::<GameMenuEvent>::empty(),
    {
        let events = q.drain();
        let ghost all = old(q)@.map_values(|e: GameMenuEvent| e.0);
        let n = events.len();
        let mut i: usize = 0;
        while i < n
            invariant
                0 <= i <= n,
                n == events.len(),
                events@ == old(q)@,
                self.is_active == apply_actions(old(self).is_active, all.take(i as int)),
                all == events@.map_values(|e: GameMenuEvent| e.0),
            decreases n - i,
        {
            let GameMenuEvent(a) = events[i];
            proof {
                assert(all.take(i + 1).drop_last() =~= all.take(i as int));
                lemma_apply_actions_push(old(self).is_active, all.take(i as int), all[i as int]);
                assert(all.take(i + 1) =~= all.take(i as int).push(all[i as int]));
            }
            self.is_active = match a {
                UiAction::Enable => true,
                UiAction::Disable => false,
                UiAction::Toggle => !self.is_active,
            };
            i = i + 1;
        }
        proof {
            assert(all.take(n as int) =~= all);
        }
    }
}

} // verus!
