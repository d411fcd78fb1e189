//! The session's decisions: what each key transition causes, and when the
//! session ends.
use vstd::prelude::*;
use crate::input::{KeyTransition, Phase};

verus! {

/// The code of the key that switches the heater on (Insert).
pub const KEY_ACTIVATE: u16 = 110;

/// The code of the key that switches the heater off (Delete).
pub const KEY_DEACTIVATE: u16 = 111;

/// The code of the key that ends the session (Escape).
pub const KEY_TERMINATE: u16 = 1;

/// The three keys with a meaning beyond the status broadcast.
#[derive(Clone, Copy, Debug, PartialEq, Eq, Structural)]
pub struct KeyBindings {
    pub activate: u16,
    pub deactivate: u16,
    pub terminate: u16,
}

/// What a key press does besides the status broadcast.
#[derive(Clone, Copy, Debug, PartialEq, Eq, Structural)]
pub enum Effect {
    Nothing,
    HeaterOn,
    HeaterOff,
    Terminate,
}

/// What a key transition calls for: whether its status is broadcast, and
/// its effect.
#[derive(Clone, Copy, Debug, PartialEq, Eq, Structural)]
pub struct Reaction {
    pub broadcast: bool,
    pub effect: Effect,
}

/// One thing for the session's owner to do, in order.
#[derive(Clone, Copy, Debug, PartialEq, Eq, Structural)]
pub enum Action {
    /// Send the status of the key with this code to the video players.
    Broadcast(u16),
    HeaterOn,
    HeaterOff,
    /// Terminate the video players; the session is over.
    TerminateAll,
}

/// The effect of a transition: only a press has one, and the bindings are
/// tried in the order activate, deactivate, terminate.
pub open spec fn effect_of(b: KeyBindings, t: KeyTransition) -> Effect {
    if t.phase != Phase::Pressed {
        Effect::Nothing
    } else if t.code == b.activate {
        Effect::HeaterOn
    } else if t.code == b.deactivate {
        Effect::HeaterOff
    } else if t.code == b.terminate {
        Effect::Terminate
    } else {
        Effect::Nothing
    }
}

/// The actions of one transition: for a press, its broadcast and then its
/// effect; nothing otherwise.
pub open spec fn actions_of(b: KeyBindings, t: KeyTransition) -> Seq<Action> {
    if t.phase != Phase::Pressed {
        Seq::empty()
    } else {
        let e = effect_of(b, t);
        let first = seq![Action::Broadcast(t.code)];
        match e {
            Effect::HeaterOn => first.push(Action::HeaterOn),
            Effect::HeaterOff => first.push(Action::HeaterOff),
            Effect::Terminate => first.push(Action::TerminateAll),
            Effect::Nothing => first,
        }
    }
}

/// The actions of a run of transitions, and whether it ended the session:
/// transitions after the terminating one are ignored.
pub open spec fn run_of(b: KeyBindings, s: Seq<KeyTransition>) -> (Seq<Action>, bool)
    decreases s.len(),
{
    if s.len() == 0 {
        (Seq::empty(), false)
    } else {
        let prev = run_of(b, s.drop_last());
        if prev.1 {
            prev
        } else {
            (prev.0 + actions_of(b, s.last()), effect_of(b, s.last()) == Effect::Terminate)
        }
    }
}

/// The number of broadcasts among `s`.
pub open spec fn broadcasts_in(s: Seq<Action>) -> nat
    decreases s.len(),
{
    if s.len() == 0 {
        0
    } else {
        broadcasts_in(s.drop_last()) + if s.last() is Broadcast { 1nat } else { 0nat }
    }
}

impl KeyBindings {
    /// Bindings of the three keys.
    pub fn new(activate: u16, deactivate: u16, terminate: u16) -> (r: KeyBindings)
        ensures
            r == (KeyBindings { activate, deactivate, terminate }),
    {
        KeyBindings { activate, deactivate, terminate }
    }

    /// Insert switches the heater on, Delete off, and Escape ends the session.
    pub fn standard() -> (r: KeyBindings)
        ensures
            r == (KeyBindings {
                activate: KEY_ACTIVATE,
                deactivate: KEY_DEACTIVATE,
                terminate: KEY_TERMINATE,
            }),
    {
        KeyBindings { activate: KEY_ACTIVATE, deactivate: KEY_DEACTIVATE, terminate: KEY_TERMINATE }
    }
}

/// What the transition `t` calls for under the bindings `b`: a press is
/// broadcast, a release or a repeat is not.
pub fn react(b: &KeyBindings, t: &KeyTransition) -> (r: Reaction)
    ensures
        r.broadcast == (t.phase == Phase::Pressed),
        r.effect == effect_of(*b, *t),
{
    match t.phase {
        Phase::Pressed => {
            let effect = if t.code == b.activate {
                Effect::HeaterOn
            } else if t.code == b.deactivate {
                Effect::HeaterOff
            } else if t.code == b.terminate {
                Effect::Terminate
            } else {
                Effect::Nothing
            };
            Reaction { broadcast: true, effect }
        },
        _ => Reaction { broadcast: false, effect: Effect::Nothing },
    }
}

/// Appends the actions of `t` to `out`.
fn push_actions(b: &KeyBindings, t: &KeyTransition, out: &mut Vec<Action>) -> (r: Effect)
    ensures
        final(out)@ == old(out)@ + actions_of(*b, *t),
        r == effect_of(*b, *t),
{
    let reaction = react(b, t);
    if reaction.broadcast {
        out.push(Action::Broadcast(t.code));
    }
    match reaction.effect {
        Effect::HeaterOn => out.push(Action::HeaterOn),
        Effect::HeaterOff => out.push(Action::HeaterOff),
        Effect::Terminate => out.push(Action::TerminateAll),
        Effect::Nothing => {},
    }
    proof {
        if t.phase == Phase::Pressed {
            assert(final(out)@ =~= old(out)@ + actions_of(*b, *t));
        } else {
            assert(final(out)@ =~= old(out)@ + actions_of(*b, *t));
        }
    }
    reaction.effect
}

/// The session of the main loop: Running until the terminate key is pressed,
/// then Terminated for good.
pub struct Session {
    bindings: KeyBindings,
    running: bool,
}

impl Session {
    /// The bindings the session reacts to.
    pub closed spec fn bindings_view(&self) -> KeyBindings {
        self.bindings
    }

    /// Whether the session still reads input.
    pub closed spec fn running_view(&self) -> bool {
        self.running
    }

    /// A running session with the bindings `b`.
    pub fn new(b: KeyBindings) -> (r: Session)
        ensures
            r.bindings_view() == b,
            r.running_view(),
    {
        Session { bindings: b, running: true }
    }

    /// Whether the session still reads input.
    pub fn is_running(&self) -> (r: bool)
        ensures
            r == self.running_view(),
    {
        self.running
    }

    /// The bindings the session reacts to.
    pub fn bindings(&self) -> (r: KeyBindings)
        ensures
            r == self.bindings_view(),
    {
        self.bindings
    }

    /// The actions for one batch of transitions, in order. The session ends
    /// at the first press of the terminate key; what follows it in the batch
    /// is ignored, and no further batch is to be read.
    pub fn plan_batch(&mut self, batch: &Vec<KeyTransition>) -> (r: Vec<Action>)
        requires
            old(self).running_view(),
        ensures
            r@ == run_of(old(self).bindings_view(), batch@).0,
            final(self).running_view() == !run_of(old(self).bindings_view(), batch@).1,
            final(self).bindings_view() == old(self).bindings_view(),
    {
        let b = self.bindings;
        let mut out: Vec<Action> = Vec::new();
        let mut done = false;
        let mut i: usize = 0;
        while i < batch.len()
            invariant
                i <= batch.len(),
                run_of(b, batch@.take(i as int)) == (out@, done),
            decreases batch.len() - i,
        {
            proof {
                assert(batch@.take(i as int + 1).drop_last() == batch@.take(i as int));
            }
            if !done {
                let e = push_actions(&b, &batch[i], &mut out);
                done = match e {
                    Effect::Terminate => true,
                    _ => false,
                };
            }
            i = i + 1;
        }
        assert(batch@.take(batch.len() as int) == batch@);
        self.running = !done;
        out
    }
}

/// A press is broadcast exactly once and a release or a repeat never: the
/// actions of a transition hold one broadcast if it is a press, else none.
pub proof fn lemma_one_broadcast_per_press(b: KeyBindings, t: KeyTransition)
    ensures
        broadcasts_in(actions_of(b, t)) == if t.phase == Phase::Pressed { 1nat } else { 0nat },
{
    let a = actions_of(b, t);
    if t.phase != Phase::Pressed {
        assert(broadcasts_in(a) == 0);
    } else {
        let first = seq![Action::Broadcast(t.code)];
        assert(first.drop_last() =~= Seq::<Action>::empty());
        assert(broadcasts_in(Seq::<Action>::empty()) == 0);
        assert(first.last() == Action::Broadcast(t.code));
        assert(broadcasts_in(first) == 1);
        if a.len() == 2 {
            assert(a.drop_last() =~= first);
            assert(!(a.last() is Broadcast));
        }
    }
}

/// The number of presses among `s`.
pub open spec fn presses_in(s: Seq<KeyTransition>) -> nat
    decreases s.len(),
{
    if s.len() == 0 {
        0
    } else {
        presses_in(s.drop_last()) + if s.last().phase == Phase::Pressed { 1nat } else { 0nat }
    }
}

proof fn lemma_broadcasts_concat(a: Seq<Action>, b: Seq<Action>)
    ensures
        broadcasts_in(a + b) == broadcasts_in(a) + broadcasts_in(b),
    decreases b.len(),
{
    if b.len() == 0 {
        assert(a + b =~= a);
    } else {
        assert((a + b).drop_last() =~= a + b.drop_last());
        lemma_broadcasts_concat(a, b.drop_last());
    }
}

/// Over a batch that the session reads to its end, the broadcasts are as
/// many as the presses in it.
pub proof fn lemma_batch_broadcasts(b: KeyBindings, s: Seq<KeyTransition>)
    requires
        !run_of(b, s).1,
    ensures
        broadcasts_in(run_of(b, s).0) == presses_in(s),
    decreases s.len(),
{
    if s.len() > 0 {
        lemma_batch_broadcasts(b, s.drop_last());
        lemma_broadcasts_concat(run_of(b, s.drop_last()).0, actions_of(b, s.last()));
        lemma_one_broadcast_per_press(b, s.last());
    }
}

} // verus!
