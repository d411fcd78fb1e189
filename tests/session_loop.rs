use headless::input::{KeyTransition, Phase};
use headless::session::{react, Action, Effect, KeyBindings, Session};

fn t(code: u16, phase: Phase) -> KeyTransition {
    KeyTransition { code, phase }
}

#[test]
fn only_presses_are_broadcast() {
    let b = KeyBindings::standard();
    for code in [1u16, 30, 110, 111] {
        assert!(react(&b, &t(code, Phase::Pressed)).broadcast);
        let r = react(&b, &t(code, Phase::Released));
        assert!(!r.broadcast);
        assert_eq!(r.effect, Effect::Nothing);
        let r = react(&b, &t(code, Phase::Repeated));
        assert!(!r.broadcast);
        assert_eq!(r.effect, Effect::Nothing);
    }
}

#[test]
fn standard_bindings_dispatch() {
    let b = KeyBindings::standard();
    assert_eq!(react(&b, &t(110, Phase::Pressed)).effect, Effect::HeaterOn);
    assert_eq!(react(&b, &t(111, Phase::Pressed)).effect, Effect::HeaterOff);
    assert_eq!(react(&b, &t(1, Phase::Pressed)).effect, Effect::Terminate);
    assert_eq!(react(&b, &t(30, Phase::Pressed)).effect, Effect::Nothing);
}

#[test]
fn activate_press_then_release() {
    let mut s = Session::new(KeyBindings::standard());
    let actions = s.plan_batch(&vec![t(110, Phase::Pressed), t(110, Phase::Released)]);
    assert_eq!(actions, vec![Action::Broadcast(110), Action::HeaterOn]);
    assert!(s.is_running());
}

#[test]
fn terminate_key_ends_the_session() {
    let mut s = Session::new(KeyBindings::new(110, 112, 111));
    let actions = s.plan_batch(&vec![t(111, Phase::Pressed)]);
    assert_eq!(actions, vec![Action::Broadcast(111), Action::TerminateAll]);
    assert!(!s.is_running());
}

#[test]
fn events_after_terminate_are_ignored() {
    let mut s = Session::new(KeyBindings::standard());
    let actions = s.plan_batch(&vec![
        t(111, Phase::Pressed),
        t(1, Phase::Pressed),
        t(110, Phase::Pressed),
    ]);
    assert_eq!(
        actions,
        vec![Action::Broadcast(111), Action::HeaterOff, Action::Broadcast(1), Action::TerminateAll]
    );
    assert!(!s.is_running());
}

#[test]
fn empty_batch_keeps_running() {
    let mut s = Session::new(KeyBindings::standard());
    assert!(s.plan_batch(&Vec::new()).is_empty());
    assert!(s.is_running());
    assert_eq!(s.bindings(), KeyBindings::standard());
}
