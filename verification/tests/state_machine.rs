use desktop_pet::pet::state_machine::{
    coin_values, draw_for, odds_for, resolve_transition, HoldTime, MachineState, StateMachine,
    StateTransition, TransitionDraws, TransitionOdds,
};
use desktop_pet::random::Odds;

fn draws(first: bool, second: bool, third: bool, reverse: bool) -> TransitionDraws {
    TransitionDraws { first, second, third, reverse }
}

#[test]
fn idle_decision_table() {
    assert_eq!(resolve_transition(MachineState::Idle, false, draws(true, true, true, true)), (MachineState::Walk, true));
    assert_eq!(resolve_transition(MachineState::Idle, false, draws(true, false, false, false)), (MachineState::Walk, false));
    assert_eq!(resolve_transition(MachineState::Idle, false, draws(false, true, true, true)), (MachineState::Sleep, false));
    assert_eq!(resolve_transition(MachineState::Idle, false, draws(false, false, true, true)), (MachineState::Sit, false));
    assert_eq!(resolve_transition(MachineState::Idle, false, draws(false, false, false, true)), (MachineState::Idle, false));
}

#[test]
fn walk_decision_table() {
    assert_eq!(resolve_transition(MachineState::Walk, true, draws(false, false, false, true)), (MachineState::Idle, false));
    assert_eq!(resolve_transition(MachineState::Walk, false, draws(true, false, false, true)), (MachineState::Idle, false));
    assert_eq!(resolve_transition(MachineState::Walk, false, draws(false, false, false, true)), (MachineState::Walk, true));
    assert_eq!(resolve_transition(MachineState::Walk, false, draws(false, false, false, false)), (MachineState::Walk, false));
}

#[test]
fn other_decisions() {
    assert_eq!(resolve_transition(MachineState::Sleep, false, draws(true, false, false, false)), (MachineState::Idle, false));
    assert_eq!(resolve_transition(MachineState::Sleep, false, draws(false, true, true, true)), (MachineState::Sleep, false));
    assert_eq!(resolve_transition(MachineState::Sit, false, draws(true, false, false, false)), (MachineState::Idle, false));
    assert_eq!(resolve_transition(MachineState::Sit, false, draws(false, false, false, false)), (MachineState::Sit, false));
    assert_eq!(resolve_transition(MachineState::Eat, false, draws(true, true, true, true)), (MachineState::Happy, false));
    assert_eq!(resolve_transition(MachineState::Happy, true, draws(true, true, true, true)), (MachineState::Idle, false));
    assert_eq!(resolve_transition(MachineState::Startled, false, draws(false, false, false, false)), (MachineState::Idle, false));
}

#[test]
fn update_without_expiry_changes_nothing() {
    let mut m = StateMachine::new();
    assert_eq!(m.current, MachineState::Idle);
    let t = m.update(false, true);
    assert_eq!(t, StateTransition { new_state: None, should_reverse: false });
    assert_eq!(m.current, MachineState::Idle);
}

#[test]
fn forced_states_hold_fixed_times() {
    let mut m = StateMachine::new();
    assert_eq!(m.force_transition(MachineState::Eat), HoldTime::Millis(2000));
    assert_eq!(m.current, MachineState::Eat);
    assert_eq!(m.force_transition(MachineState::Happy), HoldTime::Millis(1500));
    assert_eq!(m.force_transition(MachineState::Startled), HoldTime::Millis(800));
    assert_eq!(m.force_transition(MachineState::Sleep), HoldTime::Random);
    assert_eq!(m.current, MachineState::Sleep);
}

#[test]
fn eating_always_ends_in_joy() {
    for _ in 0..20 {
        let mut m = StateMachine::new();
        m.force_transition(MachineState::Eat);
        let t = m.update(true, false);
        assert_eq!(t, StateTransition { new_state: Some(MachineState::Happy), should_reverse: false });
        assert_eq!(m.current, MachineState::Happy);
        let t = m.transition(false);
        assert_eq!(t.new_state, Some(MachineState::Idle));
    }
}

#[test]
fn long_walk_always_stops() {
    for _ in 0..20 {
        let mut m = StateMachine::new();
        m.force_transition(MachineState::Walk);
        let t = m.update(true, true);
        assert_eq!(t, StateTransition { new_state: Some(MachineState::Idle), should_reverse: false });
    }
}

#[test]
fn random_transitions_stay_in_the_table() {
    for _ in 0..200 {
        let mut m = StateMachine::new();
        let t = m.transition(false);
        let s = t.new_state.unwrap();
        assert_eq!(m.current, s);
        assert!(matches!(s, MachineState::Walk | MachineState::Sleep | MachineState::Sit | MachineState::Idle));
        if t.should_reverse {
            assert_eq!(s, MachineState::Walk);
        }
        let t2 = m.transition(false);
        match s {
            MachineState::Sleep => assert!(matches!(t2.new_state, Some(MachineState::Idle) | Some(MachineState::Sleep))),
            MachineState::Sit => assert!(matches!(t2.new_state, Some(MachineState::Idle) | Some(MachineState::Sit))),
            MachineState::Walk => assert!(matches!(t2.new_state, Some(MachineState::Idle) | Some(MachineState::Walk))),
            _ => {}
        }
    }
}

#[test]
fn draws_for_fixed_states_are_all_tails() {
    let c = draw_for(MachineState::Eat);
    assert!(c.first.is_none() && c.second.is_none() && c.third.is_none() && c.reverse.is_none());
    assert_eq!(coin_values(&c), draws(false, false, false, false));
    let c = draw_for(MachineState::Sleep);
    let d = coin_values(&c);
    assert!(!d.second && !d.third && !d.reverse);
}

fn o(numerator: u32, denominator: u32) -> Option<Odds> {
    Some(Odds { numerator, denominator })
}

#[test]
fn odds_table() {
    assert_eq!(odds_for(MachineState::Idle), TransitionOdds { first: o(3, 5), second: o(1, 5), third: o(1, 10), reverse: o(1, 2) });
    assert_eq!(odds_for(MachineState::Walk), TransitionOdds { first: o(3, 10), second: None, third: None, reverse: o(3, 10) });
    assert_eq!(odds_for(MachineState::Sleep), TransitionOdds { first: o(3, 10), second: None, third: None, reverse: None });
    assert_eq!(odds_for(MachineState::Sit), TransitionOdds { first: o(2, 5), second: None, third: None, reverse: None });
    let none = TransitionOdds { first: None, second: None, third: None, reverse: None };
    assert_eq!(odds_for(MachineState::Eat), none);
    assert_eq!(odds_for(MachineState::Happy), none);
    assert_eq!(odds_for(MachineState::Startled), none);
}

#[test]
fn coins_are_flipped_with_table_odds() {
    let c = draw_for(MachineState::Idle);
    assert_eq!(c.first.unwrap().odds, Odds { numerator: 3, denominator: 5 });
    assert_eq!(c.second.unwrap().odds, Odds { numerator: 1, denominator: 5 });
    assert_eq!(c.third.unwrap().odds, Odds { numerator: 1, denominator: 10 });
    assert_eq!(c.reverse.unwrap().odds, Odds { numerator: 1, denominator: 2 });
    let c = draw_for(MachineState::Walk);
    assert_eq!(c.first.unwrap().odds, Odds { numerator: 3, denominator: 10 });
    assert!(c.second.is_none() && c.third.is_none());
}

#[test]
fn idle_walks_about_three_times_in_five() {
    let mut walks = 0;
    for _ in 0..2000 {
        if draw_for(MachineState::Idle).first.unwrap().heads {
            walks += 1;
        }
    }
    assert!(walks > 1000 && walks < 1400);
}
