use dns_failover::gate::FailoverState;
use dns_failover::notify::NotificationKind;

#[test]
fn process_starts_in_normal() {
    assert_eq!(FailoverState::new(), FailoverState::Normal);
    assert!(!FailoverState::new().is_fallback());
}

#[test]
fn flag_and_state_correspond() {
    assert_eq!(FailoverState::from_flag(true), FailoverState::Fallback);
    assert_eq!(FailoverState::from_flag(false), FailoverState::Normal);
    assert!(FailoverState::Fallback.is_fallback());
    assert!(!FailoverState::Normal.is_fallback());
}

#[test]
fn entering_fallback_owes_fallback_engaged() {
    assert_eq!(FailoverState::Normal.transition(true), Some(NotificationKind::FallbackEngaged));
}

#[test]
fn leaving_fallback_owes_recovery() {
    assert_eq!(FailoverState::Fallback.transition(false), Some(NotificationKind::Recovery));
}

#[test]
fn staying_owes_nothing() {
    assert_eq!(FailoverState::Normal.transition(false), None);
    assert_eq!(FailoverState::Fallback.transition(true), None);
}

#[test]
fn commit_follows_only_a_delivered_notification() {
    assert_eq!(FailoverState::Normal.commit(true, true), FailoverState::Fallback);
    assert_eq!(FailoverState::Normal.commit(true, false), FailoverState::Normal);
    assert_eq!(FailoverState::Fallback.commit(false, true), FailoverState::Normal);
    assert_eq!(FailoverState::Fallback.commit(false, false), FailoverState::Fallback);
}

#[test]
fn normal_three_times_sends_no_transition_mail() {
    let mut state = FailoverState::new();
    let mut owed = 0;
    for _ in 0..3 {
        if state.transition(false).is_some() {
            owed += 1;
        }
        state = state.commit(false, true);
    }
    assert_eq!(owed, 0);
    assert_eq!(state, FailoverState::Normal);
}

#[test]
fn failed_notification_is_owed_again() {
    let state = FailoverState::Normal;
    let first = state.transition(true);
    let state = state.commit(true, false);
    assert_eq!(state.transition(true), first);
    let state = state.commit(true, true);
    assert_eq!(state.transition(true), None);
}
