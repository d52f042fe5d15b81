use alarm::scheduler::{
    status_line, Action, AlarmConfig, AlarmScheduler, DeliveryError, Event, Phase,
};

fn run_one_fire(s: &mut AlarmScheduler, times: usize) -> Vec<Action> {
    let mut actions = vec![s.step(Event::TimerExpired)];
    for _ in 0..times {
        actions.push(s.step(Event::Delivered));
    }
    actions
}

#[test]
fn config_rejects_zero_wait_or_zero_times() {
    assert!(AlarmConfig::new(0, false, 3).is_none());
    assert!(AlarmConfig::new(5, false, 0).is_none());
    let c = AlarmConfig::new(5, true, 2).unwrap();
    assert_eq!(c.wait_secs, 5);
    assert!(c.repeat);
    assert_eq!(c.times_per_fire, 2);
}

#[test]
fn single_alarm_fires_once_then_finishes() {
    let c = AlarmConfig::new(30, false, 3).unwrap();
    let mut s = AlarmScheduler::new(c);
    assert_eq!(s.phase(), Phase::Idle);
    assert_eq!(s.step(Event::Started), Action::Sleep { secs: 30 });
    let actions = run_one_fire(&mut s, 3);
    assert_eq!(
        actions,
        vec![Action::Deliver, Action::Deliver, Action::Deliver, Action::Finish]
    );
    assert_eq!(s.phase(), Phase::Done);
    assert_eq!(s.step(Event::TimerExpired), Action::Ignore);
    assert_eq!(s.step(Event::Delivered), Action::Ignore);
    assert_eq!(s.phase(), Phase::Done);
}

#[test]
fn repeating_alarm_fires_every_cycle_with_the_same_wait() {
    let c = AlarmConfig::new(1, true, 2).unwrap();
    let mut s = AlarmScheduler::new(c);
    assert_eq!(s.step(Event::Started), Action::Sleep { secs: 1 });
    let mut deliveries = 0;
    for _ in 0..5 {
        let actions = run_one_fire(&mut s, 2);
        deliveries += actions.iter().filter(|a| **a == Action::Deliver).count();
        assert_eq!(actions.last(), Some(&Action::Sleep { secs: 1 }));
        assert_eq!(s.phase(), Phase::Waiting);
    }
    assert_eq!(deliveries, 10);
}

#[test]
fn fatal_error_aborts() {
    let c = AlarmConfig::new(10, true, 3).unwrap();
    let mut s = AlarmScheduler::new(c);
    s.step(Event::Started);
    assert_eq!(s.step(Event::TimerExpired), Action::Deliver);
    assert_eq!(
        s.step(Event::DeliveryFailed { error: DeliveryError::SpeakFailed }),
        Action::Abort { error: DeliveryError::SpeakFailed }
    );
    assert_eq!(s.phase(), Phase::Done);
}

#[test]
fn unsupported_platform_does_not_abort() {
    let c = AlarmConfig::new(10, false, 2).unwrap();
    let mut s = AlarmScheduler::new(c);
    s.step(Event::Started);
    s.step(Event::TimerExpired);
    let e = Event::DeliveryFailed { error: DeliveryError::UnsupportedPlatform };
    assert_eq!(s.step(e), Action::Deliver);
    assert_eq!(s.step(e), Action::Finish);
    assert!(!DeliveryError::UnsupportedPlatform.is_fatal());
    assert!(DeliveryError::BackendUnavailable.is_fatal());
    assert!(DeliveryError::EngineInitFailed.is_fatal());
}

#[test]
fn events_out_of_turn_are_ignored() {
    let c = AlarmConfig::new(10, false, 1).unwrap();
    let mut s = AlarmScheduler::new(c);
    assert_eq!(s.step(Event::Delivered), Action::Ignore);
    assert_eq!(s.phase(), Phase::Idle);
    s.step(Event::Started);
    assert_eq!(s.step(Event::Started), Action::Ignore);
    assert_eq!(s.phase(), Phase::Waiting);
}

#[test]
fn status_lines() {
    let single = AlarmConfig::new(90, false, 1).unwrap();
    assert_eq!(status_line(&single), "Alarm set to play after 1 minute and 30 seconds.");
    let recurring = AlarmConfig::new(120, true, 1).unwrap();
    assert_eq!(
        status_line(&recurring),
        "Recurring alarm set to play every 2 minutes."
    );
}
