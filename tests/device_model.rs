use vent_control::device::{on_duration, Action, Device, Rejection};

#[test]
fn pulse_is_period_times_step_percent() {
    let table = [0u32, 20, 40, 60, 80, 96];
    for (i, pct) in table.iter().enumerate() {
        let mut d = Device::roof_vent();
        d.take_action(Action::SetTarget, Some(i)).unwrap();
        assert_eq!(d.on_duration_ms, 100 * pct / 100);
        assert!(d.on_duration_ms <= d.period_ms);
    }
    assert_eq!(on_duration(250, 96), 240);
    assert_eq!(on_duration(7, 50), 3);
}

#[test]
fn off_always_goes_to_zero() {
    let mut d = Device::roof_vent();
    d.take_action(Action::SetTarget, Some(4)).unwrap();
    assert_eq!(d.take_action(Action::Off, None), Ok(()));
    assert_eq!(d.target, 0);
    assert_eq!(d.action, Action::Off);
    assert_eq!(d.on_duration_ms, 0);
}

#[test]
fn on_from_zero_uses_default_target() {
    let mut d = Device::roof_vent();
    assert_eq!(d.take_action(Action::On, None), Ok(()));
    assert_eq!(d.target, 3);
    assert_eq!(d.action, Action::On);
    assert_eq!(d.on_duration_ms, 60);
}

#[test]
fn on_from_running_keeps_target() {
    let mut d = Device::roof_vent();
    d.take_action(Action::SetTarget, Some(1)).unwrap();
    assert_eq!(d.take_action(Action::On, None), Ok(()));
    assert_eq!(d.target, 1);
    assert_eq!(d.action, Action::On);
}

#[test]
fn up_and_down_clamp() {
    let mut d = Device::roof_vent();
    d.take_action(Action::Down, None).unwrap();
    assert_eq!(d.target, 0);
    for _ in 0..10 {
        d.take_action(Action::Up, None).unwrap();
    }
    assert_eq!(d.target, 5);
    assert_eq!(d.on_duration_ms, 96);
    assert_eq!(d.action, Action::Off);
    d.take_action(Action::Down, None).unwrap();
    assert_eq!(d.target, 4);
    assert_eq!(d.on_duration_ms, 80);
}

#[test]
fn set_past_table_is_refused() {
    let mut d = Device::roof_vent();
    d.take_action(Action::SetTarget, Some(2)).unwrap();
    assert_eq!(
        d.take_action(Action::SetTarget, Some(6)),
        Err(Rejection::MissingOrInvalidTarget)
    );
    assert_eq!(d.take_action(Action::SetTarget, None), Err(Rejection::MissingOrInvalidTarget));
    assert_eq!(d.target, 2);
    assert_eq!(d.action, Action::SetTarget);
    assert_eq!(d.on_duration_ms, 40);
}

#[test]
fn unsupported_action_is_refused() {
    let mut d = Device::vent_louver();
    d.take_action(Action::On, None).unwrap();
    assert_eq!(d.take_action(Action::Up, None), Err(Rejection::UnsupportedAction));
    assert_eq!(d.take_action(Action::SetTarget, Some(1)), Err(Rejection::UnsupportedAction));
    assert_eq!(d.target, 3);
    assert_eq!(d.action, Action::On);
    assert_eq!(d.on_duration_ms, 60);
}

#[test]
fn new_checks_the_table() {
    let ok = Device::new("x".to_string(), vec![Action::On], [0, 10, 10, 50, 90, 100], 2, 200).unwrap();
    assert_eq!(ok.target, 0);
    assert_eq!(ok.action, Action::Off);
    assert_eq!(ok.on_duration_ms, 0);
    let start = Device::new("y".to_string(), vec![Action::On], [10, 10, 10, 50, 90, 100], 2, 200).unwrap();
    assert_eq!(start.on_duration_ms, 20);
    assert!(Device::new("x".to_string(), vec![], [0, 30, 20, 50, 90, 100], 2, 200).is_none());
    assert!(Device::new("x".to_string(), vec![], [0, 30, 40, 50, 90, 101], 2, 200).is_none());
    assert!(Device::new("x".to_string(), vec![], [0, 30, 40, 50, 90, 100], 6, 200).is_none());
}
