use vent_control::device::{Action, Device};
use vent_control::gateway::{apply_command, handle, parse_params, select_device, CommandError};

fn names() -> Vec<String> {
    vec!["roof vent".to_string(), "vent louver".to_string()]
}

fn pairs(p: &[(&str, &str)]) -> Vec<(String, String)> {
    p.iter().map(|(k, v)| (k.to_string(), v.to_string())).collect()
}

#[test]
fn set_three_on_roof_vent() {
    let params = parse_params("device=roof%20vent&action=Set&target=3");
    assert_eq!(select_device(&names(), &params), Ok(0));
    let mut d = Device::roof_vent();
    assert_eq!(apply_command(&mut d, &params), Ok(()));
    assert_eq!(d.on_duration_ms, 60);
    assert_eq!(d.target, 3);
    assert_eq!(d.action, Action::SetTarget);
}

#[test]
fn missing_device_is_refused() {
    let params = parse_params("device=missing&action=On");
    let e = select_device(&names(), &params).unwrap_err();
    assert_eq!(e, CommandError::BadDevice);
    assert_eq!(e.code(), 422);
    assert_eq!(e.message(), "Bad Device name given");
}

#[test]
fn query_is_split_into_pairs() {
    let params = parse_params("device=vent%20louver&action=Off&junk");
    assert_eq!(params, pairs(&[("device", "vent%20louver"), ("action", "Off")]));
    assert_eq!(select_device(&names(), &params), Ok(1));
}

#[test]
fn no_device_is_refused() {
    let e = select_device(&names(), &pairs(&[("action", "On")])).unwrap_err();
    assert_eq!(e, CommandError::NoDevice);
    assert_eq!(e.message(), "No Device name given");
}

#[test]
fn device_name_is_case_sensitive() {
    let e = select_device(&names(), &pairs(&[("device", "Roof vent")])).unwrap_err();
    assert_eq!(e, CommandError::BadDevice);
}

#[test]
fn last_value_of_a_key_counts() {
    let p = pairs(&[("device", "missing"), ("device", "vent louver")]);
    assert_eq!(select_device(&names(), &p), Ok(1));
}

#[test]
fn action_errors() {
    let mut d = Device::vent_louver();
    let e = apply_command(&mut d, &pairs(&[("device", "vent louver")])).unwrap_err();
    assert_eq!(e, CommandError::NoAction);
    assert_eq!(e.message(), "No Action given");
    let e = apply_command(&mut d, &pairs(&[("action", "Open")])).unwrap_err();
    assert_eq!(e, CommandError::BadAction);
    assert_eq!(e.message(), "Bad Action given");
    let e = apply_command(&mut d, &pairs(&[("action", "Up")])).unwrap_err();
    assert_eq!(e, CommandError::UnsupportedAction);
    assert_eq!(e.message(), "Device doesn't support Action");
    assert_eq!(e.code(), 422);
    assert_eq!(d.action, Action::Off);
    assert_eq!(d.target, 0);
}

#[test]
fn target_errors() {
    let mut d = Device::roof_vent();
    let e = apply_command(&mut d, &pairs(&[("action", "Set")])).unwrap_err();
    assert_eq!(e, CommandError::NoTarget);
    assert_eq!(e.message(), "A target needed to be given");
    for bad in ["6", "", "x", "-1", "99999999999999999999999"] {
        let e = apply_command(&mut d, &pairs(&[("action", "Set"), ("target", bad)])).unwrap_err();
        assert_eq!(e, CommandError::BadTarget);
        assert_eq!(e.message(), "Target should be 0-5");
    }
    assert_eq!(d.target, 0);
    assert_eq!(apply_command(&mut d, &pairs(&[("action", "Set"), ("target", "05")])), Ok(()));
    assert_eq!(d.target, 5);
    assert_eq!(d.on_duration_ms, 96);
}

#[test]
fn target_ignored_unless_set() {
    let mut d = Device::roof_vent();
    assert_eq!(apply_command(&mut d, &pairs(&[("action", "On"), ("target", "zz")])), Ok(()));
    assert_eq!(d.target, 3);
    assert_eq!(apply_command(&mut d, &pairs(&[("action", "Up")])), Ok(()));
    assert_eq!(d.target, 4);
    assert_eq!(apply_command(&mut d, &pairs(&[("action", "Down")])), Ok(()));
    assert_eq!(apply_command(&mut d, &pairs(&[("action", "Off")])), Ok(()));
    assert_eq!(d.target, 0);
}

#[test]
fn plus_sign_target_is_accepted() {
    let mut d = Device::roof_vent();
    assert_eq!(apply_command(&mut d, &pairs(&[("action", "Set"), ("target", "+3")])), Ok(()));
    assert_eq!(d.target, 3);
    for bad in ["+", "++3", "+-3", "+6"] {
        let e = apply_command(&mut d, &pairs(&[("action", "Set"), ("target", bad)])).unwrap_err();
        assert_eq!(e, CommandError::BadTarget);
    }
}

#[test]
fn handle_selects_then_applies() {
    let mut fan = Device::roof_vent();
    let mut louver = Device::vent_louver();
    let p = parse_params("device=vent%20louver&action=On");
    assert_eq!(handle(&mut fan, &mut louver, &p), Ok(1));
    assert_eq!(louver.action, Action::On);
    assert_eq!(louver.target, 3);
    assert_eq!(fan.action, Action::Off);
    assert_eq!(fan.target, 0);
    let p = parse_params("device=roof%20vent&action=Set&target=3");
    assert_eq!(handle(&mut fan, &mut louver, &p), Ok(0));
    assert_eq!(fan.on_duration_ms, 60);
    assert_eq!(fan.action, Action::SetTarget);
}

#[test]
fn handle_reports_first_failing_check() {
    let mut fan = Device::roof_vent();
    let mut louver = Device::vent_louver();
    let cases: [(&str, CommandError); 8] = [
        ("", CommandError::NoDevice),
        ("action=Bogus", CommandError::NoDevice),
        ("device=missing&action=Bogus", CommandError::BadDevice),
        ("device=roof%20vent", CommandError::NoAction),
        ("device=roof%20vent&action=Bogus&target=9", CommandError::BadAction),
        ("device=vent%20louver&action=Set", CommandError::UnsupportedAction),
        ("device=roof%20vent&action=Set", CommandError::NoTarget),
        ("device=roof%20vent&action=Set&target=9", CommandError::BadTarget),
    ];
    for (query, expected) in cases {
        let e = handle(&mut fan, &mut louver, &parse_params(query)).unwrap_err();
        assert_eq!(e, expected, "query {query}");
        assert_eq!(e.code(), 422);
    }
    assert_eq!(fan.target, 0);
    assert_eq!(fan.action, Action::Off);
    assert_eq!(louver.action, Action::Off);
    let e = handle(&mut fan, &mut louver, &parse_params("device=roof%20vent")).unwrap_err();
    assert_eq!(e.message(), "No Action given");
}
