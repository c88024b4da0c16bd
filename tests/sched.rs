use schtest::sched::{SchedError, SchedExt};

#[test]
fn test_available() {
    let _ = SchedExt::available();
}

#[test]
fn available_is_never_an_error() {
    assert!(SchedExt::available().is_ok());
}

#[test]
fn installed_without_state_file() {
    assert_eq!(SchedExt::installed_from(None, Some("x".to_string())), Ok(None));
}

#[test]
fn installed_when_disabled_or_enabling() {
    assert_eq!(SchedExt::installed_from(Some("disabled\n".to_string()), Some("scx".to_string())), Ok(None));
    assert_eq!(SchedExt::installed_from(Some(" enabling ".to_string()), Some("scx".to_string())), Ok(None));
}

#[test]
fn installed_when_enabled_reads_trimmed_ops() {
    assert_eq!(
        SchedExt::installed_from(Some("enabled\n".to_string()), Some("  scx_simple\n".to_string())),
        Ok(Some("scx_simple".to_string()))
    );
    assert_eq!(SchedExt::installed_from(Some("enabled".to_string()), None), Ok(None));
}

#[test]
fn installed_with_unknown_state_is_an_error() {
    let r = SchedExt::installed_from(Some(" disabling\n".to_string()), None);
    assert_eq!(r, Err(SchedError::UnexpectedStatus("disabling".to_string())));
    assert_eq!(r.unwrap_err().message(), "Unexpected status: disabling");
}

#[test]
fn enabled_reads_trimmed_state() {
    assert!(SchedExt::enabled(" enabled\n"));
    assert!(!SchedExt::enabled("disabled"));
    assert!(!SchedExt::enabled("enabled-ish"));
}
