use pngtools::outcome::outcome_of;
use pngtools::outcome::status_byte;
use pngtools::outcome::BootstrapError;
use pngtools::outcome::ExitOutcome;

fn line_of(o: &ExitOutcome) -> String {
    match o.stderr_line() {
        Some(line) => line,
        None => panic!("expected a standard-error line"),
    }
}

#[test]
fn success_forwards_code() {
    let o = outcome_of(Ok(42));
    assert!(matches!(o, ExitOutcome::Success(42)));
    assert_eq!(o.exit_status(), 42);
    assert!(o.stderr_line().is_none());
}

#[test]
fn success_forwards_zero() {
    let o = outcome_of(Ok(0));
    assert_eq!(o.exit_status(), 0);
    assert!(o.stderr_line().is_none());
}

#[test]
fn success_forwards_negative_code() {
    let o = outcome_of(Ok(-3));
    assert_eq!(o.exit_status(), -3);
}

#[test]
fn success_forwards_extreme_codes() {
    assert_eq!(outcome_of(Ok(i32::MAX)).exit_status(), i32::MAX);
    assert_eq!(outcome_of(Ok(i32::MIN)).exit_status(), i32::MIN);
}

#[test]
fn module_resolution_failure_exits_one() {
    let e = BootstrapError::Resolution(String::from("No module named 'pngtools'"));
    let o = outcome_of(Err(e));
    assert_eq!(o.exit_status(), 1);
    assert_eq!(
        line_of(&o),
        "Error: module or attribute resolution failed: No module named 'pngtools'"
    );
}

#[test]
fn attribute_resolution_failure_exits_one() {
    let e = BootstrapError::Resolution(String::from("module 'pngtools' has no attribute 'CLI'"));
    let o = outcome_of(Err(e));
    assert_eq!(o.exit_status(), 1);
    assert_eq!(
        line_of(&o),
        "Error: module or attribute resolution failed: module 'pngtools' has no attribute 'CLI'"
    );
}

#[test]
fn construction_failure_exits_one() {
    let e = BootstrapError::Construction(String::from("ValueError: bad state"));
    assert_eq!(e.message(), "construction failed: ValueError: bad state");
    let o = outcome_of(Err(e));
    assert_eq!(o.exit_status(), 1);
    assert_eq!(line_of(&o), "Error: construction failed: ValueError: bad state");
}

#[test]
fn invocation_failure_exits_one() {
    let e = BootstrapError::Invocation(String::from("KeyboardInterrupt"));
    assert_eq!(e.message(), "invocation failed: KeyboardInterrupt");
    let o = outcome_of(Err(e));
    assert_eq!(o.exit_status(), 1);
    assert_eq!(line_of(&o), "Error: invocation failed: KeyboardInterrupt");
}

#[test]
fn conversion_failure_exits_one() {
    let e = BootstrapError::Conversion(String::from(
        "'str' object cannot be interpreted as an integer",
    ));
    let o = outcome_of(Err(e));
    assert_eq!(o.exit_status(), 1);
    assert_eq!(
        line_of(&o),
        "Error: exit-code conversion failed: 'str' object cannot be interpreted as an integer"
    );
}

#[test]
fn runtime_acquisition_failure_exits_one() {
    let e = BootstrapError::RuntimeAcquisition(String::from("interpreter unavailable"));
    assert_eq!(e.message(), "runtime acquisition failed: interpreter unavailable");
    let o = outcome_of(Err(e));
    assert_eq!(o.exit_status(), 1);
}

#[test]
fn failure_message_nonempty_even_without_detail() {
    let e = BootstrapError::Resolution(String::new());
    let m = e.message();
    assert!(!m.is_empty());
    assert_eq!(m, "module or attribute resolution failed: ");
}

#[test]
fn equal_results_give_equal_outcomes() {
    let o1 = outcome_of(Ok(7));
    let o2 = outcome_of(Ok(7));
    assert!(matches!(o1, ExitOutcome::Success(_)));
    assert!(matches!(o2, ExitOutcome::Success(_)));
    assert_eq!(o1.exit_status(), o2.exit_status());

    let e1 = BootstrapError::Invocation(String::from("RuntimeError: loop broke"));
    let e2 = BootstrapError::Invocation(String::from("RuntimeError: loop broke"));
    let f1 = outcome_of(Err(e1));
    let f2 = outcome_of(Err(e2));
    assert!(matches!(f1, ExitOutcome::Failure(_)));
    assert!(matches!(f2, ExitOutcome::Failure(_)));
    assert_eq!(f1.exit_status(), f2.exit_status());
    assert_eq!(line_of(&f1), line_of(&f2));
}

#[test]
fn status_byte_identity_below_256() {
    assert_eq!(status_byte(0), 0);
    assert_eq!(status_byte(1), 1);
    assert_eq!(status_byte(255), 255);
}

#[test]
fn status_byte_wraps_large_codes() {
    assert_eq!(status_byte(256), 0);
    assert_eq!(status_byte(300), 44);
    assert_eq!(status_byte(i32::MAX), 255);
}

#[test]
fn status_byte_wraps_negative_codes() {
    assert_eq!(status_byte(-1), 255);
    assert_eq!(status_byte(-255), 1);
    assert_eq!(status_byte(-256), 0);
    assert_eq!(status_byte(-300), 212);
    assert_eq!(status_byte(i32::MIN), 0);
}
