use retry::tracing_init::{init, init_with, Parameter, Timer};

#[test]
fn default_key_is_rust_log() {
    assert_eq!(Parameter::default().directive_env_key(), "RUST_LOG");
}

#[test]
fn missing_directives_are_set_to_info() {
    let setup = init(false);
    assert_eq!(setup.directive_env_key, "RUST_LOG");
    assert_eq!(setup.assign, Some("info"));
    assert_eq!(setup.timer, Timer::UtcRfc3339);
    assert!(setup.ansi);
    assert!(setup.file);
    assert!(setup.line_number);
    assert!(!setup.target);
}

#[test]
fn present_directives_are_kept() {
    let setup = init_with(Parameter::default(), true);
    assert_eq!(setup.directive_env_key, "RUST_LOG");
    assert_eq!(setup.assign, None);
    assert_eq!(setup.timer, Timer::UtcRfc3339);
    assert!(setup.ansi && setup.file && setup.line_number && !setup.target);
}
