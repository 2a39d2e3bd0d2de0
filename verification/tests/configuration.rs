use watchrun::config::Config;
use watchrun::event::{outcome_message, Outcome};

#[test]
fn config_stores_the_startup_inputs() {
    let cfg = Config::new(
        String::from("/tmp/watched"),
        true,
        true,
        true,
        7,
        vec![String::from("make"), String::from("test")],
    );
    assert_eq!(cfg.path, "/tmp/watched");
    assert!(cfg.recursive);
    assert!(cfg.immediate);
    assert!(cfg.stop_on_error);
    assert_eq!(cfg.rate_limit, 7);
    assert_eq!(cfg.command, vec![String::from("make"), String::from("test")]);
}

#[test]
fn empty_command_is_invalid() {
    let cfg = Config::new(String::from("."), false, false, false, 0, Vec::new());
    assert!(!cfg.is_valid());
}

#[test]
fn nonempty_command_is_valid() {
    let cfg = Config::new(String::from("."), false, false, false, 0, vec![String::from("ls")]);
    assert!(cfg.is_valid());
}

#[test]
fn program_is_first_element_and_arguments_are_the_rest() {
    let cfg = Config::new(
        String::from("."),
        false,
        false,
        false,
        0,
        vec![String::from("cargo"), String::from("build"), String::from("--release")],
    );
    assert_eq!(cfg.program(), "cargo");
    assert_eq!(cfg.arguments(), vec![String::from("build"), String::from("--release")]);
}

#[test]
fn outcome_messages_are_exact() {
    assert_eq!(outcome_message(&Outcome::Success), "run successful");
    assert_eq!(outcome_message(&Outcome::Failure), "failed");
}
