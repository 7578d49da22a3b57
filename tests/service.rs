use flexispot_e7::command::{Command, Preset};
use flexispot_e7::service::{authorized, remote_allowed};

#[test]
fn authorization_needs_the_secret() {
    assert!(authorized(Some("SECRET-REDACTED"), "SECRET-REDACTED"));
    assert!(!authorized(Some("other"), "SECRET-REDACTED"));
    assert!(!authorized(Some(""), "SECRET-REDACTED"));
    assert!(!authorized(None, "SECRET-REDACTED"));
}

#[test]
fn remote_commands() {
    assert!(remote_allowed(&Command::Up { diff: None }));
    assert!(remote_allowed(&Command::Go { preset: Preset::Standing }));
    assert!(remote_allowed(&Command::SetHeight { height: 1000 }));
    assert!(!remote_allowed(&Command::Query));
    assert!(!remote_allowed(&Command::WakeUp));
    assert!(!remote_allowed(&Command::Memory));
}
