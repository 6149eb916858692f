use mycelia::new_project::{scaffold_outcome, NewProjectError};
use mycelia::release::{env_token, GitHubError};

#[test]
fn scaffold_success_and_signal_are_ok() {
    assert!(scaffold_outcome(Some(0)).is_ok());
    assert!(scaffold_outcome(None).is_ok());
}

#[test]
fn scaffold_terminated_by_user() {
    assert!(matches!(scaffold_outcome(Some(1)), Err(NewProjectError::SetupTerminated)));
}

#[test]
fn scaffold_without_npm() {
    assert!(matches!(scaffold_outcome(Some(2)), Err(NewProjectError::NpmNotFound)));
}

#[test]
fn scaffold_other_failure_keeps_code() {
    assert!(matches!(
        scaffold_outcome(Some(17)),
        Err(NewProjectError::CreateNextAppFailed { code: 17 })
    ));
    assert!(matches!(
        scaffold_outcome(Some(-1)),
        Err(NewProjectError::CreateNextAppFailed { code: -1 })
    ));
}

#[test]
fn release_token_present() {
    match env_token(Some("abc".to_string())) {
        Ok(t) => assert_eq!(t, "abc"),
        Err(_) => panic!("expected the token"),
    }
}

#[test]
fn release_token_missing() {
    assert!(matches!(env_token(None), Err(GitHubError::EnvTokenNotFound)));
}
