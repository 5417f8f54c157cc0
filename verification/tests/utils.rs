use release_manager::errors::{IoErrorKind, IoFailure, ManagerError};
use release_manager::process::{Action, CommandLine, CommandOutcome, Event};
use release_manager::utils::{
    check_app, format_subcommand_tab, get_debian_cache_folder, operation_info, require_arg,
    validate_backend, validate_required_args,
};

#[test]
fn test_validate_backend() {
    assert!(validate_backend("gs").is_ok());
    assert!(validate_backend("hetzner").is_ok());
    assert!(validate_backend("local").is_ok());
    assert!(validate_backend("invalid").is_err());
}

#[test]
fn test_validate_required_args() {
    let valid_arg = "value".to_string();
    let args = vec![("arg1", Some(&valid_arg)), ("arg2", Some(&valid_arg))];
    assert!(validate_required_args(&args).is_ok());

    let args_with_missing = vec![("arg1", Some(&valid_arg)), ("arg2", None)];
    assert!(validate_required_args(&args_with_missing).is_err());
}

#[test]
fn unsupported_backend_is_reported_by_name() {
    assert_eq!(
        validate_backend("invalid"),
        Err(ManagerError::UnsupportedBackend("invalid".to_string()))
    );
    assert_eq!(validate_backend(""), Err(ManagerError::UnsupportedBackend(String::new())));
    assert_eq!(validate_backend("GS"), Err(ManagerError::UnsupportedBackend("GS".to_string())));
}

#[test]
fn first_missing_argument_is_reported() {
    let value = "value".to_string();
    let empty = String::new();
    let args = vec![("a", Some(&value)), ("b", Some(&empty)), ("c", None)];
    assert_eq!(
        validate_required_args(&args),
        Err(ManagerError::MissingParameter("b".to_string()))
    );
    let args = vec![("a", None), ("b", Some(&value))];
    assert_eq!(
        validate_required_args(&args),
        Err(ManagerError::MissingParameter("a".to_string()))
    );
    let none: Vec<(&str, Option<&String>)> = vec![];
    assert_eq!(validate_required_args(&none), Ok(()));
}

#[test]
fn single_argument_check() {
    assert_eq!(require_arg("x", Some("v")), None);
    assert_eq!(require_arg("x", Some("")), Some(ManagerError::MissingParameter("x".to_string())));
    assert_eq!(require_arg("x", None), Some(ManagerError::MissingParameter("x".to_string())));
}

#[test]
fn subcommand_tab_is_eight_blanks() {
    assert_eq!(format_subcommand_tab(), "        ");
}

#[test]
fn cache_folder_falls_back_to_home_and_tmp() {
    assert_eq!(get_debian_cache_folder(Some("/data/cache"), Some("/home/u")), "/data/cache");
    assert_eq!(get_debian_cache_folder(None, Some("/home/u")), "/home/u/.release/debian/cache");
    assert_eq!(get_debian_cache_folder(None, None), "/tmp/.release/debian/cache");
    assert_eq!(get_debian_cache_folder(None, Some("")), ".release/debian/cache");
    assert_eq!(get_debian_cache_folder(Some(""), Some("/home/u")), "");
}

#[test]
fn operation_is_announced() {
    let shown = operation_info("Pulling mina artifacts", &[("Backend", "gs"), ("Target", ".")]);
    assert_eq!(
        shown,
        vec![
            "".to_string(),
            " \u{2139}\u{fe0f}  Pulling mina artifacts with following parameters:".to_string(),
            " - Backend: gs".to_string(),
            " - Target: .".to_string(),
            "".to_string(),
        ]
    );
    assert_eq!(operation_info("T", &[]).len(), 3);
}

#[test]
fn program_is_looked_for_with_which() {
    assert_eq!(
        check_app("docker", &Event::Begin),
        Action::Run(CommandLine { program: "which".to_string(), args: vec!["docker".to_string()] })
    );
    let found = Event::Command(CommandOutcome::Exited {
        success: true,
        stdout: "/usr/bin/docker\n".to_string(),
        stderr: String::new(),
    });
    assert_eq!(check_app("docker", &found), Action::Complete(None));
    let missing = Event::Command(CommandOutcome::Exited {
        success: false,
        stdout: String::new(),
        stderr: String::new(),
    });
    assert_eq!(
        check_app("docker", &missing),
        Action::Fail(ManagerError::CommandFailed("docker not found".to_string()))
    );
    let broken = Event::Command(CommandOutcome::NotStarted { reason: "no which".to_string() });
    assert_eq!(
        check_app("docker", &broken),
        Action::Fail(ManagerError::IoError(IoFailure {
            kind: IoErrorKind::Other,
            message: "no which".to_string()
        }))
    );
    assert_eq!(
        check_app("docker", &Event::Exists(true)),
        Action::Fail(ManagerError::ValidationError("unexpected event".to_string()))
    );
}
