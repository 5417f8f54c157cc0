use release_manager::errors::{describe, IoErrorKind, IoFailure, ManagerError};

#[test]
fn every_error_has_its_message() {
    let io = ManagerError::IoError(IoFailure {
        kind: IoErrorKind::NotFound,
        message: "no such file".to_string(),
    });
    assert_eq!(io.message(), "IO error: no such file");
    assert_eq!(
        ManagerError::CommandFailed("boom".to_string()).message(),
        "Command execution failed: boom"
    );
    assert_eq!(
        ManagerError::StorageError("bad".to_string()).message(),
        "Storage operation failed: bad"
    );
    assert_eq!(
        ManagerError::ArtifactNotFound("x".to_string()).message(),
        "Artifact not found: x"
    );
    assert_eq!(
        ManagerError::ValidationError("v".to_string()).message(),
        "Validation error: v"
    );
    assert_eq!(
        ManagerError::MissingParameter("p".to_string()).message(),
        "Required parameter missing: p"
    );
    assert_eq!(
        ManagerError::UnsupportedBackend("ftp".to_string()).message(),
        "Unsupported backend: ftp"
    );
    assert_eq!(
        ManagerError::UnknownArtifact("a".to_string()).message(),
        "Unknown artifact: a"
    );
}

#[test]
fn error_constructors() {
    assert_eq!(
        ManagerError::validation("bad input"),
        ManagerError::ValidationError("bad input".to_string())
    );
    assert_eq!(
        ManagerError::not_found("gone".to_string()),
        ManagerError::IoError(IoFailure { kind: IoErrorKind::NotFound, message: "gone".to_string() })
    );
    assert_eq!(describe("a: ", "b"), "a: b");
    assert_eq!(describe("", ""), "");
}
