use project_init::error::InitError;

#[test]
fn already_initialized_reads_verbatim() {
    assert_eq!(InitError::AlreadyInitialized.message(), "Package is already initialized");
}

#[test]
fn invalid_name_reads_with_the_name() {
    let error = InitError::InvalidName { name: "no good".to_string() };
    assert_eq!(error.message(), "Invalid package name: `no good`");
}

#[test]
fn errors_of_collaborators_read_as_they_were_told() {
    let detail = "boom".to_string();
    assert_eq!(InitError::DiscoveryError { detail: detail.clone() }.message(), "boom");
    assert_eq!(InitError::InterpreterResolutionError { detail: detail.clone() }.message(), "boom");
    assert_eq!(InitError::ManifestEditError { detail }.message(), "boom");
}

#[test]
fn filesystem_error_reads_with_the_path() {
    let error = InitError::FilesystemError {
        path: "foo/pyproject.toml".to_string(),
        detail: "permission denied".to_string(),
    };
    assert_eq!(error.message(), "foo/pyproject.toml: permission denied");
}

#[test]
fn unexpected_reply_reads_as_such() {
    assert_eq!(InitError::UnexpectedReply.message(), "Unexpected reply to a pending step");
}
