use rustdeploy::validation::{
    validate_commit_sha, validate_email, validate_github_owner, validate_no_path_traversal,
    validate_project_name,
};

#[test]
fn test_validate_project_name_valid() {
    assert!(validate_project_name("myproject").is_ok());
    assert!(validate_project_name("my-project").is_ok());
    assert!(validate_project_name("my_project_123").is_ok());
}

#[test]
fn test_validate_project_name_invalid() {
    assert!(validate_project_name("").is_err());
    assert!(validate_project_name("123project").is_err());
    assert!(validate_project_name("-project").is_err());
    assert!(validate_project_name("project!").is_err());
}

#[test]
fn test_validate_github_owner_valid() {
    assert!(validate_github_owner("octocat").is_ok());
    assert!(validate_github_owner("my-org").is_ok());
    assert!(validate_github_owner("a1").is_ok());
}

#[test]
fn test_validate_github_owner_invalid() {
    assert!(validate_github_owner("").is_err());
    assert!(validate_github_owner("-invalid").is_err());
    assert!(validate_github_owner("invalid-").is_err());
    assert!(validate_github_owner("in--valid").is_err());
}

#[test]
fn test_validate_no_path_traversal() {
    assert!(validate_no_path_traversal("valid/path", "test").is_ok());
    assert!(validate_no_path_traversal("../etc/passwd", "test").is_err());
    assert!(validate_no_path_traversal("/etc/passwd", "test").is_err());
}

#[test]
fn test_validate_commit_sha() {
    assert!(validate_commit_sha("a".repeat(40).as_str()).is_ok());
    assert!(validate_commit_sha("abc123").is_err());
    assert!(validate_commit_sha("z".repeat(40).as_str()).is_err());
}

#[test]
fn test_validate_email() {
    assert!(validate_email("user@example.com").is_ok());
    assert!(validate_email("user.name+tag@domain.org").is_ok());
    assert!(validate_email("invalid").is_err());
    assert!(validate_email("@domain.com").is_err());
}
