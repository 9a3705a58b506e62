use workhelix_cli_common::{DoctorCheck, RepoInfo};

#[test]
fn lib_test_repo_info_creation() {
    let repo = RepoInfo::new("workhelix", "test", "v");
    assert_eq!(repo.owner, "workhelix");
    assert_eq!(repo.name, "test");
}

#[test]
fn test_doctor_check_creation() {
    let check = DoctorCheck::pass("test");
    assert!(check.passed);

    let check = DoctorCheck::fail("test", "failed");
    assert!(!check.passed);
}

#[test]
fn types_test_repo_info_creation() {
    let repo = RepoInfo::new("workhelix", "prompter", "prompter-v");
    assert_eq!(repo.owner, "workhelix");
    assert_eq!(repo.name, "prompter");
}

#[test]
fn test_doctor_check_pass() {
    let check = DoctorCheck::pass("test check");
    assert!(check.passed);
    assert_eq!(check.name, "test check");
    assert!(check.message.is_none());
}

#[test]
fn test_doctor_check_fail() {
    let check = DoctorCheck::fail("test check", "error message");
    assert!(!check.passed);
    assert_eq!(check.name, "test check");
    assert_eq!(check.message, Some("error message".to_string()));
}

#[test]
fn test_repo_info_latest_release_url() {
    let repo = RepoInfo::new("workhelix", "prompter", "prompter-v");
    let url = repo.latest_release_url();
    assert_eq!(
        url,
        "https://api.github.com/repos/workhelix/prompter/releases/latest"
    );
}

#[test]
fn test_install_script_url_construction() {
    let repo = RepoInfo::new("tftio", "peter-hook", "v");
    let expected = "https://raw.githubusercontent.com/tftio/peter-hook/main/install.sh";
    let actual = format!(
        "https://raw.githubusercontent.com/{}/{}/main/install.sh",
        repo.owner, repo.name
    );
    assert_eq!(actual, expected);
}

#[test]
fn install_script_url_method() {
    let repo = RepoInfo::new("tftio", "peter-hook", "v");
    assert_eq!(
        repo.install_script_url(),
        "https://raw.githubusercontent.com/tftio/peter-hook/main/install.sh"
    );
}

#[test]
fn file_exists_check_found_and_missing() {
    let found = DoctorCheck::file_exists("/etc/tool.toml", true);
    assert!(found.passed);
    assert_eq!(found.name, "File exists: /etc/tool.toml");
    assert!(found.message.is_none());

    let missing = DoctorCheck::file_exists("/etc/tool.toml", false);
    assert!(!missing.passed);
    assert_eq!(missing.name, "File check: /etc/tool.toml");
    assert_eq!(missing.message, Some("File not found: /etc/tool.toml".to_string()));
}

#[test]
fn dir_exists_check_found_and_missing() {
    let found = DoctorCheck::dir_exists("/var/lib/tool", true);
    assert!(found.passed);
    assert_eq!(found.name, "Directory exists: /var/lib/tool");

    let missing = DoctorCheck::dir_exists("/var/lib/tool", false);
    assert!(!missing.passed);
    assert_eq!(missing.name, "Directory check: /var/lib/tool");
    assert_eq!(missing.message, Some("Directory not found: /var/lib/tool".to_string()));
}
