use workhelix_cli_common::integrity::{check_digest, expected_digest, sha256_hex, to_hex, verify_archive};
use workhelix_cli_common::orchestrator::{Action, Event, Outcome, Stage, UpdateRequest, UpdateRun};
use workhelix_cli_common::release::tag_from_metadata;
use workhelix_cli_common::update::{checksum_url, version_from_tag, Platform, UpdateError};
use workhelix_cli_common::RepoInfo;

const ABC_DIGEST: &str = "ba7816bf8f01cfea414140de5dae2223b00361a396177a9cb410ff61f20015ad";

fn request(version: Option<&str>, force: bool, os: &str, arch: &str) -> UpdateRequest {
    UpdateRequest {
        repo: RepoInfo::new("acme", "tool", "tool-v"),
        current_version: "1.0.0".to_string(),
        version: version.map(|v| v.to_string()),
        force,
        os: os.to_string(),
        arch: arch.to_string(),
    }
}

fn metadata(tag: &str) -> Event {
    Event::Metadata(Ok(format!("{{\"url\": \"x\", \"tag_name\": \"{tag}\", \"name\": \"r\"}}")))
}

fn started(req: UpdateRequest) -> (UpdateRun, Action) {
    match UpdateRun::start(req) {
        Ok(pair) => pair,
        Err(e) => panic!("start failed: {}", e.message()),
    }
}

fn finish_of(a: &Action) -> (Outcome, String) {
    match a {
        Action::Finish { outcome, message } => (*outcome, message.clone()),
        other => panic!("expected a finish, got {other:?}"),
    }
}

#[test]
fn tag_prefix_then_v_is_stripped() {
    assert_eq!(version_from_tag("tool-v1.2.0", "tool-v"), "1.2.0");
    assert_eq!(version_from_tag("v1.2.0", ""), "1.2.0");
    assert_eq!(version_from_tag("proj-v2.0-dev", "proj-"), "2.0-dev");
    assert_eq!(version_from_tag("tool-vv1", "tool-"), "v1");
    assert_eq!(version_from_tag("other-1.0", "tool-v"), "other-1.0");
    assert_eq!(version_from_tag("", "tool-v"), "");
}

#[test]
fn tag_is_read_from_metadata() {
    assert_eq!(
        tag_from_metadata("{\"tag_name\" : \"tool-v1.2.0\"}"),
        Some("tool-v1.2.0".to_string())
    );
    assert_eq!(tag_from_metadata("{\"tag_name\":\"v3\",\"tag_name\":\"v4\"}"), Some("v3".to_string()));
    assert_eq!(tag_from_metadata("{\"name\": \"x\"}"), None);
    assert_eq!(tag_from_metadata("{\"tag_name\": 12}"), None);
    assert_eq!(tag_from_metadata("{\"tag_name\": \"a\\\"b\"}"), Some("a\"b".to_string()));
    assert_eq!(tag_from_metadata("{\"tag_name\": \"a\\q\"}"), None);
    assert_eq!(tag_from_metadata("{\"tag_name\": \"unterminated"), None);
    assert_eq!(tag_from_metadata(""), None);
}

#[test]
fn platforms_map_to_tokens() {
    let cases = [
        ("linux", "x86_64", "x86_64-unknown-linux-gnu", "tar.gz", "tool"),
        ("linux", "aarch64", "aarch64-unknown-linux-gnu", "tar.gz", "tool"),
        ("macos", "x86_64", "x86_64-apple-darwin", "tar.gz", "tool"),
        ("macos", "aarch64", "aarch64-apple-darwin", "tar.gz", "tool"),
        ("windows", "x86_64", "x86_64-pc-windows-msvc", "zip", "tool.exe"),
    ];
    for (os, arch, token, ext, bin) in cases {
        let p = Platform::identify(os, arch).unwrap();
        assert_eq!(p.token(), token);
        assert_eq!(p.archive_ext(), ext);
        assert_eq!(p.binary_name("tool"), bin);
    }
}

#[test]
fn unsupported_platform_is_rejected() {
    match Platform::identify("windows", "aarch64") {
        Err(UpdateError::UnsupportedPlatform { os, arch }) => {
            assert_eq!(os, "windows");
            assert_eq!(arch, "aarch64");
        }
        other => panic!("unexpected {other:?}"),
    }
    assert!(Platform::identify("freebsd", "x86_64").is_err());
}

#[test]
fn unsupported_platform_stops_before_any_fetch() {
    match UpdateRun::start(request(None, false, "solaris", "sparc")) {
        Err(e) => assert_eq!(e.message(), "unsupported platform: solaris/sparc"),
        Ok((_, a)) => panic!("a run started with {a:?}"),
    }
}

#[test]
fn download_and_checksum_urls() {
    let repo = RepoInfo::new("acme", "tool", "tool-v");
    let win = Platform::identify("windows", "x86_64").unwrap();
    let url = repo.download_url("1.2.0", win);
    assert_eq!(
        url,
        "https://github.com/acme/tool/releases/download/tool-v1.2.0/tool-x86_64-pc-windows-msvc.zip"
    );
    assert_eq!(checksum_url(&url), format!("{url}.sha256"));
}

#[test]
fn hex_and_digest() {
    assert_eq!(to_hex(&[0x00, 0x0f, 0xa5, 0xff]), "000fa5ff");
    assert_eq!(to_hex(&[]), "");
    assert_eq!(sha256_hex(b"abc"), ABC_DIGEST);
}

#[test]
fn sidecar_first_token_is_the_digest() {
    assert_eq!(expected_digest("  abc123  tool.tar.gz\n"), "abc123");
    assert_eq!(expected_digest("abc123"), "abc123");
    assert_eq!(expected_digest("   "), "");
}

#[test]
fn digest_check_outcomes() {
    assert!(matches!(check_digest("abcd", None), Ok(false)));
    assert!(matches!(check_digest("abcd", Some("ABCD  file")), Ok(true)));
    match check_digest("abcd", Some("abce")) {
        Err(UpdateError::Integrity { expected, actual }) => {
            assert_eq!(expected, "abce");
            assert_eq!(actual, "abcd");
        }
        other => panic!("unexpected {other:?}"),
    }
}

#[test]
fn correct_digest_passes_and_mutation_fails() {
    let data = b"abc".to_vec();
    let sidecar = format!("{ABC_DIGEST}  tool.tar.gz\n");
    assert!(matches!(verify_archive(&data, Some(&sidecar)), Ok(true)));
    let mut mutated = data.clone();
    mutated[1] = b'x';
    match verify_archive(&mutated, Some(&sidecar)) {
        Err(e) => {
            let msg = e.message();
            assert!(msg.contains(ABC_DIGEST));
            assert!(msg.contains(&sha256_hex(&mutated)));
        }
        Ok(v) => panic!("mutated archive accepted: {v}"),
    }
}

#[test]
fn error_messages() {
    assert_eq!(UpdateError::Network("timeout".to_string()).message(), "update check failed: timeout");
    assert_eq!(UpdateError::Parse("bad".to_string()).message(), "update check failed: bad");
    assert_eq!(UpdateError::Extraction("corrupt".to_string()).message(), "extraction failed: corrupt");
    assert_eq!(UpdateError::Install("update failed: disk".to_string()).message(), "update failed: disk");
    assert_eq!(
        UpdateError::Integrity { expected: "aa".to_string(), actual: "bb".to_string() }.message(),
        "checksum mismatch: expected aa, got bb"
    );
}

#[test]
fn exit_codes() {
    assert_eq!(Outcome::Updated.exit_code(), 0);
    assert_eq!(Outcome::AlreadyUpToDate.exit_code(), 2);
    assert_eq!(Outcome::Cancelled.exit_code(), 0);
    assert_eq!(Outcome::Failed.exit_code(), 1);
}

#[test]
fn end_to_end_update() {
    let (mut run, a) = started(request(None, false, "linux", "x86_64"));
    match a {
        Action::FetchMetadata { url } => {
            assert_eq!(url, "https://api.github.com/repos/acme/tool/releases/latest")
        }
        other => panic!("unexpected {other:?}"),
    }
    let (a, w) = run.step(metadata("tool-v1.2.0"));
    assert!(w.is_none());
    match a {
        Action::Confirm { version } => assert_eq!(version, "1.2.0"),
        other => panic!("unexpected {other:?}"),
    }
    let archive_url =
        "https://github.com/acme/tool/releases/download/tool-v1.2.0/tool-x86_64-unknown-linux-gnu.tar.gz";
    match run.step(Event::Answer(true)).0 {
        Action::FetchArchive { url } => assert_eq!(url, archive_url),
        other => panic!("unexpected {other:?}"),
    }
    match run.step(Event::Archive(Ok(b"abc".to_vec()))).0 {
        Action::FetchSidecar { url } => assert_eq!(url, format!("{archive_url}.sha256")),
        other => panic!("unexpected {other:?}"),
    }
    let (a, w) = run.step(Event::Sidecar(Some(format!("{}  tool.tar.gz\n", ABC_DIGEST.to_uppercase()))));
    assert!(w.is_none());
    match a {
        Action::Extract { zip, binary } => {
            assert!(!zip);
            assert_eq!(binary, "tool");
        }
        other => panic!("unexpected {other:?}"),
    }
    assert!(matches!(run.step(Event::Extracted(Ok(true))).0, Action::Backup));
    assert!(matches!(run.step(Event::BackedUp(true)), (Action::Install, None)));
    assert!(matches!(run.step(Event::Installed(Ok(()))).0, Action::RemoveBackup));
    let (a, w) = run.step(Event::BackupRemoved(true));
    assert!(w.is_none());
    let (outcome, message) = finish_of(&a);
    assert_eq!(outcome, Outcome::Updated);
    assert_eq!(message, "updated to 1.2.0");
    assert_eq!(outcome.exit_code(), 0);
    assert_eq!(run.stage, Stage::Finished(Outcome::Updated));
}

#[test]
fn same_version_is_up_to_date_without_fetch() {
    let (mut run, _) = started(request(None, false, "linux", "x86_64"));
    let (a, _) = run.step(metadata("tool-v1.0.0"));
    let (outcome, message) = finish_of(&a);
    assert_eq!(outcome, Outcome::AlreadyUpToDate);
    assert_eq!(message, "already up to date: 1.0.0");
    assert_eq!(outcome.exit_code(), 2);
    // A finished run asks for nothing more.
    let (a, _) = run.step(Event::Answer(true));
    assert!(matches!(a, Action::Finish { .. }));
}

#[test]
fn pinned_current_version_is_up_to_date() {
    let (_, a) = started(request(Some("1.0.0"), false, "macos", "aarch64"));
    assert_eq!(finish_of(&a).0, Outcome::AlreadyUpToDate);
}

#[test]
fn forced_run_fetches_even_when_current() {
    let (mut run, _) = started(request(None, true, "linux", "aarch64"));
    match run.step(metadata("tool-v1.0.0")).0 {
        Action::FetchArchive { url } => assert_eq!(
            url,
            "https://github.com/acme/tool/releases/download/tool-v1.0.0/tool-aarch64-unknown-linux-gnu.tar.gz"
        ),
        other => panic!("unexpected {other:?}"),
    }
    let (_, a) = started(request(Some("1.0.0"), true, "windows", "x86_64"));
    assert!(matches!(a, Action::FetchArchive { .. }));
}

#[test]
fn declined_confirmation_cancels() {
    let (mut run, _) = started(request(Some("2.0.0"), false, "linux", "x86_64"));
    let (a, _) = run.step(Event::Answer(false));
    let (outcome, _) = finish_of(&a);
    assert_eq!(outcome, Outcome::Cancelled);
    assert_eq!(outcome.exit_code(), 0);
}

fn run_to_verifying(force: bool) -> UpdateRun {
    let (mut run, _) = started(request(Some("2.0.0"), force, "windows", "x86_64"));
    if !force {
        run.step(Event::Answer(true));
    }
    run.step(Event::Archive(Ok(b"abc".to_vec())));
    run
}

#[test]
fn missing_sidecar_skips_verification() {
    let mut run = run_to_verifying(true);
    let (a, w) = run.step(Event::Sidecar(None));
    assert!(w.is_some());
    match a {
        Action::Extract { zip, binary } => {
            assert!(zip);
            assert_eq!(binary, "tool.exe");
        }
        other => panic!("unexpected {other:?}"),
    }
}

#[test]
fn mismatched_sidecar_fails_the_run() {
    let mut run = run_to_verifying(false);
    let (a, _) = run.step(Event::Sidecar(Some("00ff".to_string())));
    let (outcome, message) = finish_of(&a);
    assert_eq!(outcome, Outcome::Failed);
    assert_eq!(message, format!("checksum mismatch: expected 00ff, got {ABC_DIGEST}"));
}

#[test]
fn missing_binary_fails_before_install() {
    let mut run = run_to_verifying(true);
    run.step(Event::Sidecar(Some(ABC_DIGEST.to_string())));
    let (a, _) = run.step(Event::Extracted(Ok(false)));
    let (outcome, message) = finish_of(&a);
    assert_eq!(outcome, Outcome::Failed);
    assert_eq!(message, "binary not found in archive: tool.exe");
    assert!(matches!(run.step(Event::BackedUp(true)).0, Action::Finish { .. }));
}

#[test]
fn soft_failures_warn_and_hard_failures_stop() {
    let mut run = run_to_verifying(true);
    run.step(Event::Sidecar(None));
    run.step(Event::Extracted(Ok(true)));
    let (a, w) = run.step(Event::BackedUp(false));
    assert!(matches!(a, Action::Install));
    assert!(w.is_some());
    let (a, _) = run.step(Event::Installed(Err("disk full".to_string())));
    assert_eq!(finish_of(&a), (Outcome::Failed, "update failed: disk full".to_string()));
}

#[test]
fn network_and_parse_failures() {
    let (mut run, _) = started(request(None, false, "linux", "x86_64"));
    let (a, _) = run.step(Event::Metadata(Err("timed out".to_string())));
    assert_eq!(finish_of(&a), (Outcome::Failed, "update check failed: timed out".to_string()));

    let (mut run, _) = started(request(None, false, "linux", "x86_64"));
    let (a, _) = run.step(Event::Metadata(Ok("{}".to_string())));
    assert_eq!(finish_of(&a).0, Outcome::Failed);

    let mut run = run_to_verifying(true);
    let (a, _) = run.step(Event::Extracted(Ok(true)));
    assert_eq!(finish_of(&a), (Outcome::Failed, "unexpected event".to_string()));
}

#[test]
fn escaped_tags_are_decoded() {
    assert_eq!(
        tag_from_metadata("{\"tag_name\": \"tool\\u002dv1.2.0\"}"),
        Some("tool-v1.2.0".to_string())
    );
    assert_eq!(
        tag_from_metadata("{\"tag_name\": \"a\\/b\\n\\t\"}"),
        Some("a/b\n\t".to_string())
    );
    assert_eq!(
        tag_from_metadata("{\"tag_name\": \"\\ud83d\\ude00\"}"),
        Some("\u{1F600}".to_string())
    );
    assert_eq!(tag_from_metadata("{\"tag_name\": \"\\ud83d\"}"), None);
    assert_eq!(tag_from_metadata("{\"tag_name\": \"\\ude00\"}"), None);
    assert_eq!(tag_from_metadata("{\"tag_name\": \"\\u12\"}"), None);
}

#[test]
fn any_unicode_whitespace_ends_the_sidecar_digest() {
    for sep in ["\u{b}", "\u{c}", "\u{a0}", "\u{2003}", "\u{3000}"] {
        let body = format!("{ABC_DIGEST}{sep}tool.tar.gz");
        assert_eq!(expected_digest(&body), ABC_DIGEST);
        assert!(matches!(verify_archive(b"abc", Some(&body)), Ok(true)));
    }
    assert_eq!(expected_digest("\u{85}\u{b}abc\u{2028}x"), "abc");
}
