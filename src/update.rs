//! The self-update flow: version resolution from release tags, platform
//! identification, artifact locations, integrity checking, and the
//! orchestrator that sequences the stages.

use vstd::prelude::*;

use crate::text::{
    contains, is_prefix_of, join2, join3, lemma_contains_part, owned, starts_with, str_eq,
};
use crate::types::RepoInfo;

verus! {

// ---------------------------------------------------------------------------
// Versions
// ---------------------------------------------------------------------------

/// `s` without one leading `v`, if it has one.
pub open spec fn strip_leading_v(s: Seq<char>) -> Seq<char> {
    if s.len() > 0 && s[0] == 'v' {
        s.drop_first()
    } else {
        s
    }
}

/// The bare version named by a release tag: the tag prefix is removed when the
/// tag starts with it, then one leading `v`.
pub open spec fn version_of_tag(tag: Seq<char>, prefix: Seq<char>) -> Seq<char> {
    if is_prefix_of(prefix, tag) {
        strip_leading_v(tag.subrange(prefix.len() as int, tag.len() as int))
    } else {
        strip_leading_v(tag)
    }
}

/// The bare version named by the release tag `tag` of a project whose tags
/// start with `prefix`.
pub fn version_from_tag(tag: &str, prefix: &str) -> (r: String)
    ensures
        r@ == version_of_tag(tag@, prefix@),
{
    let n = tag.unicode_len();
    let rest = if starts_with(tag, prefix) {
        tag.substring_char(prefix.unicode_len(), n)
    } else {
        tag
    };
    let m = rest.unicode_len();
    if m > 0 && rest.get_char(0) == 'v' {
        owned(rest.substring_char(1, m))
    } else {
        owned(rest)
    }
}

/// Stripping a tag's prefix and then a leading `v` leaves exactly the rest of
/// the tag, less one leading `v`: no other `v` in the tag is touched.
pub proof fn lemma_version_of_prefixed_tag(prefix: Seq<char>, rest: Seq<char>)
    ensures
        version_of_tag(prefix + rest, prefix) == strip_leading_v(rest),
        rest.len() > 0 && rest[0] == 'v' ==> version_of_tag(prefix + rest, prefix)
            == rest.subrange(1, rest.len() as int),
        !(rest.len() > 0 && rest[0] == 'v') ==> version_of_tag(prefix + rest, prefix) == rest,
{
    let tag = prefix + rest;
    assert(tag.subrange(0, prefix.len() as int) =~= prefix);
    assert(tag.subrange(prefix.len() as int, tag.len() as int) =~= rest);
    assert(rest.drop_first() =~= rest.subrange(1, rest.len() as int));
}

/// Whether the run has work to do: the target differs from the running
/// version, or the caller forced it. Versions compare as plain strings.
pub open spec fn wants_install(current: Seq<char>, target: Seq<char>, force: bool) -> bool {
    force || current != target
}

// ---------------------------------------------------------------------------
// Platforms
// ---------------------------------------------------------------------------

/// The host combinations for which releases are published.
#[derive(Debug, Clone, Copy, PartialEq, Eq)]
pub enum Platform {
    LinuxX86_64,
    LinuxAarch64,
    MacosX86_64,
    MacosAarch64,
    WindowsX86_64,
}

/// The platform for an operating-system name and an architecture name, as
/// Rust spells them (`linux`, `macos`, `windows`; `x86_64`, `aarch64`).
pub open spec fn platform_of(os: Seq<char>, arch: Seq<char>) -> Option<Platform> {
    if os == "linux"@ && arch == "x86_64"@ {
        Some(Platform::LinuxX86_64)
    } else if os == "linux"@ && arch == "aarch64"@ {
        Some(Platform::LinuxAarch64)
    } else if os == "macos"@ && arch == "x86_64"@ {
        Some(Platform::MacosX86_64)
    } else if os == "macos"@ && arch == "aarch64"@ {
        Some(Platform::MacosAarch64)
    } else if os == "windows"@ && arch == "x86_64"@ {
        Some(Platform::WindowsX86_64)
    } else {
        None
    }
}

/// The token that names a platform in artifact file names.
pub open spec fn token_of(p: Platform) -> Seq<char> {
    match p {
        Platform::LinuxX86_64 => "x86_64-unknown-linux-gnu"@,
        Platform::LinuxAarch64 => "aarch64-unknown-linux-gnu"@,
        Platform::MacosX86_64 => "x86_64-apple-darwin"@,
        Platform::MacosAarch64 => "aarch64-apple-darwin"@,
        Platform::WindowsX86_64 => "x86_64-pc-windows-msvc"@,
    }
}

/// Archives for windows are zip files, the others gzip-compressed tar files.
pub open spec fn is_zip_platform(p: Platform) -> bool {
    p == Platform::WindowsX86_64
}

/// The archive file extension for a platform.
pub open spec fn ext_of(p: Platform) -> Seq<char> {
    if is_zip_platform(p) {
        "zip"@
    } else {
        "tar.gz"@
    }
}

/// The name of the executable inside the archive.
pub open spec fn binary_name_of(p: Platform, name: Seq<char>) -> Seq<char> {
    if is_zip_platform(p) {
        name + ".exe"@
    } else {
        name
    }
}

impl Platform {
    /// The platform of a host, or `UnsupportedPlatform` for any combination
    /// outside the published set.
    pub fn identify(os: &str, arch: &str) -> (r: Result<Platform, UpdateError>)
        ensures
            platform_of(os@, arch@) matches Some(p) ==> r == Ok::<Platform, UpdateError>(p),
            platform_of(os@, arch@) is None ==> (r matches Err(UpdateError::UnsupportedPlatform {
                os: o,
                arch: a,
            }) && o@ == os@ && a@ == arch@),
    {
        let linux = str_eq(os, "linux");
        let macos = str_eq(os, "macos");
        let windows = str_eq(os, "windows");
        let x86 = str_eq(arch, "x86_64");
        let arm = str_eq(arch, "aarch64");
        if linux && x86 {
            Ok(Platform::LinuxX86_64)
        } else if linux && arm {
            Ok(Platform::LinuxAarch64)
        } else if macos && x86 {
            Ok(Platform::MacosX86_64)
        } else if macos && arm {
            Ok(Platform::MacosAarch64)
        } else if windows && x86 {
            Ok(Platform::WindowsX86_64)
        } else {
            Err(UpdateError::UnsupportedPlatform { os: owned(os), arch: owned(arch) })
        }
    }

    /// The token that names this platform in artifact file names.
    pub fn token(&self) -> (r: &'static str)
        ensures
            r@ == token_of(*self),
    {
        match self {
            Platform::LinuxX86_64 => "x86_64-unknown-linux-gnu",
            Platform::LinuxAarch64 => "aarch64-unknown-linux-gnu",
            Platform::MacosX86_64 => "x86_64-apple-darwin",
            Platform::MacosAarch64 => "aarch64-apple-darwin",
            Platform::WindowsX86_64 => "x86_64-pc-windows-msvc",
        }
    }

    /// Whether this platform's archive is a zip file.
    pub fn uses_zip(&self) -> (r: bool)
        ensures
            r == is_zip_platform(*self),
    {
        match self {
            Platform::WindowsX86_64 => true,
            _ => false,
        }
    }

    /// The archive file extension for this platform.
    pub fn archive_ext(&self) -> (r: &'static str)
        ensures
            r@ == ext_of(*self),
    {
        if self.uses_zip() {
            "zip"
        } else {
            "tar.gz"
        }
    }

    /// The executable's file name inside the archive, for a program called `name`.
    pub fn binary_name(&self, name: &str) -> (r: String)
        ensures
            r@ == binary_name_of(*self, name@),
    {
        if self.uses_zip() {
            join2(name, ".exe")
        } else {
            owned(name)
        }
    }
}

// ---------------------------------------------------------------------------
// Artifact locations
// ---------------------------------------------------------------------------

/// `https://github.com/{owner}/{name}/releases/download/{prefix}{version}/{name}-{token}.{ext}`
pub open spec fn download_url_of(
    owner: Seq<char>,
    name: Seq<char>,
    prefix: Seq<char>,
    version: Seq<char>,
    p: Platform,
) -> Seq<char> {
    "https://github.com/"@ + owner + "/"@ + name + "/releases/download/"@ + prefix + version + "/"@
        + name + "-"@ + token_of(p) + "."@ + ext_of(p)
}

/// Where the checksum of the artifact at `url` is published.
pub open spec fn checksum_url_of(url: Seq<char>) -> Seq<char> {
    url + ".sha256"@
}

impl RepoInfo {
    /// Where the archive of `version` for platform `p` is published.
    pub fn download_url(&self, version: &str, p: Platform) -> (r: String)
        ensures
            r@ == download_url_of(self.owner@, self.name@, self.tag_prefix@, version@, p),
    {
        let mut r = join3("https://github.com/", self.owner.as_str(), "/");
        r.append(self.name.as_str());
        r.append("/releases/download/");
        r.append(self.tag_prefix.as_str());
        r.append(version);
        r.append("/");
        r.append(self.name.as_str());
        r.append("-");
        r.append(p.token());
        r.append(".");
        r.append(p.archive_ext());
        r
    }
}

/// Where the checksum sidecar of the artifact at `url` is published.
pub fn checksum_url(url: &str) -> (r: String)
    ensures
        r@ == checksum_url_of(url@),
{
    join2(url, ".sha256")
}

// ---------------------------------------------------------------------------
// Errors
// ---------------------------------------------------------------------------

/// Why an update run failed.
#[derive(Debug, Clone)]
pub enum UpdateError {
    /// Transport failure, timeout or a non-success status.
    Network(String),
    /// The release metadata could not be read.
    Parse(String),
    /// The archive's digest differs from the published one.
    Integrity { expected: String, actual: String },
    /// No release is published for this host.
    UnsupportedPlatform { os: String, arch: String },
    /// The archive could not be unpacked.
    Extraction(String),
    /// The new executable could not be put in place.
    Install(String),
}

/// The text shown for an error.
pub open spec fn error_message(e: UpdateError) -> Seq<char> {
    match e {
        UpdateError::Network(m) => "update check failed: "@ + m@,
        UpdateError::Parse(m) => "update check failed: "@ + m@,
        UpdateError::Integrity { expected, actual } => "checksum mismatch: expected "@ + expected@
            + ", got "@ + actual@,
        UpdateError::UnsupportedPlatform { os, arch } => "unsupported platform: "@ + os@ + "/"@
            + arch@,
        UpdateError::Extraction(m) => "extraction failed: "@ + m@,
        UpdateError::Install(m) => m@,
    }
}

impl UpdateError {
    /// The text shown for this error.
    pub fn message(&self) -> (r: String)
        ensures
            r@ == error_message(*self),
    {
        match self {
            UpdateError::Network(m) => join2("update check failed: ", m.as_str()),
            UpdateError::Parse(m) => join2("update check failed: ", m.as_str()),
            UpdateError::Integrity { expected, actual } => {
                let mut r = join3("checksum mismatch: expected ", expected.as_str(), ", got ");
                r.append(actual.as_str());
                r
            },
            UpdateError::UnsupportedPlatform { os, arch } => {
                let mut r = join3("unsupported platform: ", os.as_str(), "/");
                r.append(arch.as_str());
                r
            },
            UpdateError::Extraction(m) => join2("extraction failed: ", m.as_str()),
            UpdateError::Install(m) => owned(m.as_str()),
        }
    }
}

/// The message of a checksum mismatch names both digests.
pub proof fn lemma_mismatch_message_names_both(expected: String, actual: String)
    ensures
        contains(error_message(UpdateError::Integrity { expected, actual }), expected@),
        contains(error_message(UpdateError::Integrity { expected, actual }), actual@),
{
    let e = UpdateError::Integrity { expected, actual };
    lemma_contains_part("checksum mismatch: expected "@, expected@, ", got "@ + actual@);
    assert("checksum mismatch: expected "@ + expected@ + (", got "@ + actual@) =~= error_message(e));
    lemma_contains_part("checksum mismatch: expected "@ + expected@ + ", got "@, actual@, Seq::empty());
    assert("checksum mismatch: expected "@ + expected@ + ", got "@ + actual@ + Seq::empty() =~= error_message(e));
}

} // verus!
