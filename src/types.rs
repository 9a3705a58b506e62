//! Repository identity and health-check results.

use vstd::prelude::*;

use crate::text::{join2, join3, owned};

verus! {

/// Where a tool's releases live: owner, project name, and the prefix that the
/// project puts before the version in its release tags (`tool-v` in `tool-v1.2.0`).
#[derive(Debug, Clone)]
pub struct RepoInfo {
    pub owner: String,
    pub name: String,
    pub tag_prefix: String,
}

/// `https://api.github.com/repos/{owner}/{name}/releases/latest`
pub open spec fn latest_release_url_of(owner: Seq<char>, name: Seq<char>) -> Seq<char> {
    "https://api.github.com/repos/"@ + owner + "/"@ + name + "/releases/latest"@
}

/// `https://raw.githubusercontent.com/{owner}/{name}/main/install.sh`
pub open spec fn install_script_url_of(owner: Seq<char>, name: Seq<char>) -> Seq<char> {
    "https://raw.githubusercontent.com/"@ + owner + "/"@ + name + "/main/install.sh"@
}

impl RepoInfo {
    /// A repository identity from its three parts.
    pub fn new(owner: &str, name: &str, tag_prefix: &str) -> (r: RepoInfo)
        ensures
            r.owner@ == owner@,
            r.name@ == name@,
            r.tag_prefix@ == tag_prefix@,
    {
        RepoInfo { owner: owner.to_owned(), name: name.to_owned(), tag_prefix: tag_prefix.to_owned() }
    }

    /// The endpoint that describes the latest release.
    pub fn latest_release_url(&self) -> (r: String)
        ensures
            r@ == latest_release_url_of(self.owner@, self.name@),
    {
        let mut r = join3("https://api.github.com/repos/", self.owner.as_str(), "/");
        r.append(self.name.as_str());
        r.append("/releases/latest");
        r
    }

    /// Where the project's install script is published.
    pub fn install_script_url(&self) -> (r: String)
        ensures
            r@ == install_script_url_of(self.owner@, self.name@),
    {
        let mut r = join3("https://raw.githubusercontent.com/", self.owner.as_str(), "/");
        r.append(self.name.as_str());
        r.append("/main/install.sh");
        r
    }
}

/// The outcome of one health check.
#[derive(Debug, Clone)]
pub struct DoctorCheck {
    pub name: String,
    pub passed: bool,
    pub message: Option<String>,
}

impl DoctorCheck {
    /// A passing check with no message.
    pub fn pass(name: &str) -> (r: DoctorCheck)
        ensures
            r.name@ == name@,
            r.passed,
            r.message is None,
    {
        DoctorCheck { name: owned(name), passed: true, message: None }
    }

    /// A failing check that carries a message.
    pub fn fail(name: &str, message: &str) -> (r: DoctorCheck)
        ensures
            r.name@ == name@,
            !r.passed,
            r.message matches Some(m) && m@ == message@,
    {
        DoctorCheck { name: owned(name), passed: false, message: Some(owned(message)) }
    }

    /// The check that a file exists at `path`, given whether one was found there.
    pub fn file_exists(path: &str, found: bool) -> (r: DoctorCheck)
        ensures
            r.passed == found,
            found ==> r.name@ == "File exists: "@ + path@ && r.message is None,
            !found ==> r.name@ == "File check: "@ + path@ && (r.message matches Some(m) && m@
                == "File not found: "@ + path@),
    {
        if found {
            DoctorCheck::pass(join2("File exists: ", path).as_str())
        } else {
            DoctorCheck::fail(
                join2("File check: ", path).as_str(),
                join2("File not found: ", path).as_str(),
            )
        }
    }

    /// The check that a directory exists at `path`, given whether one was found there.
    pub fn dir_exists(path: &str, found: bool) -> (r: DoctorCheck)
        ensures
            r.passed == found,
            found ==> r.name@ == "Directory exists: "@ + path@ && r.message is None,
            !found ==> r.name@ == "Directory check: "@ + path@ && (r.message matches Some(m) && m@
                == "Directory not found: "@ + path@),
    {
        if found {
            DoctorCheck::pass(join2("Directory exists: ", path).as_str())
        } else {
            DoctorCheck::fail(
                join2("Directory check: ", path).as_str(),
                join2("Directory not found: ", path).as_str(),
            )
        }
    }
}

} // verus!
