//! The update orchestrator: a state machine that decides, from the run so far
//! and the result of the last piece of outside work, what the caller does
//! next. The caller performs each action (network, prompt, disk) and hands
//! back the event it produced.

use vstd::prelude::*;

use crate::integrity::{
    digest_matches, first_token, hex_of, lemma_first_token_of_hex, lemma_other_digest_rejected,
    sha256_of, verify_archive,
};
use crate::release::{tag_from_metadata, tag_of_metadata};
use crate::text::{contains, join2, lemma_contains_part, owned, str_eq};
use crate::types::RepoInfo;
use crate::update::{
    binary_name_of, checksum_url, checksum_url_of, download_url_of, is_zip_platform, platform_of,
    version_from_tag, version_of_tag, wants_install, Platform, UpdateError,
};

verus! {

/// How a run ended, as the caller reports it.
#[derive(Debug, Clone, Copy, PartialEq, Eq)]
pub enum Outcome {
    Updated,
    AlreadyUpToDate,
    Cancelled,
    Failed,
}

/// The process exit status for an outcome.
pub open spec fn exit_code_of(o: Outcome) -> i32 {
    match o {
        Outcome::Updated => 0,
        Outcome::AlreadyUpToDate => 2,
        Outcome::Cancelled => 0,
        Outcome::Failed => 1,
    }
}

impl Outcome {
    /// The process exit status for this outcome: 0 on success, 2 when
    /// already up to date, 1 on failure.
    pub fn exit_code(&self) -> (r: i32)
        ensures
            r == exit_code_of(*self),
    {
        match self {
            Outcome::Updated => 0,
            Outcome::AlreadyUpToDate => 2,
            Outcome::Cancelled => 0,
            Outcome::Failed => 1,
        }
    }
}

/// Where a run stands.
#[derive(Debug, Clone, Copy, PartialEq, Eq)]
pub enum Stage {
    Resolving,
    Confirming,
    Fetching,
    Verifying,
    Extracting,
    BackingUp,
    Installing,
    CleaningUp,
    Finished(Outcome),
}

/// What came back from the last action.
#[derive(Debug)]
pub enum Event {
    /// The latest-release document, or why it could not be fetched.
    Metadata(Result<String, String>),
    /// The operator's answer to the confirmation prompt.
    Answer(bool),
    /// The archive bytes, or why they could not be fetched.
    Archive(Result<Vec<u8>, String>),
    /// The checksum sidecar body, when it could be fetched.
    Sidecar(Option<String>),
    /// Whether the expected executable is in the unpacked archive, or why
    /// unpacking failed.
    Extracted(Result<bool, String>),
    /// Whether the current executable was copied to the backup path.
    BackedUp(bool),
    /// Whether the new executable was copied over the install target and made
    /// executable, or why not.
    Installed(Result<(), String>),
    /// Whether the backup was removed.
    BackupRemoved(bool),
}

/// What the caller does next.
#[derive(Debug)]
pub enum Action {
    /// Fetch the latest-release document at `url`.
    FetchMetadata { url: String },
    /// Ask the operator whether to install `version`.
    Confirm { version: String },
    /// Download the archive at `url`.
    FetchArchive { url: String },
    /// Download the checksum sidecar at `url`.
    FetchSidecar { url: String },
    /// Unpack the archive into a fresh scratch directory and look for `binary`.
    Extract { zip: bool, binary: String },
    /// Copy the install target to its backup path.
    Backup,
    /// Copy the new executable over the install target and make it executable.
    Install,
    /// Remove the backup.
    RemoveBackup,
    /// Stop, reporting `outcome` and `message`.
    Finish { outcome: Outcome, message: String },
}

/// An action, over plain values.
pub enum ActionView {
    FetchMetadata(Seq<char>),
    Confirm(Seq<char>),
    FetchArchive(Seq<char>),
    FetchSidecar(Seq<char>),
    Extract(bool, Seq<char>),
    Backup,
    Install,
    RemoveBackup,
    Finish(Outcome, Seq<char>),
}

impl View for Action {
    type V = ActionView;

    open spec fn view(&self) -> ActionView {
        match self {
            Action::FetchMetadata { url } => ActionView::FetchMetadata(url@),
            Action::Confirm { version } => ActionView::Confirm(version@),
            Action::FetchArchive { url } => ActionView::FetchArchive(url@),
            Action::FetchSidecar { url } => ActionView::FetchSidecar(url@),
            Action::Extract { zip, binary } => ActionView::Extract(*zip, binary@),
            Action::Backup => ActionView::Backup,
            Action::Install => ActionView::Install,
            Action::RemoveBackup => ActionView::RemoveBackup,
            Action::Finish { outcome, message } => ActionView::Finish(*outcome, message@),
        }
    }
}

/// An event, over plain values.
pub enum EventView {
    Metadata(Result<Seq<char>, Seq<char>>),
    Answer(bool),
    Archive(Result<Seq<u8>, Seq<char>>),
    Sidecar(Option<Seq<char>>),
    Extracted(Result<bool, Seq<char>>),
    BackedUp(bool),
    Installed(Result<(), Seq<char>>),
    BackupRemoved(bool),
}

impl View for Event {
    type V = EventView;

    open spec fn view(&self) -> EventView {
        match self {
            Event::Metadata(Ok(b)) => EventView::Metadata(Ok(b@)),
            Event::Metadata(Err(m)) => EventView::Metadata(Err(m@)),
            Event::Answer(y) => EventView::Answer(*y),
            Event::Archive(Ok(d)) => EventView::Archive(Ok(d@)),
            Event::Archive(Err(m)) => EventView::Archive(Err(m@)),
            Event::Sidecar(Some(b)) => EventView::Sidecar(Some(b@)),
            Event::Sidecar(None) => EventView::Sidecar(None),
            Event::Extracted(Ok(f)) => EventView::Extracted(Ok(*f)),
            Event::Extracted(Err(m)) => EventView::Extracted(Err(m@)),
            Event::BackedUp(ok) => EventView::BackedUp(*ok),
            Event::Installed(Ok(())) => EventView::Installed(Ok(())),
            Event::Installed(Err(m)) => EventView::Installed(Err(m@)),
            Event::BackupRemoved(ok) => EventView::BackupRemoved(*ok),
        }
    }
}

/// What the caller asks for.
#[derive(Debug)]
pub struct UpdateRequest {
    pub repo: RepoInfo,
    /// The version of the running executable.
    pub current_version: String,
    /// A version to install instead of the latest release.
    pub version: Option<String>,
    /// Install even when up to date, without asking.
    pub force: bool,
    /// The host operating system and architecture, as Rust names them.
    pub os: String,
    pub arch: String,
}

/// A run in progress.
pub struct UpdateRun {
    pub repo: RepoInfo,
    pub current_version: String,
    pub force: bool,
    pub platform: Platform,
    pub stage: Stage,
    /// The version being installed, once known.
    pub target: String,
    /// Where the archive of `target` is published, once known.
    pub archive_url: String,
    /// The downloaded archive, once fetched.
    pub archive: Vec<u8>,
}

/// A run, over plain values.
pub struct RunView {
    pub owner: Seq<char>,
    pub name: Seq<char>,
    pub prefix: Seq<char>,
    pub current: Seq<char>,
    pub force: bool,
    pub platform: Platform,
    pub stage: Stage,
    pub target: Seq<char>,
    pub archive_url: Seq<char>,
    pub archive: Seq<u8>,
}

impl View for UpdateRun {
    type V = RunView;

    open spec fn view(&self) -> RunView {
        RunView {
            owner: self.repo.owner@,
            name: self.repo.name@,
            prefix: self.repo.tag_prefix@,
            current: self.current_version@,
            force: self.force,
            platform: self.platform,
            stage: self.stage,
            target: self.target@,
            archive_url: self.archive_url@,
            archive: self.archive@,
        }
    }
}

/// A step's result: the run after it, the action, and a warning for the operator.
pub type StepView = (RunView, ActionView, Option<Seq<char>>);

/// The run stops with `outcome`.
pub open spec fn finish(run: RunView, outcome: Outcome, message: Seq<char>) -> StepView {
    (RunView { stage: Stage::Finished(outcome), ..run }, ActionView::Finish(outcome, message), None)
}

/// Having settled on `version`: stop when there is nothing to do, else
/// download it straight away when forced, or ask first.
pub open spec fn decide(run: RunView, version: Seq<char>) -> StepView {
    let url = download_url_of(run.owner, run.name, run.prefix, version, run.platform);
    if !wants_install(run.current, version, run.force) {
        finish(
            RunView { target: version, ..run },
            Outcome::AlreadyUpToDate,
            "already up to date: "@ + version,
        )
    } else if run.force {
        (
            RunView { stage: Stage::Fetching, target: version, archive_url: url, ..run },
            ActionView::FetchArchive(url),
            None,
        )
    } else {
        (
            RunView { stage: Stage::Confirming, target: version, archive_url: url, ..run },
            ActionView::Confirm(version),
            None,
        )
    }
}

/// The unpack action for a run's platform.
pub open spec fn extract_action(run: RunView) -> ActionView {
    ActionView::Extract(is_zip_platform(run.platform), binary_name_of(run.platform, run.name))
}

/// What the run does on an event, stage by stage. An event that the stage
/// does not expect fails the run.
pub open spec fn next(run: RunView, e: EventView) -> StepView {
    match (run.stage, e) {
        (Stage::Resolving, EventView::Metadata(Err(m))) => finish(
            run,
            Outcome::Failed,
            "update check failed: "@ + m,
        ),
        (Stage::Resolving, EventView::Metadata(Ok(body))) => match tag_of_metadata(body) {
            Some(tag) => decide(run, version_of_tag(tag, run.prefix)),
            None => finish(run, Outcome::Failed, "update check failed: no release tag"@),
        },
        (Stage::Confirming, EventView::Answer(yes)) => if yes {
            (RunView { stage: Stage::Fetching, ..run }, ActionView::FetchArchive(run.archive_url), None)
        } else {
            finish(run, Outcome::Cancelled, "update cancelled"@)
        },
        (Stage::Fetching, EventView::Archive(Err(m))) => finish(
            run,
            Outcome::Failed,
            "download failed: "@ + m,
        ),
        (Stage::Fetching, EventView::Archive(Ok(data))) => (
            RunView { stage: Stage::Verifying, archive: data, ..run },
            ActionView::FetchSidecar(checksum_url_of(run.archive_url)),
            None,
        ),
        (Stage::Verifying, EventView::Sidecar(None)) => (
            RunView { stage: Stage::Extracting, ..run },
            extract_action(run),
            Some("no checksum published; skipping verification"@),
        ),
        (Stage::Verifying, EventView::Sidecar(Some(body))) => {
            let actual = hex_of(sha256_of(run.archive));
            if digest_matches(body, actual) {
                (RunView { stage: Stage::Extracting, ..run }, extract_action(run), None)
            } else {
                finish(
                    run,
                    Outcome::Failed,
                    "checksum mismatch: expected "@ + first_token(body) + ", got "@ + actual,
                )
            }
        },
        (Stage::Extracting, EventView::Extracted(Err(m))) => finish(
            run,
            Outcome::Failed,
            "extraction failed: "@ + m,
        ),
        (Stage::Extracting, EventView::Extracted(Ok(found))) => if found {
            (RunView { stage: Stage::BackingUp, ..run }, ActionView::Backup, None)
        } else {
            finish(
                run,
                Outcome::Failed,
                "binary not found in archive: "@ + binary_name_of(run.platform, run.name),
            )
        },
        (Stage::BackingUp, EventView::BackedUp(ok)) => (
            RunView { stage: Stage::Installing, ..run },
            ActionView::Install,
            if ok {
                None
            } else {
                Some("could not back up the current executable; continuing without a backup"@)
            },
        ),
        (Stage::Installing, EventView::Installed(Err(m))) => finish(
            run,
            Outcome::Failed,
            "update failed: "@ + m,
        ),
        (Stage::Installing, EventView::Installed(Ok(()))) => (
            RunView { stage: Stage::CleaningUp, ..run },
            ActionView::RemoveBackup,
            None,
        ),
        (Stage::CleaningUp, EventView::BackupRemoved(ok)) => {
            let done = finish(run, Outcome::Updated, "updated to "@ + run.target);
            if ok {
                done
            } else {
                (done.0, done.1, Some("could not remove the backup"@))
            }
        },
        _ => finish(run, Outcome::Failed, "unexpected event"@),
    }
}

/// The view of an optional message.
pub open spec fn opt_view(o: Option<String>) -> Option<Seq<char>> {
    match o {
        Some(s) => Some(s@),
        None => None,
    }
}

/// A run on `platform` that has just started.
pub open spec fn initial(req: UpdateRequest, platform: Platform) -> RunView {
    RunView {
        owner: req.repo.owner@,
        name: req.repo.name@,
        prefix: req.repo.tag_prefix@,
        current: req.current_version@,
        force: req.force,
        platform,
        stage: Stage::Resolving,
        target: Seq::empty(),
        archive_url: Seq::empty(),
        archive: Seq::empty(),
    }
}

impl UpdateRun {
    /// Starts a run. The host platform is identified first: an unsupported
    /// one is an error, before any action. A pinned version is taken as the
    /// target at once; otherwise the latest release is looked up.
    pub fn start(req: UpdateRequest) -> (r: Result<(UpdateRun, Action), UpdateError>)
        ensures
            platform_of(req.os@, req.arch@) is None ==> (r matches Err(
                UpdateError::UnsupportedPlatform { os, arch },
            ) && os@ == req.os@ && arch@ == req.arch@),
            platform_of(req.os@, req.arch@) matches Some(p) ==> (r matches Ok((run, a)) && (
            req.version matches Some(v) ==> (run@, a@, None::<Seq<char>>) == decide(
                initial(req, p),
                v@,
            )) && (req.version is None ==> run@ == initial(req, p) && a@
                == ActionView::FetchMetadata(
                crate::types::latest_release_url_of(req.repo.owner@, req.repo.name@),
            ))),
    {
        let platform = match Platform::identify(req.os.as_str(), req.arch.as_str()) {
            Ok(p) => p,
            Err(e) => {
                return Err(e);
            },
        };
        let mut run = UpdateRun {
            repo: req.repo,
            current_version: req.current_version,
            force: req.force,
            platform,
            stage: Stage::Resolving,
            target: String::new(),
            archive_url: String::new(),
            archive: Vec::new(),
        };
        match req.version {
            Some(v) => {
                let (a, _w) = run.decide(v);
                Ok((run, a))
            },
            None => {
                let url = run.repo.latest_release_url();
                Ok((run, Action::FetchMetadata { url }))
            },
        }
    }

    fn finish(&mut self, outcome: Outcome, message: String) -> (r: (Action, Option<String>))
        ensures
            (final(self)@, r.0@, opt_view(r.1)) == finish(old(self)@, outcome, message@),
    {
        self.stage = Stage::Finished(outcome);
        (Action::Finish { outcome, message }, None)
    }

    fn decide(&mut self, version: String) -> (r: (Action, Option<String>))
        ensures
            (final(self)@, r.0@, opt_view(r.1)) == decide(old(self)@, version@),
            r.1 is None,
    {
        let same = str_eq(self.current_version.as_str(), version.as_str());
        if same && !self.force {
            let message = join2("already up to date: ", version.as_str());
            self.target = version;
            return self.finish(Outcome::AlreadyUpToDate, message);
        }
        let url = self.repo.download_url(version.as_str(), self.platform);
        if self.force {
            self.stage = Stage::Fetching;
            self.target = version;
            self.archive_url = owned(url.as_str());
            (Action::FetchArchive { url }, None)
        } else {
            self.stage = Stage::Confirming;
            let shown = owned(version.as_str());
            self.target = version;
            self.archive_url = url;
            (Action::Confirm { version: shown }, None)
        }
    }

    fn extract_action(&self) -> (r: Action)
        ensures
            r@ == extract_action(self@),
    {
        Action::Extract { zip: self.platform.uses_zip(), binary: self.platform.binary_name(self.repo.name.as_str()) }
    }

    /// Advances the run by one event: the new stage, the next action, and a
    /// warning for the operator where a soft failure was passed over.
    pub fn step(&mut self, e: Event) -> (r: (Action, Option<String>))
        ensures
            (final(self)@, r.0@, opt_view(r.1)) == next(old(self)@, e@),
    {
        match (self.stage, e) {
            (Stage::Resolving, Event::Metadata(Err(m))) => {
                self.finish(Outcome::Failed, join2("update check failed: ", m.as_str()))
            },
            (Stage::Resolving, Event::Metadata(Ok(body))) => {
                match tag_from_metadata(body.as_str()) {
                    Some(tag) => {
                        let v = version_from_tag(tag.as_str(), self.repo.tag_prefix.as_str());
                        self.decide(v)
                    },
                    None => self.finish(Outcome::Failed, owned("update check failed: no release tag")),
                }
            },
            (Stage::Confirming, Event::Answer(yes)) => {
                if yes {
                    self.stage = Stage::Fetching;
                    (Action::FetchArchive { url: owned(self.archive_url.as_str()) }, None)
                } else {
                    self.finish(Outcome::Cancelled, owned("update cancelled"))
                }
            },
            (Stage::Fetching, Event::Archive(Err(m))) => {
                self.finish(Outcome::Failed, join2("download failed: ", m.as_str()))
            },
            (Stage::Fetching, Event::Archive(Ok(data))) => {
                self.stage = Stage::Verifying;
                self.archive = data;
                (Action::FetchSidecar { url: checksum_url(self.archive_url.as_str()) }, None)
            },
            (Stage::Verifying, Event::Sidecar(None)) => {
                self.stage = Stage::Extracting;
                (
                    self.extract_action(),
                    Some(owned("no checksum published; skipping verification")),
                )
            },
            (Stage::Verifying, Event::Sidecar(Some(body))) => {
                match verify_archive(self.archive.as_slice(), Some(body.as_str())) {
                    Ok(_) => {
                        self.stage = Stage::Extracting;
                        (self.extract_action(), None)
                    },
                    Err(err) => {
                        let message = err.message();
                        self.finish(Outcome::Failed, message)
                    },
                }
            },
            (Stage::Extracting, Event::Extracted(Err(m))) => {
                self.finish(Outcome::Failed, join2("extraction failed: ", m.as_str()))
            },
            (Stage::Extracting, Event::Extracted(Ok(found))) => {
                if found {
                    self.stage = Stage::BackingUp;
                    (Action::Backup, None)
                } else {
                    let binary = self.platform.binary_name(self.repo.name.as_str());
                    self.finish(
                        Outcome::Failed,
                        join2("binary not found in archive: ", binary.as_str()),
                    )
                }
            },
            (Stage::BackingUp, Event::BackedUp(ok)) => {
                self.stage = Stage::Installing;
                let warning = if ok {
                    None
                } else {
                    Some(
                        owned(
                            "could not back up the current executable; continuing without a backup",
                        ),
                    )
                };
                (Action::Install, warning)
            },
            (Stage::Installing, Event::Installed(Err(m))) => {
                self.finish(Outcome::Failed, join2("update failed: ", m.as_str()))
            },
            (Stage::Installing, Event::Installed(Ok(()))) => {
                self.stage = Stage::CleaningUp;
                (Action::RemoveBackup, None)
            },
            (Stage::CleaningUp, Event::BackupRemoved(ok)) => {
                let message = join2("updated to ", self.target.as_str());
                let (a, _w) = self.finish(Outcome::Updated, message);
                if ok {
                    (a, None)
                } else {
                    (a, Some(owned("could not remove the backup")))
                }
            },
            (_, _) => self.finish(Outcome::Failed, owned("unexpected event")),
        }
    }
}

/// Once a run has finished, every event leaves it finished and the only
/// action is to stop: nothing is fetched or installed afterwards.
pub proof fn lemma_finished_is_terminal(run: RunView, e: EventView)
    requires
        run.stage matches Stage::Finished(_),
    ensures
        next(run, e).0.stage matches Stage::Finished(_),
        next(run, e).1 matches ActionView::Finish(_, _),
{
}

/// When the target version equals the running version and the run is not
/// forced, the run ends up to date, and the archive is never requested.
pub proof fn lemma_up_to_date_stops(run: RunView, version: Seq<char>)
    requires
        version == run.current,
        !run.force,
    ensures
        decide(run, version).0.stage == Stage::Finished(Outcome::AlreadyUpToDate),
        decide(run, version).1 matches ActionView::Finish(o, _) && o == Outcome::AlreadyUpToDate,
{
}

/// The same, for a target version read from the latest release.
pub proof fn lemma_latest_up_to_date_stops(run: RunView, body: Seq<char>, tag: Seq<char>)
    requires
        run.stage == Stage::Resolving,
        tag_of_metadata(body) == Some(tag),
        version_of_tag(tag, run.prefix) == run.current,
        !run.force,
    ensures
        next(run, EventView::Metadata(Ok(body))).0.stage == Stage::Finished(
            Outcome::AlreadyUpToDate,
        ),
        next(run, EventView::Metadata(Ok(body))).1 matches ActionView::Finish(o, _) && o
            == Outcome::AlreadyUpToDate,
{
}

/// A forced run downloads the archive of its target straight away, without
/// asking, even when the target equals the running version.
pub proof fn lemma_forced_run_fetches(run: RunView, version: Seq<char>)
    requires
        run.force,
    ensures
        decide(run, version).0.stage == Stage::Fetching,
        decide(run, version).1 == ActionView::FetchArchive(
            download_url_of(run.owner, run.name, run.prefix, version, run.platform),
        ),
{
}

/// Without a checksum sidecar, verification is skipped with a warning and the
/// run goes on to unpack the archive.
pub proof fn lemma_missing_sidecar_skips(run: RunView)
    requires
        run.stage == Stage::Verifying,
    ensures
        next(run, EventView::Sidecar(None)).0.stage == Stage::Extracting,
        next(run, EventView::Sidecar(None)).1 == extract_action(run),
        next(run, EventView::Sidecar(None)).2 is Some,
{
}

/// When the unpacked archive lacks the executable, the run fails with a
/// "binary not found" message before any backup or copy is requested, so the
/// install target is left as it was.
pub proof fn lemma_missing_binary_fails(run: RunView)
    requires
        run.stage == Stage::Extracting,
    ensures
        next(run, EventView::Extracted(Ok(false))).0.stage == Stage::Finished(Outcome::Failed),
        next(run, EventView::Extracted(Ok(false))).1 == ActionView::Finish(
            Outcome::Failed,
            "binary not found in archive: "@ + binary_name_of(run.platform, run.name),
        ),
{
}

/// When the published digest differs from the archive's, the run fails
/// before any backup or copy is requested, and the message names both digests.
pub proof fn lemma_mismatch_fails(run: RunView, body: Seq<char>)
    requires
        run.stage == Stage::Verifying,
        !digest_matches(body, hex_of(sha256_of(run.archive))),
    ensures
        next(run, EventView::Sidecar(Some(body))).0.stage == Stage::Finished(Outcome::Failed),
        next(run, EventView::Sidecar(Some(body))).1 matches ActionView::Finish(o, m) && o
            == Outcome::Failed && contains(m, first_token(body)) && contains(
            m,
            hex_of(sha256_of(run.archive)),
        ),
{
    let actual = hex_of(sha256_of(run.archive));
    let m = "checksum mismatch: expected "@ + first_token(body) + ", got "@ + actual;
    lemma_contains_part("checksum mismatch: expected "@, first_token(body), ", got "@ + actual);
    assert("checksum mismatch: expected "@ + first_token(body) + (", got "@ + actual) =~= m);
    lemma_contains_part("checksum mismatch: expected "@ + first_token(body) + ", got "@, actual, Seq::empty());
    assert(m + Seq::empty() =~= m);
}

/// A run whose sidecar publishes the digest of `published`, but whose
/// downloaded archive has another SHA-256 digest, fails before any backup or
/// copy is requested, and the message names both digests.
pub proof fn lemma_altered_archive_fails(run: RunView, published: Seq<u8>, body: Seq<char>)
    requires
        run.stage == Stage::Verifying,
        first_token(body) == hex_of(sha256_of(published)),
        sha256_of(run.archive) != sha256_of(published),
    ensures
        next(run, EventView::Sidecar(Some(body))).0.stage == Stage::Finished(Outcome::Failed),
        next(run, EventView::Sidecar(Some(body))).1 matches ActionView::Finish(o, m) && o
            == Outcome::Failed && contains(m, hex_of(sha256_of(published))) && contains(
            m,
            hex_of(sha256_of(run.archive)),
        ),
{
    lemma_first_token_of_hex(sha256_of(published));
    lemma_other_digest_rejected(run.archive, published);
    lemma_mismatch_fails(run, body);
}

} // verus!
