//! The pipeline coordinator: a state machine from state and event to next state.
//!
//! The caller performs the action that the current state asks for (see
//! [`Pipeline::pending`]) and hands the result back as an [`Event`] to
//! [`Pipeline::step`], until the pipeline is done.

use vstd::prelude::*;
use vstd::string::*;
use crate::config::Settings;
use crate::outcome::{OutcomeKind, OutcomeView, PipelineOutcome, Timestamp};
use crate::process::{classify, failure_of, succeeded, ProcessReport};
use crate::stage::{error_message, Operation, StageError, StageResult};
use crate::text::{image_reference, image_reference_spec, join, object_key, object_key_spec};
use crate::upload::{
    count_files, files_before, lemma_files_before_bound, lemma_next_upload, next_upload, scan,
    skipped_files, transferred, usable, DirEntry, FileReport, UploadSummary,
};

verus! {

/// One registry-push event.
#[derive(Clone, Debug)]
pub struct Notification {
    /// The event kind tag.
    pub kind: String,
    pub registry_path: String,
    pub original_path: String,
    pub timestamp: Timestamp,
    /// Whether the push succeeded.
    pub success: bool,
    pub profile: String,
    pub platforms: Vec<String>,
    /// The content digest of the pushed image, where the registry gave one.
    pub digest: Option<String>,
}

/// Why a run ended.
#[derive(Clone, Debug)]
pub enum Verdict {
    /// The notification reported a failed push.
    PushFailed,
    /// The push succeeded but carried no digest.
    NoDigest,
    /// The readiness wait or the build failed.
    BuildFailed { error: StageError },
    /// The build succeeded; export or upload failed as a whole.
    Degraded { error: StageError },
    /// Build and export succeeded and every file was attempted.
    Completed,
}

/// Where a run stands.
#[derive(Clone, Debug)]
pub enum Stage {
    /// Waiting for the dependency to become ready, until `deadline`; either a
    /// poll is under way or, with `sleeping`, the pause after a failed one.
    WaitingForDependency { deadline: u64, sleeping: bool },
    /// The build process is running.
    Building,
    /// The export process is running.
    Exporting,
    /// The export directory is being listed.
    Listing,
    /// The file at `current` is being uploaded.
    Uploading { entries: Vec<DirEntry>, current: usize },
    /// The run is over.
    Done { verdict: Verdict },
}

/// What the caller reports back.
#[derive(Clone, Debug)]
pub enum Event {
    /// The readiness poll ended.
    Polled { report: ProcessReport },
    /// The pause between two polls is over; `now` is the current time in milliseconds.
    Slept { now: u64 },
    /// The build or export process ended.
    ProcessFinished { report: ProcessReport },
    /// The export directory was listed.
    Listed { listing: Listing },
    /// The upload of the current file ended.
    FileDone { transfer: FileReport },
}

/// What listing the export directory came to.
#[derive(Clone, Debug)]
pub enum Listing {
    /// The directory does not exist.
    Missing,
    /// The storage client could not be set up.
    Unavailable { detail: String },
    /// The directory's direct children.
    Entries { entries: Vec<DirEntry> },
}

/// What the caller is asked to do next.
#[derive(Clone, Debug)]
pub enum Action {
    /// Poll the dependency once.
    PollDependency,
    /// Pause for this many milliseconds and read the clock.
    Sleep { millis: u64 },
    /// Run the build operation on this image reference.
    RunBuild { image: String },
    /// Run the export operation into this directory.
    RunExport { directory: String },
    /// List the direct children of this directory.
    ListDirectory { directory: String },
    /// Upload the file of this name under this key.
    UploadFile { filename: String, key: String },
    /// Nothing: the run is over.
    Finish,
}

/// Mathematical model of an [`Action`].
pub enum ActionView {
    PollDependency,
    Sleep { millis: u64 },
    RunBuild { image: Seq<char> },
    RunExport { directory: Seq<char> },
    ListDirectory { directory: Seq<char> },
    UploadFile { filename: Seq<char>, key: Seq<char> },
    Finish,
}

impl View for Action {
    type V = ActionView;

    open spec fn view(&self) -> ActionView {
        match *self {
            Action::PollDependency => ActionView::PollDependency,
            Action::Sleep { millis } => ActionView::Sleep { millis },
            Action::RunBuild { image } => ActionView::RunBuild { image: image@ },
            Action::RunExport { directory } => ActionView::RunExport { directory: directory@ },
            Action::ListDirectory { directory } => ActionView::ListDirectory {
                directory: directory@,
            },
            Action::UploadFile { filename, key } => ActionView::UploadFile {
                filename: filename@,
                key: key@,
            },
            Action::Finish => ActionView::Finish,
        }
    }
}

/// One run of the pipeline. A run owns all of its state: nothing is shared
/// between runs.
#[derive(Clone, Debug)]
pub struct Pipeline {
    /// The registry path of the notification.
    pub registry_path: String,
    /// The digest of the notification.
    pub digest: Option<String>,
    /// The configuration the run was started with.
    pub settings: Settings,
    /// Files transferred so far.
    pub uploaded: u64,
    /// Files that failed so far.
    pub failed: u64,
    /// Where the run stands.
    pub stage: Stage,
}

/// The end of a wait that starts at `now` and lasts `timeout`, capped at the
/// largest representable time.
pub open spec fn deadline_after(now: u64, timeout: u64) -> u64 {
    if now + timeout > u64::MAX {
        u64::MAX
    } else {
        (now + timeout) as u64
    }
}

/// The run `p` at another stage.
pub open spec fn at_stage(p: Pipeline, stage: Stage) -> Pipeline {
    Pipeline { stage, ..p }
}

/// The run `p`, over with `verdict`.
pub open spec fn ended(p: Pipeline, verdict: Verdict) -> Pipeline {
    Pipeline { stage: Stage::Done { verdict }, ..p }
}

/// The error of a readiness wait that ran out.
pub open spec fn timeout_of(settings: Settings) -> StageError {
    StageError::Timeout { seconds: settings.readiness_timeout_ms / 1000 }
}

/// The state in which a run for `notification` starts: over at once for a
/// failed push or a missing digest, else waiting for the dependency until the
/// deadline, with the first poll under way. Every run that builds polls at
/// least once, however short the wait.
pub open spec fn start_spec(notification: Notification, settings: Settings, now: u64) -> Pipeline {
    let deadline = deadline_after(now, settings.readiness_timeout_ms);
    Pipeline {
        registry_path: notification.registry_path,
        digest: notification.digest,
        settings,
        uploaded: 0,
        failed: 0,
        stage: if !notification.success {
            Stage::Done { verdict: Verdict::PushFailed }
        } else if notification.digest.is_none() {
            Stage::Done { verdict: Verdict::NoDigest }
        } else {
            Stage::WaitingForDependency { deadline, sleeping: false }
        },
    }
}

/// The state after the search for the next file, started at `from`, has
/// ended: the regular files passed over count as failed; the upload goes on
/// with the file found, or the run is complete.
pub open spec fn advance(p: Pipeline, entries: Vec<DirEntry>, from: int) -> Pipeline {
    let index = next_upload(entries@, from);
    Pipeline {
        failed: (p.failed + skipped_files(entries@, from)) as u64,
        stage: if index < entries@.len() {
            Stage::Uploading { entries, current: index as usize }
        } else {
            Stage::Done { verdict: Verdict::Completed }
        },
        ..p
    }
}

/// The tally after one more file.
pub open spec fn record(p: Pipeline, report: FileReport) -> Pipeline {
    if transferred(report) {
        Pipeline { uploaded: (p.uploaded + 1) as u64, ..p }
    } else {
        Pipeline { failed: (p.failed + 1) as u64, ..p }
    }
}

/// The state after a readiness poll, while one is under way: the build where
/// the poll exited with code zero; the pause before the next poll otherwise,
/// also where the poll could not be started. The wait ends in no other way
/// than by a ready dependency or by the deadline.
pub open spec fn after_poll(p: Pipeline, deadline: u64, report: ProcessReport) -> Pipeline {
    if succeeded(report) {
        at_stage(p, Stage::Building)
    } else {
        at_stage(p, Stage::WaitingForDependency { deadline, sleeping: true })
    }
}

/// The state after the pause between two polls: the next poll before the
/// deadline, a timeout at or after it.
pub open spec fn after_pause(p: Pipeline, deadline: u64, now: u64) -> Pipeline {
    if now < deadline {
        at_stage(p, Stage::WaitingForDependency { deadline, sleeping: false })
    } else {
        ended(p, Verdict::BuildFailed { error: timeout_of(p.settings) })
    }
}

/// The state after the build process has ended.
pub open spec fn after_build(p: Pipeline, report: ProcessReport) -> Pipeline {
    if succeeded(report) {
        at_stage(p, Stage::Exporting)
    } else {
        ended(p, Verdict::BuildFailed { error: failure_of(Operation::Build, report) })
    }
}

/// The state after the export process has ended. The storage credentials are
/// asked for only here, where the upload is about to start.
pub open spec fn after_export(p: Pipeline, report: ProcessReport) -> Pipeline {
    if !succeeded(report) {
        ended(p, Verdict::Degraded { error: failure_of(Operation::Export, report) })
    } else {
        match p.settings.missing_credential {
            Some(credential) => ended(
                p,
                Verdict::Degraded { error: StageError::MissingCredential { credential } },
            ),
            None => at_stage(p, Stage::Listing),
        }
    }
}

/// The state after the export directory has been listed.
pub open spec fn after_listing(p: Pipeline, listing: Listing) -> Pipeline {
    match listing {
        Listing::Missing => ended(
            p,
            Verdict::Degraded {
                error: StageError::MissingDirectory { directory: p.settings.export_dir },
            },
        ),
        Listing::Unavailable { detail } => ended(
            p,
            Verdict::Degraded { error: StageError::StorageUnavailable { detail } },
        ),
        Listing::Entries { entries } => advance(p, entries, 0),
    }
}

/// The transition function. An event that the current state does not wait for
/// leaves the state as it is; a finished run stays finished.
pub open spec fn step_spec(p: Pipeline, event: Event) -> Pipeline {
    match (p.stage, event) {
        (Stage::WaitingForDependency { deadline, sleeping }, Event::Polled { report }) => {
            if sleeping {
                p
            } else {
                after_poll(p, deadline, report)
            }
        },
        (Stage::WaitingForDependency { deadline, sleeping }, Event::Slept { now }) => {
            if sleeping {
                after_pause(p, deadline, now)
            } else {
                p
            }
        },
        (Stage::Building, Event::ProcessFinished { report }) => after_build(p, report),
        (Stage::Exporting, Event::ProcessFinished { report }) => after_export(p, report),
        (Stage::Listing, Event::Listed { listing }) => after_listing(p, listing),
        (Stage::Uploading { entries, current }, Event::FileDone { transfer }) => advance(
            record(p, transfer),
            entries,
            current + 1,
        ),
        _ => p,
    }
}

/// The state after a sequence of events, taken in order.
pub open spec fn run_spec(p: Pipeline, events: Seq<Event>) -> Pipeline
    decreases events.len(),
{
    if events.len() == 0 {
        p
    } else {
        run_spec(step_spec(p, events[0]), events.drop_first())
    }
}

/// The classification of a verdict.
pub open spec fn kind_of(verdict: Verdict) -> OutcomeKind {
    match verdict {
        Verdict::PushFailed => OutcomeKind::Failure,
        Verdict::NoDigest => OutcomeKind::Warning,
        Verdict::BuildFailed { .. } => OutcomeKind::Failure,
        Verdict::Degraded { .. } => OutcomeKind::PartialSuccess,
        Verdict::Completed => OutcomeKind::Success,
    }
}

/// The message of a verdict.
pub open spec fn message_of(verdict: Verdict) -> Seq<char> {
    match verdict {
        Verdict::PushFailed => "⚠️ Lane push failed"@,
        Verdict::NoDigest => "⚠️ No digest provided in notification"@,
        Verdict::BuildFailed { error } => "❌ Lane build failed: "@ + error_message(error),
        Verdict::Degraded { error } => "✅ Lane build succeeded but export failed: "@
            + error_message(error),
        Verdict::Completed => "✅ Notification processed, Lane build and export completed successfully!"@,
    }
}

impl Verdict {
    /// The classification of the verdict.
    pub fn kind(&self) -> (r: OutcomeKind)
        ensures
            r == kind_of(*self),
    {
        match self {
            Verdict::PushFailed => OutcomeKind::Failure,
            Verdict::NoDigest => OutcomeKind::Warning,
            Verdict::BuildFailed { .. } => OutcomeKind::Failure,
            Verdict::Degraded { .. } => OutcomeKind::PartialSuccess,
            Verdict::Completed => OutcomeKind::Success,
        }
    }

    /// Renders the verdict's message.
    pub fn message(&self) -> (r: String)
        ensures
            r@ == message_of(*self),
    {
        match self {
            Verdict::PushFailed => String::from_str("⚠️ Lane push failed"),
            Verdict::NoDigest => String::from_str("⚠️ No digest provided in notification"),
            Verdict::BuildFailed { error } => {
                let detail = error.message();
                join("❌ Lane build failed: ", detail.as_str())
            },
            Verdict::Degraded { error } => {
                let detail = error.message();
                join("✅ Lane build succeeded but export failed: ", detail.as_str())
            },
            Verdict::Completed => String::from_str(
                "✅ Notification processed, Lane build and export completed successfully!",
            ),
        }
    }
}

impl Pipeline {
    /// The digest as text, empty where there is none.
    pub open spec fn digest_text(self) -> Seq<char> {
        match self.digest {
            Some(digest) => digest@,
            None => Seq::empty(),
        }
    }

    /// The image reference that the run builds.
    pub open spec fn image(self) -> Seq<char> {
        image_reference_spec(self.registry_path@, self.digest_text())
    }

    /// Validity: every stage but the two that end a run at once has a digest;
    /// before the upload the tally is zero; during the upload the current
    /// entry is a valid regular file and the tally counts the regular files
    /// before it.
    pub open spec fn wf(self) -> bool {
        match self.stage {
            Stage::Uploading { entries, current } => {
                &&& self.digest.is_some()
                &&& current < entries@.len()
                &&& usable(entries@[current as int])
                &&& self.uploaded + self.failed == files_before(entries@, current as int)
            },
            Stage::Done { verdict } => match verdict {
                Verdict::PushFailed => true,
                Verdict::NoDigest => self.digest.is_none(),
                _ => self.digest.is_some(),
            },
            _ => self.digest.is_some() && self.uploaded == 0 && self.failed == 0,
        }
    }

    /// Whether the run is over.
    pub open spec fn is_done(self) -> bool {
        self.stage is Done
    }

    /// The action that the current state waits for.
    pub open spec fn pending_spec(self) -> ActionView {
        match self.stage {
            Stage::WaitingForDependency { sleeping, .. } => if sleeping {
                ActionView::Sleep { millis: self.settings.poll_interval_ms }
            } else {
                ActionView::PollDependency
            },
            Stage::Building => ActionView::RunBuild { image: self.image() },
            Stage::Exporting => ActionView::RunExport { directory: self.settings.export_dir@ },
            Stage::Listing => ActionView::ListDirectory { directory: self.settings.export_dir@ },
            Stage::Uploading { entries, current } => {
                let filename = entries@[current as int].name.unwrap()@;
                ActionView::UploadFile {
                    filename,
                    key: object_key_spec(self.digest_text(), filename),
                }
            },
            Stage::Done { .. } => ActionView::Finish,
        }
    }

    /// The outcome of a finished run: the verdict's classification and
    /// message, and the image reference where a build was attempted, the
    /// registry path where none was.
    pub open spec fn outcome_spec(self) -> Option<OutcomeView> {
        match self.stage {
            Stage::Done { verdict } => Some(
                OutcomeView {
                    kind: kind_of(verdict),
                    message: message_of(verdict),
                    container: match verdict {
                        Verdict::PushFailed => self.registry_path@,
                        Verdict::NoDigest => self.registry_path@,
                        _ => self.image(),
                    },
                },
            ),
            _ => None,
        }
    }

    /// Tells whether the value is valid. Every pipeline that `start` and
    /// `step` return is; one put together field by field may not be.
    pub fn is_valid(&self) -> (r: bool)
        ensures
            r == self.wf(),
    {
        match &self.stage {
            Stage::Uploading { entries, current } => {
                if self.digest.is_none() || *current >= entries.len() {
                    return false;
                }
                if !entries[*current].is_file || entries[*current].name.is_none() {
                    return false;
                }
                let files: usize = count_files(entries, *current);
                match self.uploaded.checked_add(self.failed) {
                    Some(total) => total == files as u64,
                    None => false,
                }
            },
            Stage::Done { verdict } => match verdict {
                Verdict::PushFailed => true,
                Verdict::NoDigest => self.digest.is_none(),
                _ => self.digest.is_some(),
            },
            _ => self.digest.is_some() && self.uploaded == 0 && self.failed == 0,
        }
    }

    /// The digest as text, empty where there is none.
    pub fn digest_str(&self) -> (r: &str)
        ensures
            r@ == self.digest_text(),
    {
        proof {
            reveal_strlit("");
        }
        match &self.digest {
            Some(digest) => digest.as_str(),
            None => {
                let r = "";
                assert(r@ =~= Seq::<char>::empty());
                r
            },
        }
    }

    /// Tells whether the run is over.
    pub fn is_finished(&self) -> (r: bool)
        ensures
            r == self.is_done(),
    {
        match &self.stage {
            Stage::Done { .. } => true,
            _ => false,
        }
    }

    /// The tally of the upload stage so far, under the digest as prefix.
    pub fn summary(&self) -> (r: UploadSummary)
        ensures
            r.uploaded == self.uploaded,
            r.failed == self.failed,
            r.prefix@ == self.digest_text(),
    {
        UploadSummary {
            uploaded: self.uploaded,
            failed: self.failed,
            prefix: String::from_str(self.digest_str()),
        }
    }

    /// The action that the caller is to perform next.
    pub fn pending(&self) -> (a: Action)
        requires
            self.wf(),
        ensures
            a@ == self.pending_spec(),
    {
        match &self.stage {
            Stage::WaitingForDependency { sleeping, .. } => {
                if *sleeping {
                    Action::Sleep { millis: self.settings.poll_interval_ms }
                } else {
                    Action::PollDependency
                }
            },
            Stage::Building => Action::RunBuild {
                image: image_reference(self.registry_path.as_str(), self.digest_str()),
            },
            Stage::Exporting => Action::RunExport { directory: self.settings.export_dir.clone() },
            Stage::Listing => Action::ListDirectory {
                directory: self.settings.export_dir.clone(),
            },
            Stage::Uploading { entries, current } => match &entries[*current].name {
                Some(name) => Action::UploadFile {
                    filename: name.clone(),
                    key: object_key(self.digest_str(), name.as_str()),
                },
                None => Action::Finish,
            },
            Stage::Done { .. } => Action::Finish,
        }
    }

    /// The outcome of the run, once it is over.
    pub fn outcome(&self) -> (r: Option<PipelineOutcome>)
        ensures
            match r {
                Some(outcome) => self.outcome_spec() == Some(outcome@),
                None => self.outcome_spec().is_none(),
            },
    {
        match &self.stage {
            Stage::Done { verdict } => {
                let container = match verdict {
                    Verdict::PushFailed => self.registry_path.clone(),
                    Verdict::NoDigest => self.registry_path.clone(),
                    _ => image_reference(self.registry_path.as_str(), self.digest_str()),
                };
                Some(PipelineOutcome { kind: verdict.kind(), message: verdict.message(), container })
            },
            _ => None,
        }
    }

    /// Starts a run for a notification at time `now`, in milliseconds of the
    /// clock that later `Slept` events report.
    pub fn start(notification: &Notification, settings: Settings, now: u64) -> (r: Pipeline)
        ensures
            r == start_spec(*notification, settings, now),
            r.wf(),
    {
        let deadline: u64 = match now.checked_add(settings.readiness_timeout_ms) {
            Some(d) => d,
            None => u64::MAX,
        };
        let digest: Option<String> = match &notification.digest {
            Some(d) => Some(d.clone()),
            None => None,
        };
        let stage = if !notification.success {
            Stage::Done { verdict: Verdict::PushFailed }
        } else if digest.is_none() {
            Stage::Done { verdict: Verdict::NoDigest }
        } else {
            Stage::WaitingForDependency { deadline, sleeping: false }
        };
        Pipeline {
            registry_path: notification.registry_path.clone(),
            digest,
            settings,
            uploaded: 0,
            failed: 0,
            stage,
        }
    }

    /// Takes one event and moves to the next state.
    pub fn step(self, event: Event) -> (r: Pipeline)
        requires
            self.wf(),
        ensures
            r == step_spec(self, event),
            r.wf(),
    {
        let Pipeline { registry_path, digest, settings, uploaded, failed, stage } = self;
        match stage {
            Stage::WaitingForDependency { deadline, sleeping } => {
                let next = match event {
                    Event::Polled { report } => {
                        if sleeping {
                            Stage::WaitingForDependency { deadline, sleeping }
                        } else if report.is_success() {
                            Stage::Building
                        } else {
                            Stage::WaitingForDependency { deadline, sleeping: true }
                        }
                    },
                    Event::Slept { now } => {
                        if !sleeping {
                            Stage::WaitingForDependency { deadline, sleeping }
                        } else if now < deadline {
                            Stage::WaitingForDependency { deadline, sleeping: false }
                        } else {
                            Stage::Done {
                                verdict: Verdict::BuildFailed {
                                    error: StageError::Timeout {
                                        seconds: settings.readiness_timeout_ms / 1000,
                                    },
                                },
                            }
                        }
                    },
                    _ => Stage::WaitingForDependency { deadline, sleeping },
                };
                Pipeline { registry_path, digest, settings, uploaded, failed, stage: next }
            },
            Stage::Building => {
                let next = match event {
                    Event::ProcessFinished { report } => match classify(Operation::Build, report) {
                        StageResult::Success { .. } => Stage::Exporting,
                        StageResult::Failure { error } => Stage::Done {
                            verdict: Verdict::BuildFailed { error },
                        },
                    },
                    _ => Stage::Building,
                };
                Pipeline { registry_path, digest, settings, uploaded, failed, stage: next }
            },
            Stage::Exporting => {
                let next = match event {
                    Event::ProcessFinished { report } => match classify(
                        Operation::Export,
                        report,
                    ) {
                        StageResult::Failure { error } => Stage::Done {
                            verdict: Verdict::Degraded { error },
                        },
                        StageResult::Success { .. } => match settings.missing_credential {
                            Some(credential) => Stage::Done {
                                verdict: Verdict::Degraded {
                                    error: StageError::MissingCredential { credential },
                                },
                            },
                            None => Stage::Listing,
                        },
                    },
                    _ => Stage::Exporting,
                };
                Pipeline { registry_path, digest, settings, uploaded, failed, stage: next }
            },
            Stage::Listing => match event {
                Event::Listed { listing } => match listing {
                    Listing::Missing => {
                        let directory = settings.export_dir.clone();
                        Pipeline {
                            registry_path,
                            digest,
                            settings,
                            uploaded,
                            failed,
                            stage: Stage::Done {
                                verdict: Verdict::Degraded {
                                    error: StageError::MissingDirectory { directory },
                                },
                            },
                        }
                    },
                    Listing::Unavailable { detail } => Pipeline {
                        registry_path,
                        digest,
                        settings,
                        uploaded,
                        failed,
                        stage: Stage::Done {
                            verdict: Verdict::Degraded {
                                error: StageError::StorageUnavailable { detail },
                            },
                        },
                    },
                    Listing::Entries { entries } => {
                        proof {
                            assert(entries.len() == entries@.len());
                            lemma_next_upload(entries@, 0);
                        }
                        let found = scan(&entries, 0);
                        let stage = match found.next {
                            Some(index) => Stage::Uploading { entries, current: index },
                            None => Stage::Done { verdict: Verdict::Completed },
                        };
                        Pipeline {
                            registry_path,
                            digest,
                            settings,
                            uploaded,
                            failed: failed + found.skipped,
                            stage,
                        }
                    },
                },
                _ => Pipeline { registry_path, digest, settings, uploaded, failed, stage: Stage::Listing },
            },
            Stage::Uploading { entries, current } => {
                match event {
                    Event::FileDone { transfer } => {
                        proof {
                            assert(entries.len() == entries@.len());
                            lemma_files_before_bound(entries@, current as int);
                            lemma_next_upload(entries@, current + 1);
                            lemma_files_before_bound(
                                entries@,
                                next_upload(entries@, current + 1),
                            );
                        }
                        let ok = transfer.is_success();
                        let uploaded: u64 = if ok {
                            uploaded + 1
                        } else {
                            uploaded
                        };
                        let failed: u64 = if ok {
                            failed
                        } else {
                            failed + 1
                        };
                        let found = scan(&entries, current + 1);
                        let next = match found.next {
                            Some(index) => Stage::Uploading { entries, current: index },
                            None => Stage::Done { verdict: Verdict::Completed },
                        };
                        Pipeline {
                            registry_path,
                            digest,
                            settings,
                            uploaded,
                            failed: failed + found.skipped,
                            stage: next,
                        }
                    },
                    _ => Pipeline {
                        registry_path,
                        digest,
                        settings,
                        uploaded,
                        failed,
                        stage: Stage::Uploading { entries, current },
                    },
                }
            },
            Stage::Done { verdict } => Pipeline {
                registry_path,
                digest,
                settings,
                uploaded,
                failed,
                stage: Stage::Done { verdict },
            },
        }
    }
}

} // verus!
