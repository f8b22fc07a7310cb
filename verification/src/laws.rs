//! What holds of every run of the pipeline.

use vstd::prelude::*;
use crate::config::Settings;
use crate::outcome::{OutcomeKind, OutcomeView};
use crate::pipeline::{
    run_spec, start_spec, step_spec, timeout_of, ActionView, Event, Listing, Notification,
    Pipeline, Stage, Verdict,
};
use crate::upload::DirEntry;
use crate::process::{failure_of, succeeded, ProcessReport};
use crate::stage::{error_message, status_text, Operation};
use crate::text::{digits, image_reference_spec, prefix_len, repository};
use crate::upload::{
    files_before, lemma_files_before_bound, lemma_next_upload, lemma_usable_from_next,
    next_upload, skipped_files, transferred, transferred_count, usable_from, FileReport,
};

verus! {

/// The number of leading characters that differ from the separator is at
/// most the length; none of them is the separator, and the character after
/// them, if there is one, is.
pub proof fn law_prefix_ends_at_separator(s: Seq<char>, sep: char)
    ensures
        prefix_len(s, sep) <= s.len(),
        forall|i: int| 0 <= i < prefix_len(s, sep) ==> s[i] != sep,
        prefix_len(s, sep) < s.len() ==> s[prefix_len(s, sep) as int] == sep,
    decreases s.len(),
{
    if s.len() == 0 || s[0] == sep {
    } else {
        let t = s.drop_first();
        law_prefix_ends_at_separator(t, sep);
        assert forall|i: int| 0 <= i < prefix_len(s, sep) implies s[i] != sep by {
            if i > 0 {
                assert(s[i] == t[i - 1]);
            }
        }
        if prefix_len(s, sep) < s.len() {
            assert(s[prefix_len(s, sep) as int] == t[prefix_len(t, sep) as int]);
        }
    }
}

/// The resolved reference drops whatever follows the first colon of the
/// registry path: it is a colon-free beginning of the path, cut at a colon or
/// at the path's end, followed by an at sign and the digest.
pub proof fn law_reference_drops_tag(path: Seq<char>, digest: Seq<char>)
    ensures
        ({
            let repo = repository(path);
            &&& repo.len() <= path.len()
            &&& repo == path.subrange(0, repo.len() as int)
            &&& forall|i: int| 0 <= i < repo.len() ==> repo[i] != ':'
            &&& repo.len() < path.len() ==> path[repo.len() as int] == ':'
            &&& image_reference_spec(path, digest) == repo + seq!['@'] + digest
            &&& image_reference_spec(path, digest).len() == repo.len() + 1 + digest.len()
        }),
{
    law_prefix_ends_at_separator(path, ':');
}

/// Whether an action starts a build, an export or an upload.
pub open spec fn runs_stage(action: ActionView) -> bool {
    action is RunBuild || action is RunExport || action is ListDirectory || action is UploadFile
}

/// Whether an event reports that the dependency is ready.
pub open spec fn reports_ready(event: Event) -> bool {
    match event {
        Event::Polled { report } => succeeded(report),
        _ => false,
    }
}

/// A finished run stays as it is, whatever is reported to it afterwards: its
/// outcome is final and it asks for nothing more.
pub proof fn law_done_is_terminal(p: Pipeline, events: Seq<Event>)
    requires
        p.is_done(),
    ensures
        run_spec(p, events) == p,
        p.pending_spec() == ActionView::Finish,
    decreases events.len(),
{
    if events.len() > 0 {
        law_done_is_terminal(p, events.drop_first());
    }
}

/// A run keeps the registry path, the digest and the settings it was started
/// with, whatever is reported to it.
pub proof fn law_run_keeps_its_subject(p: Pipeline, events: Seq<Event>)
    ensures
        run_spec(p, events).registry_path == p.registry_path,
        run_spec(p, events).digest == p.digest,
        run_spec(p, events).settings == p.settings,
    decreases events.len(),
{
    if events.len() > 0 {
        law_run_keeps_its_subject(step_spec(p, events[0]), events.drop_first());
    }
}

/// A notification of a failed push ends the run at once as a failure with the
/// push-failed message; no stage is ever asked for, whatever events follow.
pub proof fn law_failed_push_runs_nothing(
    notification: Notification,
    settings: Settings,
    now: u64,
    events: Seq<Event>,
)
    requires
        !notification.success,
    ensures
        ({
            let p = run_spec(start_spec(notification, settings, now), events);
            &&& p.outcome_spec() == Some(
                OutcomeView {
                    kind: OutcomeKind::Failure,
                    message: "⚠️ Lane push failed"@,
                    container: notification.registry_path@,
                },
            )
            &&& !runs_stage(p.pending_spec())
        }),
{
    law_done_is_terminal(start_spec(notification, settings, now), events);
}

/// A notification of a successful push without a digest ends the run at once
/// as a warning; no stage is ever asked for, whatever events follow.
pub proof fn law_missing_digest_is_warning(
    notification: Notification,
    settings: Settings,
    now: u64,
    events: Seq<Event>,
)
    requires
        notification.success,
        notification.digest.is_none(),
    ensures
        ({
            let p = run_spec(start_spec(notification, settings, now), events);
            &&& p.outcome_spec() == Some(
                OutcomeView {
                    kind: OutcomeKind::Warning,
                    message: "⚠️ No digest provided in notification"@,
                    container: notification.registry_path@,
                },
            )
            &&& !runs_stage(p.pending_spec())
        }),
{
    law_done_is_terminal(start_spec(notification, settings, now), events);
}

/// Whether a run is waiting for its dependency or has given the wait up at
/// the deadline.
pub open spec fn waiting_or_timed_out(p: Pipeline) -> bool {
    p.stage is WaitingForDependency || p.stage == (Stage::Done {
        verdict: Verdict::BuildFailed { error: timeout_of(p.settings) },
    })
}

/// The readiness wait ends in two ways only: by a poll that reports the
/// dependency ready, which starts the build, or by a pause that ends at or
/// after the deadline, which ends the run with the timeout. Every other
/// event, a poll that could not be started among them, leaves the run
/// waiting, with the same deadline.
pub proof fn law_wait_ends_by_ready_or_deadline(p: Pipeline, event: Event)
    requires
        p.stage is WaitingForDependency,
    ensures
        ({
            let q = step_spec(p, event);
            let deadline = p.stage->WaitingForDependency_deadline;
            let sleeping = p.stage->WaitingForDependency_sleeping;
            &&& q.stage is Building <==> !sleeping && reports_ready(event)
            &&& q.is_done() <==> sleeping && (event matches Event::Slept { now } && now
                >= deadline)
            &&& q.is_done() ==> q.stage == (Stage::Done {
                verdict: Verdict::BuildFailed { error: timeout_of(p.settings) },
            })
            &&& q.stage is WaitingForDependency || q.stage is Building || q.is_done()
            &&& q.stage is WaitingForDependency ==> q.stage->WaitingForDependency_deadline
                == deadline
            &&& (!sleeping && event is Polled && !reports_ready(event)) ==> q.pending_spec()
                == (ActionView::Sleep { millis: p.settings.poll_interval_ms })
        }),
{
}

/// While no poll reports the dependency ready, a waiting run keeps waiting or
/// has timed out: it never asks for a build, an export or an upload.
pub proof fn law_waiting_without_ready(p: Pipeline, events: Seq<Event>)
    requires
        waiting_or_timed_out(p),
        forall|i: int| 0 <= i < events.len() ==> !reports_ready(#[trigger] events[i]),
    ensures
        ({
            let q = run_spec(p, events);
            &&& waiting_or_timed_out(q)
            &&& !runs_stage(q.pending_spec())
            &&& q.is_done() ==> q.outcome_spec().unwrap().kind == OutcomeKind::Failure
        }),
    decreases events.len(),
{
    if events.len() > 0 {
        let rest = events.drop_first();
        assert(!reports_ready(events[0]));
        assert forall|i: int| 0 <= i < rest.len() implies !reports_ready(#[trigger] rest[i]) by {
            assert(rest[i] == events[i + 1]);
        }
        law_waiting_without_ready(step_spec(p, events[0]), rest);
    }
}

/// A run for a successful push with a digest, to which no poll ever reports
/// the dependency ready, never asks for a build, an export or an upload; once
/// it is over, it is a failure by timeout.
pub proof fn law_unready_dependency_runs_nothing(
    notification: Notification,
    settings: Settings,
    now: u64,
    events: Seq<Event>,
)
    requires
        notification.success,
        notification.digest.is_some(),
        forall|i: int| 0 <= i < events.len() ==> !reports_ready(#[trigger] events[i]),
    ensures
        ({
            let q = run_spec(start_spec(notification, settings, now), events);
            &&& !runs_stage(q.pending_spec())
            &&& waiting_or_timed_out(q)
            &&& q.is_done() ==> q.outcome_spec().unwrap().kind == OutcomeKind::Failure
        }),
{
    law_waiting_without_ready(start_spec(notification, settings, now), events);
}

/// Every run for a successful push with a digest begins with a readiness poll
/// of its own, whatever earlier runs found and however short the wait, and it
/// asks for a build, an export or an upload, or ends otherwise than as a
/// failure, only after one of its own polls has reported the dependency
/// ready: no readiness is remembered between runs.
pub proof fn law_run_builds_on_its_own_ready_poll(
    notification: Notification,
    settings: Settings,
    now: u64,
    events: Seq<Event>,
)
    requires
        notification.success,
        notification.digest.is_some(),
    ensures
        start_spec(notification, settings, now).pending_spec() == ActionView::PollDependency,
        ({
            let q = run_spec(start_spec(notification, settings, now), events);
            (runs_stage(q.pending_spec()) || (q.is_done() && q.outcome_spec().unwrap().kind
                != OutcomeKind::Failure)) ==> exists|i: int|
                0 <= i < events.len() && reports_ready(#[trigger] events[i])
        }),
{
    if !(exists|i: int| 0 <= i < events.len() && reports_ready(#[trigger] events[i])) {
        law_unready_dependency_runs_nothing(notification, settings, now, events);
    }
}

/// When the pause after a failed poll ends at or after the deadline, the run
/// ends as a failure that names the configured wait, and stays so.
pub proof fn law_deadline_ends_wait(p: Pipeline, now: u64, events: Seq<Event>)
    requires
        p.stage matches Stage::WaitingForDependency { deadline, sleeping } && sleeping && now
            >= deadline,
    ensures
        ({
            let q = step_spec(p, Event::Slept { now });
            &&& q.outcome_spec() == Some(
                OutcomeView {
                    kind: OutcomeKind::Failure,
                    message: "❌ Lane build failed: "@ + "Docker did not become ready within "@
                        + digits((p.settings.readiness_timeout_ms / 1000) as nat)
                        + " seconds"@,
                    container: p.image(),
                },
            )
            &&& run_spec(q, events) == q
            &&& !runs_stage(q.pending_spec())
        }),
{
    let q = step_spec(p, Event::Slept { now });
    law_done_is_terminal(q, events);
    assert(q.outcome_spec().unwrap().message =~= "❌ Lane build failed: "@
        + "Docker did not become ready within "@ + digits(
        (p.settings.readiness_timeout_ms / 1000) as nat,
    ) + " seconds"@);
}

/// A build that does not exit with code zero ends the run as a failure whose
/// message carries the exit status; the export is never asked for.
pub proof fn law_failed_build_is_failure(p: Pipeline, report: ProcessReport, events: Seq<Event>)
    requires
        p.stage is Building,
        !succeeded(report),
    ensures
        ({
            let q = step_spec(p, Event::ProcessFinished { report });
            &&& q.outcome_spec() == Some(
                OutcomeView {
                    kind: OutcomeKind::Failure,
                    message: "❌ Lane build failed: "@ + error_message(
                        failure_of(Operation::Build, report),
                    ),
                    container: p.image(),
                },
            )
            &&& report matches ProcessReport::Exited { code, signal } ==> error_message(
                failure_of(Operation::Build, report),
            ) == "Lane "@ + "build"@ + " failed with exit code "@ + status_text(code, signal)
            &&& run_spec(q, events) == q
            &&& !runs_stage(q.pending_spec())
        }),
{
    law_done_is_terminal(step_spec(p, Event::ProcessFinished { report }), events);
}

/// An export that does not exit with code zero, after a successful build,
/// ends the run as a partial success; the upload is never asked for.
pub proof fn law_failed_export_is_partial(p: Pipeline, report: ProcessReport, events: Seq<Event>)
    requires
        p.stage is Exporting,
        !succeeded(report),
    ensures
        ({
            let q = step_spec(p, Event::ProcessFinished { report });
            &&& q.outcome_spec() == Some(
                OutcomeView {
                    kind: OutcomeKind::PartialSuccess,
                    message: "✅ Lane build succeeded but export failed: "@ + error_message(
                        failure_of(Operation::Export, report),
                    ),
                    container: p.image(),
                },
            )
            &&& run_spec(q, events) == q
            &&& !runs_stage(q.pending_spec())
        }),
{
    law_done_is_terminal(step_spec(p, Event::ProcessFinished { report }), events);
}

/// A missing export directory, after build and export succeeded, ends the run
/// as a partial success that names the directory.
pub proof fn law_missing_directory_is_partial(p: Pipeline, events: Seq<Event>)
    requires
        p.stage is Listing,
    ensures
        ({
            let q = step_spec(p, Event::Listed { listing: Listing::Missing });
            &&& q.outcome_spec() == Some(
                OutcomeView {
                    kind: OutcomeKind::PartialSuccess,
                    message: "✅ Lane build succeeded but export failed: "@
                        + "Export directory '"@ + p.settings.export_dir@ + "' does not exist"@,
                    container: p.image(),
                },
            )
            &&& run_spec(q, events) == q
        }),
{
    let q = step_spec(p, Event::Listed { listing: Listing::Missing });
    law_done_is_terminal(q, events);
    assert(q.outcome_spec().unwrap().message =~= "✅ Lane build succeeded but export failed: "@
        + "Export directory '"@ + p.settings.export_dir@ + "' does not exist"@);
}

/// Each uploaded file counts once, as transferred or as failed, and its
/// failure never changes where the run goes: the next state is the same but
/// for the tally. When the last file is done the run is a success, and the
/// tally counts every regular file of the listing.
pub proof fn law_file_failures_are_only_counted(p: Pipeline, report: FileReport, other: FileReport)
    requires
        p.wf(),
        p.stage is Uploading,
    ensures
        ({
            let q = step_spec(p, Event::FileDone { transfer: report });
            let entries = p.stage->Uploading_entries@;
            let skipped = skipped_files(entries, p.stage->Uploading_current + 1);
            &&& q.wf()
            &&& q.uploaded == p.uploaded + if transferred(report) {
                1int
            } else {
                0int
            }
            &&& q.failed == p.failed + skipped + if transferred(report) {
                0int
            } else {
                1int
            }
            &&& q.stage == step_spec(p, Event::FileDone { transfer: other }).stage
            &&& q.stage is Uploading || q.stage == (Stage::Done { verdict: Verdict::Completed })
            &&& q.is_done() ==> {
                &&& q.outcome_spec().unwrap().kind == OutcomeKind::Success
                &&& q.uploaded + q.failed == files_before(entries, entries.len() as int)
            }
        }),
{
    let entries = p.stage->Uploading_entries@;
    let current = p.stage->Uploading_current;
    assert(p.stage->Uploading_entries.len() == entries.len());
    lemma_files_before_bound(entries, current as int);
    lemma_next_upload(entries, current + 1);
    lemma_files_before_bound(entries, next_upload(entries, current + 1));
}

/// The events that report the given uploads, in order.
pub open spec fn file_events(reports: Seq<FileReport>) -> Seq<Event> {
    Seq::new(reports.len(), |i: int| Event::FileDone { transfer: reports[i] })
}

/// Once every file that can be uploaded has been reported, the run is a
/// success however many of them failed: the transferred files are exactly
/// those reported so, and the tally counts every regular file of the listing.
pub proof fn law_upload_gathers_all_outcomes(p: Pipeline, reports: Seq<FileReport>)
    requires
        p.wf(),
        p.stage is Uploading,
        reports.len() == usable_from(
            p.stage->Uploading_entries@,
            p.stage->Uploading_current as int,
        ),
    ensures
        ({
            let q = run_spec(p, file_events(reports));
            let entries = p.stage->Uploading_entries@;
            &&& q.stage == (Stage::Done { verdict: Verdict::Completed })
            &&& q.outcome_spec().unwrap().kind == OutcomeKind::Success
            &&& q.uploaded == p.uploaded + transferred_count(reports)
            &&& q.uploaded + q.failed == files_before(entries, entries.len() as int)
        }),
    decreases reports.len(),
{
    let entries = p.stage->Uploading_entries@;
    let current = p.stage->Uploading_current as int;
    let events = file_events(reports);
    assert(p.stage->Uploading_entries.len() == entries.len());
    lemma_usable_from_next(entries, current + 1);
    lemma_next_upload(entries, current + 1);
    assert(reports.len() >= 1);
    assert(events[0] == Event::FileDone { transfer: reports[0] });
    let q = step_spec(p, events[0]);
    law_file_failures_are_only_counted(p, reports[0], reports[0]);
    let rest = reports.drop_first();
    assert(events.drop_first() =~= file_events(rest));
    assert(run_spec(p, events) == run_spec(q, file_events(rest)));
    if next_upload(entries, current + 1) < entries.len() {
        assert(q.stage->Uploading_entries@ == entries);
        law_upload_gathers_all_outcomes(q, rest);
    } else {
        assert(rest.len() == 0);
        assert(transferred_count(rest) == 0);
        assert(run_spec(q, file_events(rest)) == q);
    }
}

/// A run for a successful push with a digest, whose dependency is ready at
/// the first poll, whose build and export exit with code zero and whose
/// export directory is listed, is a success once every file that can be
/// uploaded has been reported, whatever became of the files: the tally holds
/// as transferred exactly the files reported so, and counts every regular
/// file of the listing once.
pub proof fn law_complete_run_is_success(
    notification: Notification,
    settings: Settings,
    now: u64,
    ready: ProcessReport,
    built: ProcessReport,
    exported: ProcessReport,
    entries: Vec<DirEntry>,
    reports: Seq<FileReport>,
)
    requires
        notification.success,
        notification.digest.is_some(),
        succeeded(ready),
        succeeded(built),
        succeeded(exported),
        settings.missing_credential.is_none(),
        reports.len() == usable_from(entries@, 0),
    ensures
        ({
            let waiting = start_spec(notification, settings, now);
            let building = step_spec(waiting, Event::Polled { report: ready });
            let exporting = step_spec(building, Event::ProcessFinished { report: built });
            let listing = step_spec(exporting, Event::ProcessFinished { report: exported });
            let uploading = step_spec(
                listing,
                Event::Listed { listing: Listing::Entries { entries } },
            );
            let q = run_spec(uploading, file_events(reports));
            &&& building.stage == Stage::Building
            &&& exporting.stage == Stage::Exporting
            &&& listing.stage == Stage::Listing
            &&& q.stage == (Stage::Done { verdict: Verdict::Completed })
            &&& q.outcome_spec().unwrap().kind == OutcomeKind::Success
            &&& q.outcome_spec().unwrap().container == image_reference_spec(
                notification.registry_path@,
                notification.digest.unwrap()@,
            )
            &&& q.uploaded == transferred_count(reports)
            &&& q.uploaded + q.failed == files_before(entries@, entries@.len() as int)
        }),
{
    let waiting = start_spec(notification, settings, now);
    let building = step_spec(waiting, Event::Polled { report: ready });
    let exporting = step_spec(building, Event::ProcessFinished { report: built });
    let listing = step_spec(exporting, Event::ProcessFinished { report: exported });
    let uploading = step_spec(listing, Event::Listed { listing: Listing::Entries { entries } });
    assert(entries.len() == entries@.len());
    lemma_next_upload(entries@, 0);
    lemma_usable_from_next(entries@, 0);
    lemma_files_before_bound(entries@, next_upload(entries@, 0));
    law_run_keeps_its_subject(uploading, file_events(reports));
    if next_upload(entries@, 0) < entries@.len() {
        law_upload_gathers_all_outcomes(uploading, reports);
    } else {
        assert(reports.len() == 0);
        assert(transferred_count(reports) == 0);
        assert(run_spec(uploading, file_events(reports)) == uploading);
    }
}

/// The order of the stages, from the readiness wait to the end.
pub open spec fn rank(stage: Stage) -> int {
    match stage {
        Stage::WaitingForDependency { .. } => 0,
        Stage::Building => 1,
        Stage::Exporting => 2,
        Stage::Listing => 3,
        Stage::Uploading { .. } => 4,
        Stage::Done { .. } => 5,
    }
}

/// The stages run strictly in sequence: an event moves a run forward or not at
/// all, and to the next stage only from the one before it. The build starts
/// on a ready dependency, the export on a successful build, the upload on a
/// successful export.
pub proof fn law_stages_run_in_sequence(p: Pipeline, event: Event)
    ensures
        ({
            let q = step_spec(p, event);
            &&& rank(p.stage) <= rank(q.stage)
            &&& !q.is_done() ==> rank(q.stage) <= rank(p.stage) + 1
            &&& (q.stage is Building && !(p.stage is Building)) ==> p.stage is WaitingForDependency
                && reports_ready(event)
            &&& (q.stage is Exporting && !(p.stage is Exporting)) ==> p.stage is Building && (
            event matches Event::ProcessFinished { report } && succeeded(report))
            &&& (q.stage is Listing && !(p.stage is Listing)) ==> p.stage is Exporting && (
            event matches Event::ProcessFinished { report } && succeeded(report))
        }),
{
}

/// A run depends on nothing but its own notification, settings, clock and
/// events: two deliveries with the same content go through the same states,
/// and each starts with an empty tally.
pub proof fn law_runs_are_independent(
    first: Notification,
    second: Notification,
    settings: Settings,
    now: u64,
    events: Seq<Event>,
)
    requires
        first.success == second.success,
        first.registry_path == second.registry_path,
        first.digest == second.digest,
    ensures
        run_spec(start_spec(first, settings, now), events) == run_spec(
            start_spec(second, settings, now),
            events,
        ),
        start_spec(first, settings, now).uploaded == 0,
        start_spec(first, settings, now).failed == 0,
        start_spec(second, settings, now).uploaded == 0,
        start_spec(second, settings, now).failed == 0,
{
}

} // verus!
