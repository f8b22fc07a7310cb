use notification_server::config::Settings;
use notification_server::outcome::{respond, OutcomeKind, Timestamp};
use notification_server::pipeline::{
    Action, Event, Listing, Notification, Pipeline, Stage, Verdict,
};
use notification_server::process::ProcessReport;
use notification_server::stage::Credential;
use notification_server::upload::{DirEntry, FileReport};

fn notification(success: bool, digest: Option<&str>) -> Notification {
    Notification {
        kind: "push".to_string(),
        registry_path: "registry.example.com/app:latest".to_string(),
        original_path: "app:latest".to_string(),
        timestamp: Timestamp { seconds: 1700000000, nanos: 0 },
        success,
        profile: "prod".to_string(),
        platforms: vec!["linux/amd64".to_string()],
        digest: digest.map(|d| d.to_string()),
    }
}

fn settings() -> Settings {
    Settings::standard("lane-export-temp".to_string(), None)
}

fn exited(code: i32) -> Event {
    Event::ProcessFinished { report: ProcessReport::Exited { code: Some(code), signal: None } }
}

fn ready() -> Event {
    Event::Polled { report: ProcessReport::Exited { code: Some(0), signal: None } }
}

fn file(name: &str) -> DirEntry {
    DirEntry { name: Some(name.to_string()), is_file: true }
}

fn listed(entries: Vec<DirEntry>) -> Event {
    Event::Listed { listing: Listing::Entries { entries } }
}

fn done(status: u16) -> Event {
    Event::FileDone { transfer: FileReport::Responded { status } }
}

fn exported() -> Pipeline {
    Pipeline::start(&notification(true, Some("sha256:abc")), settings(), 0)
        .step(ready())
        .step(exited(0))
        .step(exited(0))
}

#[test]
fn failed_push_is_failure_and_runs_nothing() {
    let p = Pipeline::start(&notification(false, Some("sha256:abc")), settings(), 0);
    assert!(p.is_finished());
    assert!(matches!(p.pending(), Action::Finish));
    let o = p.outcome().unwrap();
    assert_eq!(o.kind, OutcomeKind::Failure);
    assert_eq!(o.message, "⚠️ Lane push failed");
    assert_eq!(o.container, "registry.example.com/app:latest");
    let r = respond(o, Timestamp { seconds: 1, nanos: 0 });
    assert_eq!(r.http_status, 500);
    assert_eq!(r.status, "Failed");
    let p = p.step(ready()).step(exited(0)).step(listed(vec![file("a")])).step(done(200));
    assert!(matches!(p.pending(), Action::Finish));
    assert_eq!(p.outcome().unwrap().kind, OutcomeKind::Failure);
    assert_eq!(p.summary().uploaded, 0);
}

#[test]
fn failed_push_without_digest_is_failure() {
    let p = Pipeline::start(&notification(false, None), settings(), 0);
    let o = p.outcome().unwrap();
    assert_eq!(o.kind, OutcomeKind::Failure);
    assert_eq!(o.message, "⚠️ Lane push failed");
}

#[test]
fn missing_digest_is_warning_and_runs_nothing() {
    let p = Pipeline::start(&notification(true, None), settings(), 0);
    assert!(p.is_finished());
    assert!(matches!(p.pending(), Action::Finish));
    let o = p.outcome().unwrap();
    assert_eq!(o.kind, OutcomeKind::Warning);
    assert_eq!(o.message, "⚠️ No digest provided in notification");
    assert_eq!(o.container, "registry.example.com/app:latest");
    let r = respond(o, Timestamp { seconds: 1, nanos: 0 });
    assert_eq!(r.http_status, 200);
    assert_eq!(r.status, "Warning");
    let p = p.step(ready()).step(exited(0));
    assert!(matches!(p.pending(), Action::Finish));
    assert_eq!(p.outcome().unwrap().kind, OutcomeKind::Warning);
}

#[test]
fn run_starts_by_polling_the_dependency() {
    let p = Pipeline::start(&notification(true, Some("sha256:abc")), settings(), 500);
    assert!(!p.is_finished());
    assert!(p.outcome().is_none());
    assert!(matches!(p.pending(), Action::PollDependency));
    assert!(matches!(
        p.stage,
        Stage::WaitingForDependency { deadline: 90500, sleeping: false }
    ));
}

#[test]
fn build_uses_resolved_reference() {
    let p = Pipeline::start(&notification(true, Some("sha256:abc")), settings(), 0).step(ready());
    match p.pending() {
        Action::RunBuild { image } => assert_eq!(image, "registry.example.com/app@sha256:abc"),
        other => panic!("unexpected action {:?}", other),
    }
}

#[test]
fn readiness_timeout_is_failure_and_runs_nothing() {
    let mut p = Pipeline::start(&notification(true, Some("sha256:abc")), settings(), 0);
    let mut now: u64 = 0;
    let mut polls = 0;
    while !p.is_finished() {
        match p.pending() {
            Action::PollDependency => {
                polls += 1;
                p = p.step(Event::Polled { report: ProcessReport::Exited { code: Some(1), signal: None } });
            }
            Action::Sleep { millis } => {
                assert_eq!(millis, 1000);
                now += millis;
                p = p.step(Event::Slept { now });
            }
            other => panic!("unexpected action {:?}", other),
        }
    }
    assert_eq!(polls, 90);
    assert_eq!(now, 90000);
    let o = p.outcome().unwrap();
    assert_eq!(o.kind, OutcomeKind::Failure);
    assert_eq!(o.message, "❌ Lane build failed: Docker did not become ready within 90 seconds");
    assert_eq!(o.container, "registry.example.com/app@sha256:abc");
    assert_eq!(respond(o, Timestamp { seconds: 0, nanos: 0 }).http_status, 500);
    let p = p.step(ready()).step(exited(0));
    assert!(matches!(p.pending(), Action::Finish));
}

#[test]
fn dependency_ready_after_retries_builds() {
    let p = Pipeline::start(&notification(true, Some("sha256:abc")), settings(), 0)
        .step(Event::Polled { report: ProcessReport::Exited { code: None, signal: None } })
        .step(Event::Slept { now: 89999 });
    assert!(matches!(p.pending(), Action::PollDependency));
    let p = p.step(ready());
    assert!(matches!(p.pending(), Action::RunBuild { .. }));
}

#[test]
fn zero_timeout_still_polls_once() {
    let mut s = settings();
    s.readiness_timeout_ms = 0;
    let p = Pipeline::start(&notification(true, Some("sha256:abc")), s, 7);
    assert!(!p.is_finished());
    assert!(matches!(p.pending(), Action::PollDependency));
    let p = p.step(Event::Polled { report: ProcessReport::Exited { code: Some(1), signal: None } });
    assert!(matches!(p.pending(), Action::Sleep { millis: 1000 }));
    let p = p.step(Event::Slept { now: 1007 });
    let o = p.outcome().unwrap();
    assert_eq!(o.kind, OutcomeKind::Failure);
    assert_eq!(o.message, "❌ Lane build failed: Docker did not become ready within 0 seconds");
    let mut s = settings();
    s.readiness_timeout_ms = 0;
    let p = Pipeline::start(&notification(true, Some("sha256:abc")), s, 7).step(ready());
    assert!(matches!(p.pending(), Action::RunBuild { .. }));
}

#[test]
fn deadline_saturates() {
    let p = Pipeline::start(&notification(true, Some("sha256:abc")), settings(), u64::MAX - 5);
    assert!(matches!(
        p.stage,
        Stage::WaitingForDependency { deadline: u64::MAX, sleeping: false }
    ));
}

#[test]
fn poll_that_cannot_start_counts_as_not_ready() {
    let failed = || Event::Polled {
        report: ProcessReport::LaunchFailed { detail: "no docker".to_string() },
    };
    let p = Pipeline::start(&notification(true, Some("sha256:abc")), settings(), 0).step(failed());
    assert!(!p.is_finished());
    assert!(matches!(p.pending(), Action::Sleep { millis: 1000 }));
    assert!(matches!(
        p.stage,
        Stage::WaitingForDependency { deadline: 90000, sleeping: true }
    ));
    let p = p.step(Event::Slept { now: 1000 });
    assert!(matches!(p.pending(), Action::PollDependency));
    let later = p.clone().step(ready());
    assert!(matches!(later.pending(), Action::RunBuild { .. }));
    let p = p.step(failed()).step(Event::Slept { now: 90000 });
    assert!(matches!(p.pending(), Action::Finish));
    let o = p.outcome().unwrap();
    assert_eq!(o.kind, OutcomeKind::Failure);
    assert_eq!(o.message, "❌ Lane build failed: Docker did not become ready within 90 seconds");
}

#[test]
fn every_run_polls_before_it_builds() {
    let first = Pipeline::start(&notification(true, Some("sha256:abc")), settings(), 0)
        .step(ready())
        .step(exited(0));
    assert!(matches!(first.pending(), Action::RunExport { .. }));
    let second = Pipeline::start(&notification(true, Some("sha256:abc")), settings(), 5000);
    assert!(matches!(second.pending(), Action::PollDependency));
    let second = second.step(exited(0));
    assert!(matches!(second.pending(), Action::PollDependency));
    let second = second.step(ready());
    assert!(matches!(second.pending(), Action::RunBuild { .. }));
}

#[test]
fn failed_build_is_failure_with_exit_status() {
    let p = Pipeline::start(&notification(true, Some("sha256:abc")), settings(), 0)
        .step(ready())
        .step(exited(2));
    assert!(matches!(p.pending(), Action::Finish));
    let o = p.outcome().unwrap();
    assert_eq!(o.kind, OutcomeKind::Failure);
    assert_eq!(
        o.message,
        "❌ Lane build failed: Lane build failed with exit code exit status: 2"
    );
    assert!(o.message.contains("exit status: 2"));
    assert_eq!(o.container, "registry.example.com/app@sha256:abc");
    let r = respond(o, Timestamp { seconds: 0, nanos: 0 });
    assert_eq!(r.http_status, 500);
    assert_eq!(r.status, "Failed");
    let p = p.step(exited(0)).step(listed(vec![file("a")]));
    assert!(matches!(p.pending(), Action::Finish));
    assert_eq!(p.outcome().unwrap().kind, OutcomeKind::Failure);
}

#[test]
fn build_without_exit_code_is_failure() {
    let p = Pipeline::start(&notification(true, Some("sha256:abc")), settings(), 0)
        .step(ready())
        .step(Event::ProcessFinished { report: ProcessReport::Exited { code: None, signal: None } });
    let o = p.outcome().unwrap();
    assert_eq!(o.kind, OutcomeKind::Failure);
    assert_eq!(
        o.message,
        "❌ Lane build failed: Lane build failed with exit code no exit status"
    );
}

#[test]
fn build_ended_by_signal_names_the_signal() {
    let p = Pipeline::start(&notification(true, Some("sha256:abc")), settings(), 0)
        .step(ready())
        .step(Event::ProcessFinished {
            report: ProcessReport::Exited { code: None, signal: Some(9) },
        });
    let o = p.outcome().unwrap();
    assert_eq!(o.kind, OutcomeKind::Failure);
    assert_eq!(o.message, "❌ Lane build failed: Lane build failed with exit code signal: 9");
}

#[test]
fn build_that_cannot_start_is_failure() {
    let p = Pipeline::start(&notification(true, Some("sha256:abc")), settings(), 0)
        .step(ready())
        .step(Event::ProcessFinished {
            report: ProcessReport::LaunchFailed { detail: "lane: not found".to_string() },
        });
    let o = p.outcome().unwrap();
    assert_eq!(o.kind, OutcomeKind::Failure);
    assert_eq!(o.message, "❌ Lane build failed: lane: not found");
}

#[test]
fn failed_export_is_partial_success() {
    let p = Pipeline::start(&notification(true, Some("sha256:abc")), settings(), 0)
        .step(ready())
        .step(exited(0));
    match p.pending() {
        Action::RunExport { directory } => assert_eq!(directory, "lane-export-temp"),
        other => panic!("unexpected action {:?}", other),
    }
    let p = p.step(exited(1));
    assert!(matches!(p.pending(), Action::Finish));
    let o = p.outcome().unwrap();
    assert_eq!(o.kind, OutcomeKind::PartialSuccess);
    assert_eq!(
        o.message,
        "✅ Lane build succeeded but export failed: Lane export failed with exit code exit status: 1"
    );
    let r = respond(o, Timestamp { seconds: 0, nanos: 0 });
    assert_eq!(r.http_status, 200);
    assert_eq!(r.status, "Partial Success");
    let p = p.step(listed(vec![file("a")])).step(done(200));
    assert!(matches!(p.pending(), Action::Finish));
    assert_eq!(p.summary().uploaded, 0);
    assert_eq!(p.summary().failed, 0);
}

#[test]
fn two_of_three_files_uploaded_is_success() {
    let p = exported();
    match p.pending() {
        Action::ListDirectory { directory } => assert_eq!(directory, "lane-export-temp"),
        other => panic!("unexpected action {:?}", other),
    }
    let p = p.step(listed(vec![file("a.bin"), file("b.bin"), file("c.bin")]));
    match p.pending() {
        Action::UploadFile { filename, key } => {
            assert_eq!(filename, "a.bin");
            assert_eq!(key, "sha256:abc/a.bin");
        }
        other => panic!("unexpected action {:?}", other),
    }
    let p = p.step(done(200));
    match p.pending() {
        Action::UploadFile { filename, key } => {
            assert_eq!(filename, "b.bin");
            assert_eq!(key, "sha256:abc/b.bin");
        }
        other => panic!("unexpected action {:?}", other),
    }
    let p = p.step(done(500));
    assert!(!p.is_finished());
    let p = p.step(done(200));
    assert!(p.is_finished());
    let o = p.outcome().unwrap();
    assert_eq!(o.kind, OutcomeKind::Success);
    assert_eq!(
        o.message,
        "✅ Notification processed, Lane build and export completed successfully!"
    );
    assert_eq!(o.container, "registry.example.com/app@sha256:abc");
    let s = p.summary();
    assert_eq!(s.uploaded, 2);
    assert_eq!(s.failed, 1);
    assert_eq!(s.prefix, "sha256:abc");
    let r = respond(o, Timestamp { seconds: 0, nanos: 0 });
    assert_eq!(r.http_status, 200);
    assert_eq!(r.status, "Success");
}

#[test]
fn all_uploads_failing_is_still_success() {
    let p = exported()
        .step(listed(vec![file("a"), file("b")]))
        .step(Event::FileDone { transfer: FileReport::Unreadable })
        .step(Event::FileDone { transfer: FileReport::TransportFailed });
    assert_eq!(p.outcome().unwrap().kind, OutcomeKind::Success);
    assert_eq!(p.summary().uploaded, 0);
    assert_eq!(p.summary().failed, 2);
}

#[test]
fn empty_directory_is_success() {
    let p = exported().step(listed(Vec::new()));
    assert_eq!(p.outcome().unwrap().kind, OutcomeKind::Success);
    assert_eq!(p.summary().uploaded, 0);
    assert_eq!(p.summary().failed, 0);
}

#[test]
fn subdirectories_are_ignored() {
    let p = exported().step(listed(vec![
        DirEntry { name: Some("nested".to_string()), is_file: false },
        file("a.bin"),
        DirEntry { name: Some("other".to_string()), is_file: false },
    ]));
    match p.pending() {
        Action::UploadFile { filename, .. } => assert_eq!(filename, "a.bin"),
        other => panic!("unexpected action {:?}", other),
    }
    let p = p.step(done(200));
    assert_eq!(p.outcome().unwrap().kind, OutcomeKind::Success);
    assert_eq!(p.summary().uploaded, 1);
    assert_eq!(p.summary().failed, 0);
}

#[test]
fn file_without_valid_name_counts_as_failed() {
    let p = exported().step(listed(vec![
        DirEntry { name: None, is_file: true },
        file("a.bin"),
        DirEntry { name: None, is_file: true },
    ]));
    assert_eq!(p.summary().failed, 1);
    let p = p.step(done(201));
    assert_eq!(p.outcome().unwrap().kind, OutcomeKind::Success);
    assert_eq!(p.summary().uploaded, 1);
    assert_eq!(p.summary().failed, 2);
}

#[test]
fn missing_directory_is_partial_success() {
    let p = exported().step(Event::Listed { listing: Listing::Missing });
    let o = p.outcome().unwrap();
    assert_eq!(o.kind, OutcomeKind::PartialSuccess);
    assert_eq!(
        o.message,
        "✅ Lane build succeeded but export failed: Export directory 'lane-export-temp' does not exist"
    );
    assert_eq!(respond(o, Timestamp { seconds: 0, nanos: 0 }).http_status, 200);
}

#[test]
fn unavailable_storage_is_partial_success() {
    let p = exported()
        .step(Event::Listed { listing: Listing::Unavailable { detail: "no client".to_string() } });
    let o = p.outcome().unwrap();
    assert_eq!(o.kind, OutcomeKind::PartialSuccess);
    assert_eq!(o.message, "✅ Lane build succeeded but export failed: no client");
}

#[test]
fn missing_credentials_surface_at_upload_stage_only() {
    let s = Settings::standard("lane-export-temp".to_string(), Some(Credential::AccessKey));
    let p = Pipeline::start(&notification(true, Some("sha256:abc")), s, 0)
        .step(ready())
        .step(exited(0));
    assert!(matches!(p.pending(), Action::RunExport { .. }));
    let p = p.step(exited(0));
    let o = p.outcome().unwrap();
    assert_eq!(o.kind, OutcomeKind::PartialSuccess);
    assert_eq!(
        o.message,
        "✅ Lane build succeeded but export failed: AWS_ACCESS_KEY_ID or TIGRIS_ACCESS_KEY_ID environment variable not set"
    );
    let s = Settings::standard("lane-export-temp".to_string(), Some(Credential::SecretKey));
    let p = Pipeline::start(&notification(true, Some("sha256:abc")), s, 0)
        .step(ready())
        .step(exited(0))
        .step(exited(0));
    assert_eq!(
        p.outcome().unwrap().message,
        "✅ Lane build succeeded but export failed: AWS_SECRET_ACCESS_KEY or TIGRIS_SECRET_ACCESS_KEY environment variable not set"
    );
}

#[test]
fn events_out_of_turn_change_nothing() {
    let p = Pipeline::start(&notification(true, Some("sha256:abc")), settings(), 0);
    let p = p.step(exited(0)).step(Event::Slept { now: 100000 }).step(done(200));
    assert!(matches!(p.pending(), Action::PollDependency));
    let p = p.step(ready()).step(ready()).step(listed(Vec::new()));
    assert!(matches!(p.pending(), Action::RunBuild { .. }));
    let p = p.step(exited(0)).step(done(200));
    assert!(matches!(p.pending(), Action::RunExport { .. }));
    let p = p.step(exited(0)).step(exited(0));
    assert!(matches!(p.pending(), Action::ListDirectory { .. }));
    let p = p.step(listed(vec![file("a")])).step(exited(1));
    assert!(matches!(p.pending(), Action::UploadFile { .. }));
    assert_eq!(p.summary().uploaded, 0);
}

#[test]
fn redelivery_starts_an_independent_run() {
    let first = exported().step(listed(vec![file("a"), file("b")])).step(done(200)).step(done(404));
    assert_eq!(first.summary().uploaded, 1);
    assert_eq!(first.summary().failed, 1);
    let second = Pipeline::start(&notification(true, Some("sha256:abc")), settings(), 0);
    assert_eq!(second.summary().uploaded, 0);
    assert_eq!(second.summary().failed, 0);
    assert!(matches!(second.pending(), Action::PollDependency));
    let second = second
        .step(ready())
        .step(exited(0))
        .step(exited(0))
        .step(listed(vec![file("a"), file("b")]))
        .step(done(200))
        .step(done(404));
    assert_eq!(second.summary().uploaded, 1);
    assert_eq!(second.summary().failed, 1);
    assert_eq!(second.outcome().unwrap().message, first.outcome().unwrap().message);
    assert!(matches!(second.stage, Stage::Done { verdict: Verdict::Completed }));
}

#[test]
fn verdicts_classify_and_render() {
    assert_eq!(Verdict::PushFailed.kind(), OutcomeKind::Failure);
    assert_eq!(Verdict::NoDigest.kind(), OutcomeKind::Warning);
    assert_eq!(Verdict::Completed.kind(), OutcomeKind::Success);
    assert_eq!(Verdict::PushFailed.message(), "⚠️ Lane push failed");
    assert_eq!(Verdict::NoDigest.message(), "⚠️ No digest provided in notification");
    assert_eq!(
        Verdict::Completed.message(),
        "✅ Notification processed, Lane build and export completed successfully!"
    );
}

#[test]
fn summary_without_digest_has_empty_prefix() {
    let p = Pipeline::start(&notification(true, None), settings(), 0);
    assert_eq!(p.digest_str(), "");
    assert_eq!(p.summary().prefix, "");
    let p = Pipeline::start(&notification(true, Some("sha256:abc")), settings(), 0);
    assert_eq!(p.digest_str(), "sha256:abc");
}

#[test]
fn states_of_a_run_are_valid() {
    let p = Pipeline::start(&notification(false, None), settings(), 0);
    assert!(p.is_valid());
    let p = Pipeline::start(&notification(true, None), settings(), 0);
    assert!(p.is_valid());
    let p = Pipeline::start(&notification(true, Some("sha256:abc")), settings(), 0);
    assert!(p.is_valid());
    let p = p.step(ready());
    assert!(p.is_valid());
    let p = p.step(exited(0));
    assert!(p.is_valid());
    let p = p.step(exited(0));
    assert!(p.is_valid());
    let p = p.step(listed(vec![
        DirEntry { name: None, is_file: true },
        file("a"),
        DirEntry { name: Some("d".to_string()), is_file: false },
        file("b"),
    ]));
    assert!(p.is_valid());
    let p = p.step(done(200));
    assert!(p.is_valid());
    let p = p.step(done(500));
    assert!(p.is_valid());
    assert!(p.is_finished());
    assert_eq!(p.summary().uploaded, 1);
    assert_eq!(p.summary().failed, 2);
}

#[test]
fn hand_built_states_may_be_invalid() {
    let mut p = Pipeline::start(&notification(true, Some("sha256:abc")), settings(), 0);
    p.uploaded = 3;
    assert!(!p.is_valid());
    let mut p = exported().step(listed(vec![file("a"), file("b")]));
    assert!(p.is_valid());
    p.failed = 1;
    assert!(!p.is_valid());
    p.failed = 0;
    p.stage = Stage::Uploading { entries: vec![file("a")], current: 1 };
    assert!(!p.is_valid());
    p.stage = Stage::Uploading {
        entries: vec![DirEntry { name: Some("d".to_string()), is_file: false }],
        current: 0,
    };
    assert!(!p.is_valid());
    p.stage = Stage::Uploading { entries: vec![file("a"), file("b")], current: 1 };
    assert!(!p.is_valid());
    p.uploaded = 1;
    assert!(p.is_valid());
    p.uploaded = u64::MAX;
    p.failed = 2;
    assert!(!p.is_valid());
    let mut p = Pipeline::start(&notification(true, None), settings(), 0);
    p.stage = Stage::Building;
    assert!(!p.is_valid());
    p.stage = Stage::Done { verdict: Verdict::Completed };
    assert!(!p.is_valid());
    p.stage = Stage::Done { verdict: Verdict::PushFailed };
    assert!(p.is_valid());
}
