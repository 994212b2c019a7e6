use orm::err::{Error, ErrorKind};
use orm::update::attempt::{Action, Attempt, Event, Phase, Step};
use orm::update::manifest::{Device, Manifest, Pattern, Version};
use orm::update::release::SemVer;
use orm::update::status::{conclude, runs_installed, ExecutionStatus};

fn manifest(object_type: &str, devices: &[(&str, &str)]) -> Manifest {
    Manifest {
        object_type: object_type.to_string(),
        devices: devices
            .iter()
            .map(|(p, v)| Device { pattern: Pattern(p.to_string()), version: Version(v.to_string()) })
            .collect(),
    }
}

fn begin(current: &str) -> Attempt {
    let (attempt, action) = Attempt::start(
        "https://foo/bar/manifest.yaml".to_string(),
        "gateway".to_string(),
        "app".to_string(),
        SemVer::parse(current).unwrap(),
    );
    assert!(matches!(action, Action::RunIdScript));
    assert_eq!(attempt.phase, Phase::Identifying);
    attempt
}

fn next(step: Step) -> (Attempt, Action) {
    match step {
        Step::Next(attempt, action) => (attempt, action),
        Step::Finished(outcome) => panic!("finished early: {:?}", outcome),
    }
}

fn finished(step: Step) -> Result<ExecutionStatus, Error> {
    match step {
        Step::Finished(outcome) => outcome,
        Step::Next(attempt, action) => panic!("goes on: {:?} {:?}", attempt.phase, action),
    }
}

fn to_parsing(current: &str) -> Attempt {
    let (a, action) = next(begin(current).step(Event::Output(b"gw-42\n".to_vec())));
    assert!(matches!(action, Action::FetchManifest(ref url) if url == "https://foo/bar/manifest.yaml"));
    assert_eq!(a.thing_id, "gw-42");
    let (a, action) = next(a.step(Event::Response(200, b"object_type: gateway".to_vec())));
    assert!(matches!(action, Action::ParseManifest(ref text) if text == "object_type: gateway"));
    assert_eq!(a.phase, Phase::Parsing);
    a
}

fn to_stamping() -> Attempt {
    let a = to_parsing("1.0.0");
    let (a, action) = next(a.step(Event::Parsed(manifest("gateway", &[("^gw-", "1.2.3")]))));
    assert!(matches!(action, Action::ReadLedger));
    assert_eq!(a.version, "1.2.3");
    let (a, action) = next(a.step(Event::Lines(vec!["1.1.0".to_string()])));
    assert!(matches!(action, Action::Download(ref url) if url == "https://foo/bar/app-1.2.3.tar.gz"));
    let (a, action) = next(a.step(Event::Done));
    assert!(matches!(action, Action::Extract));
    let entries = vec!["app/run.sh".to_string(), "app/id.sh".to_string()];
    let (a, action) = next(a.step(Event::Entries(entries)));
    assert!(matches!(action, Action::ReadClock));
    assert_eq!(a.phase, Phase::Stamping);
    a
}

fn to_spawning() -> Attempt {
    let (a, action) = next(to_stamping().step(Event::Clock(1431648000)));
    assert!(matches!(action, Action::ArchiveLive(ref name) if name == "app-20150515000000"));
    let (a, action) = next(a.step(Event::Done));
    assert!(matches!(action, Action::InstallStaged));
    let (a, action) = next(a.step(Event::Done));
    assert!(matches!(action, Action::Spawn));
    assert_eq!(a.phase, Phase::Spawning);
    a
}

fn undo(a: Attempt, action: Action) -> Result<ExecutionStatus, Error> {
    assert!(matches!(action, Action::AppendLedger(ref v) if v == "1.2.3"));
    let (a, action) = next(a.step(Event::Done));
    assert!(matches!(action, Action::RemoveLive));
    let (a, action) = next(a.step(Event::Done));
    assert!(matches!(action, Action::Restore(ref name) if name == "app-20150515000000"));
    let (a, action) = next(a.step(Event::Done));
    assert!(matches!(action, Action::CleanStaging));
    finished(a.step(Event::Done))
}

fn to_marking() -> Attempt {
    let (a, action) = next(to_spawning().step(Event::Done));
    assert!(matches!(action, Action::Wait));
    let (a, action) = next(a.step(Event::Exited(Some(3))));
    assert!(matches!(action, Action::ListNames));
    let names = vec!["app".to_string(), "app-20140101000000.tar.gz".to_string(), "app-20150515000000".to_string(), ".orm_failed".to_string()];
    let (a, action) = next(a.step(Event::Names(names)));
    assert!(matches!(action, Action::Compress(ref dir, ref file) if dir == "app-20150515000000" && file == "app-20150515000000.tar.gz"));
    let (a, action) = next(a.step(Event::Done));
    assert!(matches!(action, Action::RemoveRetained(ref names) if names == &vec!["app-20140101000000.tar.gz".to_string()]));
    let (a, action) = next(a.step(Event::Done));
    assert!(matches!(action, Action::WriteMarker(ref version) if version == "1.2.3"));
    assert_eq!(a.phase, Phase::Marking);
    a
}

#[test]
fn successful_update_runs_through_every_action() {
    let (a, action) = next(to_marking().step(Event::Done));
    assert!(matches!(action, Action::RemoveArchived(ref name) if name == "app-20150515000000"));
    let (a, action) = next(a.step(Event::Done));
    assert!(matches!(action, Action::CleanStaging));
    let outcome = finished(a.step(Event::Done));
    assert!(matches!(outcome, Ok(ExecutionStatus::AppTerminated(Some(3)))));
    assert!(!runs_installed(&outcome));
}

#[test]
fn clock_is_formatted_in_utc() {
    let (_, action) = next(to_stamping().step(Event::Clock(0)));
    assert!(matches!(action, Action::ArchiveLive(ref name) if name == "app-19700101000000"));
    let (_, action) = next(to_stamping().step(Event::Clock(1706745599)));
    assert!(matches!(action, Action::ArchiveLive(ref name) if name == "app-20240131235959"));
}

#[test]
fn clock_out_of_range_ends_the_attempt_before_the_swap() {
    let (a, action) = next(to_stamping().step(Event::Clock(i64::MAX)));
    assert!(matches!(action, Action::CleanStaging));
    let e = finished(a.step(Event::Done)).unwrap_err();
    assert_eq!(e.kind(), ErrorKind::Io);
}

#[test]
fn failed_start_is_recorded_and_undone() {
    let (a, action) = next(to_spawning().step(Event::Failed("Permission denied".to_string())));
    let outcome = undo(a, action);
    match &outcome {
        Ok(ExecutionStatus::NoUpdate(reason)) => assert_eq!(
            reason,
            "Reverts due to failed execution of application from update archive: Permission denied"
        ),
        other => panic!("{:?}", other),
    }
    assert!(runs_installed(&outcome));
}

#[test]
fn failed_wait_is_recorded_and_undone() {
    let (a, action) = next(to_spawning().step(Event::Done));
    assert!(matches!(action, Action::Wait));
    let (a, action) = next(a.step(Event::Failed("wait failed".to_string())));
    let outcome = undo(a, action);
    match &outcome {
        Ok(ExecutionStatus::NoUpdate(reason)) => assert_eq!(
            reason,
            "Reverts due to failed execution of application from update archive: wait failed"
        ),
        other => panic!("{:?}", other),
    }
    assert!(runs_installed(&outcome));
}

#[test]
fn failed_marker_is_recorded_and_undone() {
    let (a, action) = next(to_marking().step(Event::Failed("disk full".to_string())));
    let outcome = undo(a, action);
    assert!(matches!(outcome, Ok(ExecutionStatus::NoUpdate(ref r)) if r.ends_with(": disk full")));
}

#[test]
fn the_directory_set_aside_is_removed_last() {
    let (a, action) = next(to_marking().step(Event::Done));
    assert!(matches!(action, Action::RemoveArchived(_)));
    assert_eq!(a.phase, Phase::Discarding);
    let (a, action) = next(a.step(Event::Failed("busy".to_string())));
    let outcome = undo(a, action);
    assert!(matches!(outcome, Ok(ExecutionStatus::NoUpdate(_))));
}

#[test]
fn failed_compression_is_recorded_and_undone() {
    let (a, _) = next(to_spawning().step(Event::Done));
    let (a, _) = next(a.step(Event::Exited(Some(0))));
    let (a, _) = next(a.step(Event::Names(Vec::new())));
    let (a, action) = next(a.step(Event::Failed("No space left on device".to_string())));
    let outcome = undo(a, action);
    assert!(matches!(outcome, Ok(ExecutionStatus::NoUpdate(ref r)) if r.ends_with(": No space left on device")));
}

#[test]
fn failed_restore_is_a_hard_failure() {
    let (a, action) = next(to_spawning().step(Event::Failed("exec format error".to_string())));
    assert!(matches!(action, Action::AppendLedger(ref v) if v == "1.2.3"));
    let (a, _) = next(a.step(Event::Done));
    let (a, action) = next(a.step(Event::Done));
    assert!(matches!(action, Action::Restore(_)));
    let (a, action) = next(a.step(Event::Failed("No such file or directory".to_string())));
    assert!(matches!(action, Action::CleanStaging));
    let outcome = conclude(finished(a.step(Event::Done)));
    let e = outcome.as_ref().unwrap_err();
    assert_eq!(e.kind(), ErrorKind::Revert);
    assert_eq!(e.to_string(), "I/O error: No such file or directory");
    assert!(!runs_installed(&outcome));
}

#[test]
fn ledger_that_cannot_be_written_is_told_in_the_reason() {
    let (a, action) = next(to_spawning().step(Event::Failed("exec format error".to_string())));
    assert!(matches!(action, Action::AppendLedger(_)));
    let (a, action) = next(a.step(Event::Failed("read-only file system".to_string())));
    assert!(matches!(action, Action::RemoveLive));
    let (a, _) = next(a.step(Event::Done));
    let (a, _) = next(a.step(Event::Done));
    match finished(a.step(Event::Done)) {
        Ok(ExecutionStatus::NoUpdate(reason)) => assert_eq!(
            reason,
            "Reverts due to failed execution of application from update archive: exec format error; failed version not recorded: read-only file system"
        ),
        other => panic!("{:?}", other),
    }
}

#[test]
fn failed_swap_renames_end_with_swap_error() {
    let (a, _) = next(to_stamping().step(Event::Clock(1431648000)));
    let (a, action) = next(a.step(Event::Failed("busy".to_string())));
    assert!(matches!(action, Action::CleanStaging));
    assert_eq!(finished(a.step(Event::Done)).unwrap_err().kind(), ErrorKind::Swap);

    let (a, _) = next(to_stamping().step(Event::Clock(1431648000)));
    let (a, _) = next(a.step(Event::Done));
    let (a, action) = next(a.step(Event::Failed("cross-device link".to_string())));
    assert!(matches!(action, Action::Restore(ref name) if name == "app-20150515000000"));
    let (a, action) = next(a.step(Event::Done));
    assert!(matches!(action, Action::CleanStaging));
    let outcome = finished(a.step(Event::Failed("cleaning failed too".to_string())));
    let e = outcome.as_ref().unwrap_err();
    assert_eq!(e.kind(), ErrorKind::Swap);
    assert_eq!(e.to_string(), "I/O error: cross-device link");
    assert!(matches!(conclude(outcome), Ok(ExecutionStatus::NoUpdate(ref r)) if r == "I/O error: cross-device link"));
}

#[test]
fn mismatching_object_type_ends_the_attempt_before_any_download() {
    let outcome = finished(to_parsing("1.0.0").step(Event::Parsed(manifest("sensor", &[(".*", "9.9.9")]))));
    let e = outcome.as_ref().unwrap_err();
    assert_eq!(e.kind(), ErrorKind::Mismatch);
    assert_eq!(e.to_string(), "Unexpected object_type: sensor != gateway");
    assert!(matches!(conclude(outcome), Ok(ExecutionStatus::NoUpdate(ref r)) if r == "Unexpected object_type: sensor != gateway"));
}

#[test]
fn first_of_two_matching_devices_is_taken() {
    let m = manifest("gateway", &[("^gw-4", "1.2.3"), ("^gw-42$", "7.0.0")]);
    let (a, action) = next(to_parsing("1.0.0").step(Event::Parsed(m)));
    assert!(matches!(action, Action::ReadLedger));
    assert_eq!(a.version, "1.2.3");
}

#[test]
fn no_matching_device_ends_the_attempt() {
    let m = manifest("gateway", &[("^sensor-", "1.2.3"), ("gw-(", "1.2.3")]);
    let e = finished(to_parsing("1.0.0").step(Event::Parsed(m))).unwrap_err();
    assert_eq!(e.kind(), ErrorKind::NoDeviceMatch);
    assert_eq!(e.to_string(), "No device matching gw-42");
}

#[test]
fn equal_or_lesser_version_is_no_update() {
    for (current, offered) in [("1.2.3", "1.2.3"), ("1.2.3", "1.2.2"), ("2.0.0", "1.9.9"), ("1.0.0", "1.0.0-rc.1")] {
        let m = manifest("gateway", &[(".*", offered)]);
        match finished(to_parsing(current).step(Event::Parsed(m))) {
            Ok(ExecutionStatus::NoUpdate(reason)) => {
                assert_eq!(reason, format!("Application version is already up-to-date: {}", offered))
            }
            other => panic!("{:?}", other),
        }
    }
}

#[test]
fn newer_version_proceeds_to_the_ledger() {
    for (current, offered) in [("1.2.3", "1.2.4"), ("1.2.3", "1.3.0"), ("1.2.3", "2.0.0"), ("1.0.0-rc.1", "1.0.0"), ("0.0.0", "0.0.1")] {
        let m = manifest("gateway", &[(".*", offered)]);
        let (a, action) = next(to_parsing(current).step(Event::Parsed(m)));
        assert!(matches!(action, Action::ReadLedger));
        assert_eq!(a.version, offered);
    }
}

#[test]
fn malformed_version_in_manifest_is_an_error() {
    let m = manifest("gateway", &[(".*", "latest")]);
    let e = finished(to_parsing("1.0.0").step(Event::Parsed(m))).unwrap_err();
    assert_eq!(e.kind(), ErrorKind::InvalidVersion);
}

#[test]
fn failed_version_is_not_attempted_again() {
    let m = manifest("gateway", &[(".*", "1.2.3")]);
    let (a, _) = next(to_parsing("1.0.0").step(Event::Parsed(m)));
    let ledger = vec!["1.1.0".to_string(), "1.2.3".to_string(), "1.5.0".to_string()];
    match finished(a.step(Event::Lines(ledger))) {
        Ok(ExecutionStatus::NoUpdate(reason)) => assert_eq!(reason, "Application version is a failed one: 1.2.3"),
        other => panic!("{:?}", other),
    }
}

#[test]
fn unreadable_ledger_ends_the_attempt() {
    let m = manifest("gateway", &[(".*", "1.2.3")]);
    let (a, _) = next(to_parsing("1.0.0").step(Event::Parsed(m)));
    let e = finished(a.step(Event::Failed("No such file or directory".to_string()))).unwrap_err();
    assert_eq!(e.kind(), ErrorKind::Io);
    assert_eq!(e.to_string(), "I/O error: No such file or directory");
}

#[test]
fn incomplete_archive_is_rejected_before_the_swap() {
    let m = manifest("gateway", &[(".*", "1.2.3")]);
    let (a, _) = next(to_parsing("1.0.0").step(Event::Parsed(m)));
    let (a, _) = next(a.step(Event::Lines(Vec::new())));
    let (a, _) = next(a.step(Event::Done));
    let (a, action) = next(a.step(Event::Entries(vec!["app/run.sh".to_string(), "app/readme".to_string()])));
    assert!(matches!(action, Action::CleanStaging));
    let e = finished(a.step(Event::Done)).unwrap_err();
    assert_eq!(e.kind(), ErrorKind::InvalidArchive);
    assert_eq!(e.to_string(), "Invalid archive; Missing script(s): app/run.sh");
}

#[test]
fn early_failures_end_the_attempt_with_their_kind() {
    let e = finished(begin("1.0.0").step(Event::Failed("not found".to_string()))).unwrap_err();
    assert_eq!(e.kind(), ErrorKind::Identity);
    let e = finished(begin("1.0.0").step(Event::Output(b"42".to_vec()))).unwrap_err();
    assert_eq!(e.kind(), ErrorKind::Identity);

    let (a, _) = next(begin("1.0.0").step(Event::Output(b"gw-42".to_vec())));
    let e = finished(a.step(Event::Response(404, Vec::new()))).unwrap_err();
    assert_eq!(e.kind(), ErrorKind::Fetch);
    let (a, _) = next(begin("1.0.0").step(Event::Output(b"gw-42".to_vec())));
    let e = finished(a.step(Event::Failed("connection refused".to_string()))).unwrap_err();
    assert_eq!((e.kind(), e.to_string()), (ErrorKind::Fetch, "Fails to fetch manifest: connection refused".to_string()));
    let (a, _) = next(begin("1.0.0").step(Event::Output(b"gw-42".to_vec())));
    let e = finished(a.step(Event::Response(200, vec![0xff]))).unwrap_err();
    assert_eq!(e.kind(), ErrorKind::Parse);

    let e = finished(to_parsing("1.0.0").step(Event::Failed("mapping values are not allowed".to_string()))).unwrap_err();
    assert_eq!((e.kind(), e.to_string()), (ErrorKind::Parse, "YAML error: mapping values are not allowed".to_string()));
}

#[test]
fn unexpected_event_counts_as_failure() {
    let e = finished(begin("1.0.0").step(Event::Done)).unwrap_err();
    assert_eq!(e.kind(), ErrorKind::Identity);
    assert_eq!(e.to_string(), "Fails to execute command: unexpected event");
}

#[test]
fn conclude_keeps_only_revert_errors() {
    for kind in [ErrorKind::General, ErrorKind::Identity, ErrorKind::Fetch, ErrorKind::Parse, ErrorKind::Mismatch, ErrorKind::NoDeviceMatch, ErrorKind::InvalidVersion, ErrorKind::InvalidManifestUrl, ErrorKind::InvalidArchive, ErrorKind::Swap, ErrorKind::Io] {
        let outcome = Err(Error::with_kind(kind, "cause".to_string()));
        assert!(runs_installed(&outcome));
        assert!(matches!(conclude(outcome), Ok(ExecutionStatus::NoUpdate(ref r)) if r == "cause"));
    }
    let hard = conclude(Err(Error::with_kind(ErrorKind::Revert, "cause".to_string())));
    assert_eq!(hard.unwrap_err().kind(), ErrorKind::Revert);
    assert!(matches!(conclude(Ok(ExecutionStatus::AppTerminated(None))), Ok(ExecutionStatus::AppTerminated(None))));
    assert!(matches!(conclude(Ok(ExecutionStatus::NoUpdate("x".to_string()))), Ok(ExecutionStatus::NoUpdate(ref r)) if r == "x"));
}

#[test]
fn every_step_takes_the_attempt_to_a_later_phase() {
    let order = [
        Phase::Identifying, Phase::Fetching, Phase::Parsing, Phase::ReadingLedger, Phase::Downloading,
        Phase::Extracting, Phase::Stamping, Phase::Archiving, Phase::Installing, Phase::Spawning,
        Phase::Waiting, Phase::Listing, Phase::Compressing, Phase::Pruning, Phase::Marking,
        Phase::Discarding, Phase::Recording, Phase::Clearing, Phase::Restoring, Phase::Cleaning,
    ];
    let rank = |p: Phase| order.iter().position(|q| *q == p).unwrap();
    let mut a = to_spawning();
    let mut steps = 0;
    loop {
        let before = rank(a.phase);
        match a.step(Event::Failed("always failing".to_string())) {
            Step::Next(b, _) => {
                assert!(rank(b.phase) > before);
                a = b;
                steps += 1;
            }
            Step::Finished(outcome) => {
                assert_eq!(outcome.unwrap_err().kind(), ErrorKind::Revert);
                break;
            }
        }
    }
    assert_eq!(steps, 3);
}

#[test]
fn settings_stay_as_given_through_an_attempt() {
    let a = to_spawning();
    assert_eq!(a.manifest_url, "https://foo/bar/manifest.yaml");
    assert_eq!(a.object_type, "gateway");
    assert_eq!(a.app_name, "app");
    assert!(a.current.same(&SemVer::parse("1.0.0").unwrap()));
    assert_eq!(a.archived, "app-20150515000000");
}

#[test]
fn absent_ledger_counts_as_empty() {
    let m = manifest("gateway", &[(".*", "1.2.3")]);
    let (a, action) = next(to_parsing("1.0.0").step(Event::Parsed(m)));
    assert!(matches!(action, Action::ReadLedger));
    let (a, action) = next(a.step(Event::Lines(Vec::new())));
    assert!(matches!(action, Action::Download(ref url) if url == "https://foo/bar/app-1.2.3.tar.gz"));
    assert_eq!(a.phase, Phase::Downloading);
}
