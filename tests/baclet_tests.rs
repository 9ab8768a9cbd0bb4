use baclet::archive::{ArchiveJob, ArchiveJobCompression, ArchiveJobRunError, ArchiveJobSpec};
use baclet::config::{Agent, AgentInitError, BacletConfig, BacletConfigSpec};
use baclet::destinations::{
    DestinationMap, DestinationSpec, DestinationType, DestinationTypeImpl, EnsureAction,
    EnsureEvent, LocalPath, LocalPathDestinationSpec, LocalPathEnsureError,
};
use baclet::job::{ArchiveWriteError, JobAction, JobEvent, JobTypeImpl};
use baclet::schema::{JobRunError, JobSpec, JobType, ObjectVersion};
use baclet::scheduler::{
    is_supported_expression, loop_step, on_job_result, FailurePolicy, LoopAction, ScheduleError,
    Scheduler, StopSignal, Verdict,
};

const MIDNIGHT: i64 = 1_704_067_200_000; // 2024-01-01T00:00:00Z
const MINUTE: i64 = 60_000;

fn local(name: &str, path: &str) -> DestinationSpec {
    DestinationSpec {
        name: name.to_string(),
        destination_spec: DestinationType::LocalPath(LocalPathDestinationSpec {
            path: path.to_string(),
        }),
    }
}

fn archive_job(name: &str, src: &str, destination: &str, schedule: &str) -> JobSpec {
    JobSpec {
        name: name.to_string(),
        destination: destination.to_string(),
        job_spec: JobType::ArchiveJob(ArchiveJobSpec {
            src: src.to_string(),
            compression: ArchiveJobCompression::GZip,
            dest: None,
        }),
        schedule: schedule.to_string(),
    }
}

fn etc_job(dests: &[DestinationSpec]) -> ArchiveJob {
    let map = DestinationMap::from_specs(&dests.to_vec());
    ArchiveJob::init(archive_job("etc-backup", "/etc", "local", "0 0/5 * * * *"), map)
}

fn error_of(a: JobAction<ArchiveJobRunError>) -> ArchiveJobRunError {
    match a {
        JobAction::Finish(Err(JobRunError { error })) => error,
        other => panic!("expected a failed run, got {:?}", other),
    }
}

#[test]
fn duplicate_destination_names_resolve_to_the_last() {
    let specs = vec![local("local", "/first"), local("other", "/other"), local("local", "/second")];
    let map = DestinationMap::from_specs(&specs);
    let found = map.get(&"local".to_string()).expect("registered");
    match &found.destination_spec {
        DestinationType::LocalPath(l) => assert_eq!(l.path, "/second"),
    }
    assert!(map.get(&"missing".to_string()).is_none());
}

#[test]
fn insert_shadows_an_earlier_destination() {
    let mut map = DestinationMap::new();
    map.insert(local("a", "/one"));
    map.insert(local("a", "/two"));
    let found = map.get(&"a".to_string()).unwrap();
    match &found.destination_spec {
        DestinationType::LocalPath(l) => assert_eq!(l.path, "/two"),
    }
}

#[test]
fn ensure_creates_an_absent_directory() {
    let dest = LocalPath::from_spec(LocalPathDestinationSpec { path: "/backups".to_string() });
    assert!(matches!(dest.ensure(EnsureEvent::Begin), EnsureAction::CheckExists(p) if p == "/backups"));
    assert!(matches!(dest.ensure(EnsureEvent::Probed(false)), EnsureAction::CreateDir(p) if p == "/backups"));
    assert!(matches!(dest.ensure(EnsureEvent::Created(Ok(()))), EnsureAction::Done(Ok(()))));
}

#[test]
fn ensure_checks_an_existing_path_is_a_directory() {
    let dest = LocalPath::from_spec(LocalPathDestinationSpec { path: "/backups".to_string() });
    assert!(matches!(dest.ensure(EnsureEvent::Probed(true)), EnsureAction::ReadMetadata(p) if p == "/backups"));
    assert!(matches!(dest.ensure(EnsureEvent::Inspected(Ok(true))), EnsureAction::Done(Ok(()))));
    assert!(matches!(
        dest.ensure(EnsureEvent::Inspected(Ok(false))),
        EnsureAction::Done(Err(LocalPathEnsureError::NotADir))
    ));
}

#[test]
fn ensure_reports_filesystem_failures() {
    let dest = LocalPath::from_spec(LocalPathDestinationSpec { path: "/backups".to_string() });
    assert!(matches!(
        dest.ensure(EnsureEvent::Created(Err("denied".to_string()))),
        EnsureAction::Done(Err(LocalPathEnsureError::GenericIOFail(m))) if m == "denied"
    ));
    assert!(matches!(
        dest.ensure(EnsureEvent::Inspected(Err("gone".to_string()))),
        EnsureAction::Done(Err(LocalPathEnsureError::GenericIOFail(m))) if m == "gone"
    ));
}

#[test]
fn send_accepts_only_an_existing_artifact() {
    let dest = LocalPath::from_spec(LocalPathDestinationSpec { path: "/backups".to_string() });
    assert!(matches!(dest.send(true), Ok(true)));
    assert!(matches!(dest.send(false), Err(LocalPathEnsureError::SourceDoesntExist)));
}

#[test]
fn compression_defaults_to_gzip() {
    assert_eq!(ArchiveJobCompression::default(), ArchiveJobCompression::GZip);
}

#[test]
fn etc_backup_scenario_prepares_destination_before_writing() {
    let job = etc_job(&[local("local", "/backups")]);
    assert!(matches!(job.run(JobEvent::Start), JobAction::InspectSource { src } if src == "/etc"));
    assert!(matches!(
        job.run(JobEvent::SourceInspected(Ok(true))),
        JobAction::EnsureDestination { path } if path == "/backups"
    ));
    assert!(matches!(job.run(JobEvent::DestinationReady(Ok(()))), JobAction::CreateTempFile));
    assert!(matches!(
        job.run(JobEvent::TempFileCreated(Ok("/tmp/a1".to_string()))),
        JobAction::WriteArchive { src, artifact } if src == "/etc" && artifact == "/tmp/a1"
    ));
    assert!(matches!(
        job.run(JobEvent::ArchiveWritten { artifact: "/tmp/a1".to_string(), result: Ok(()) }),
        JobAction::CheckArtifact { path } if path == "/tmp/a1"
    ));
    assert!(matches!(job.run(JobEvent::ArtifactChecked(true)), JobAction::Finish(Ok(true))));
}

#[test]
fn fixed_artifact_path_skips_the_temporary_file() {
    let mut spec = archive_job("etc-backup", "/etc", "local", "0 0/5 * * * *");
    spec.job_spec = JobType::ArchiveJob(ArchiveJobSpec {
        src: "/etc".to_string(),
        compression: ArchiveJobCompression::GZip,
        dest: Some("/backups/etc.tar.gz".to_string()),
    });
    let job = ArchiveJob::init(spec, DestinationMap::from_specs(&vec![local("local", "/backups")]));
    assert!(matches!(
        job.run(JobEvent::DestinationReady(Ok(()))),
        JobAction::WriteArchive { src, artifact } if src == "/etc" && artifact == "/backups/etc.tar.gz"
    ));
}

#[test]
fn non_directory_source_is_a_no_op() {
    let job = etc_job(&[local("local", "/backups")]);
    assert!(matches!(job.run(JobEvent::SourceInspected(Ok(false))), JobAction::Finish(Ok(false))));
}

#[test]
fn missing_destination_fails_the_run() {
    let job = etc_job(&[local("elsewhere", "/backups")]);
    assert!(matches!(error_of(job.run(JobEvent::Start)), ArchiveJobRunError::MissingDestinationError));
}

#[test]
fn xz_compression_is_refused() {
    let mut spec = archive_job("etc-backup", "/etc", "local", "0 0/5 * * * *");
    spec.job_spec = JobType::ArchiveJob(ArchiveJobSpec {
        src: "/etc".to_string(),
        compression: ArchiveJobCompression::Xz,
        dest: None,
    });
    let job = ArchiveJob::init(spec, DestinationMap::from_specs(&vec![local("local", "/backups")]));
    assert!(matches!(error_of(job.run(JobEvent::Start)), ArchiveJobRunError::UnsupportedCompression));
}

#[test]
fn each_stage_failure_has_its_own_error() {
    let job = etc_job(&[local("local", "/backups")]);
    assert!(matches!(
        error_of(job.run(JobEvent::SourceInspected(Err("m".to_string())))),
        ArchiveJobRunError::FileMetadataError(m) if m == "m"
    ));
    assert!(matches!(
        error_of(job.run(JobEvent::DestinationReady(Err(LocalPathEnsureError::NotADir)))),
        ArchiveJobRunError::DestinationError(LocalPathEnsureError::NotADir)
    ));
    assert!(matches!(
        error_of(job.run(JobEvent::TempFileCreated(Err("t".to_string())))),
        ArchiveJobRunError::TempFileCreateError(m) if m == "t"
    ));
    assert!(matches!(
        error_of(job.run(JobEvent::ArchiveWritten {
            artifact: "/tmp/a".to_string(),
            result: Err(ArchiveWriteError::Create("c".to_string())),
        })),
        ArchiveJobRunError::OpenTempFileError(m) if m == "c"
    ));
    assert!(matches!(
        error_of(job.run(JobEvent::ArchiveWritten {
            artifact: "/tmp/a".to_string(),
            result: Err(ArchiveWriteError::Append("a".to_string())),
        })),
        ArchiveJobRunError::AppendToTarError(m) if m == "a"
    ));
    assert!(matches!(
        error_of(job.run(JobEvent::ArtifactChecked(false))),
        ArchiveJobRunError::DestinationError(LocalPathEnsureError::SourceDoesntExist)
    ));
}

#[test]
fn malformed_schedule_is_refused() {
    let mut sched = Scheduler::new();
    assert!(matches!(sched.add("not a schedule".to_string()), Err(ScheduleError::InvalidSchedule)));
    assert_eq!(sched.jobs.len(), 0);
    assert_eq!(sched.add("0 0/5 * * * *".to_string()).unwrap(), 0);
}

#[test]
fn first_tick_starts_the_clock() {
    let mut sched = Scheduler::new();
    sched.add("0 * * * * *".to_string()).unwrap();
    assert!(sched.tick(MIDNIGHT + 2 * MINUTE).is_empty());
    assert_eq!(sched.jobs[0].last_tick, Some(MIDNIGHT + 2 * MINUTE));
}

#[test]
fn job_is_due_at_its_five_minute_boundary() {
    let mut sched = Scheduler::new();
    sched.add("0 0/5 * * * *".to_string()).unwrap();
    assert!(sched.tick(MIDNIGHT + MINUTE).is_empty());
    assert!(sched.tick(MIDNIGHT + 4 * MINUTE).is_empty());
    assert_eq!(sched.tick(MIDNIGHT + 5 * MINUTE), vec![0]);
    assert!(sched.tick(MIDNIGHT + 5 * MINUTE + 500).is_empty());
}

#[test]
fn two_cadences_fire_independently() {
    let mut sched = Scheduler::new();
    sched.add("0 * * * * *".to_string()).unwrap();
    sched.add("0 0/5 * * * *".to_string()).unwrap();
    assert!(sched.tick(MIDNIGHT + MINUTE / 2).is_empty());
    assert_eq!(sched.tick(MIDNIGHT + MINUTE), vec![0]);
    assert!(sched.tick(MIDNIGHT + MINUTE + MINUTE / 2).is_empty());
    assert_eq!(sched.tick(MIDNIGHT + 2 * MINUTE), vec![0]);
    // Every minute from 00:03 to 00:05 for the first cadence, 00:05 for the second.
    assert_eq!(sched.tick(MIDNIGHT + 5 * MINUTE), vec![0, 0, 0, 1]);
    assert!(sched.tick(MIDNIGHT + 5 * MINUTE + 1000).is_empty());
}

#[test]
fn a_failed_run_does_not_stop_the_others() {
    let failed: Result<bool, JobRunError<ArchiveJobRunError>> =
        Err(JobRunError { error: ArchiveJobRunError::AppendToTarError("disk".to_string()) });
    let other: Result<bool, JobRunError<ArchiveJobRunError>> =
        Err(JobRunError { error: ArchiveJobRunError::MissingDestinationError });
    assert_eq!(on_job_result(FailurePolicy::LogAndContinue, &failed), Verdict::Continue);
    assert_eq!(on_job_result(FailurePolicy::LogAndContinue, &other), Verdict::Continue);
    assert_eq!(on_job_result(FailurePolicy::ExitOnFailure, &failed), Verdict::Exit(1));
    assert_eq!(on_job_result(FailurePolicy::ExitOnFailure, &other), Verdict::Exit(1));
    let ok: Result<bool, JobRunError<ArchiveJobRunError>> = Ok(true);
    assert_eq!(on_job_result(FailurePolicy::ExitOnFailure, &ok), Verdict::Continue);
}

#[test]
fn control_loop_follows_the_stop_channel() {
    assert_eq!(loop_step(StopSignal::Empty), LoopAction::Tick);
    assert_eq!(loop_step(StopSignal::Received), LoopAction::Stop);
    assert_eq!(loop_step(StopSignal::Disconnected), LoopAction::Exit(1));
}

fn config(jobs: Vec<JobSpec>) -> BacletConfig {
    BacletConfig {
        version: ObjectVersion { api_version: "v1".to_string(), kind: "BacletConfig".to_string() },
        spec: BacletConfigSpec { destinations: vec![local("local", "/backups")], jobs },
    }
}

#[test]
fn agent_binds_every_job_and_cadence() {
    let cfg = config(vec![
        archive_job("etc-backup", "/etc", "local", "0 0/5 * * * *"),
        archive_job("home", "/home", "local", "0 0 * * * *"),
    ]);
    let agent = Agent::from_config(&cfg).unwrap_or_else(|_| panic!("valid config"));
    assert_eq!(agent.jobs.len(), 2);
    assert_eq!(agent.jobs[1].spec.name, "home");
    assert_eq!(agent.scheduler.jobs[0].schedule, "0 0/5 * * * *");
    assert!(agent.jobs[0].dests.get(&"local".to_string()).is_some());
}

#[test]
fn agent_refuses_the_first_malformed_schedule() {
    // The cron parser wants six or seven fields, seconds first, and a step
    // starts from a number (`0/5`), not from `*`.
    let cfg = config(vec![
        archive_job("ok", "/etc", "local", "0 0/5 * * * *"),
        archive_job("etc-backup", "/etc", "local", "*/5 * * * *"),
        archive_job("bad", "/etc", "local", "nonsense"),
    ]);
    assert!(matches!(Agent::from_config(&cfg), Err(AgentInitError::InvalidSchedule(1))));
}

#[test]
fn supported_expressions_are_recognised() {
    assert!(is_supported_expression("0 0/5 * * * *"));
    assert!(is_supported_expression("0 5,13,40-42 17 1 Jan *"));
    assert!(is_supported_expression("0 0/15 * * * *"));
    assert!(!is_supported_expression("0/0 * * * * *"));
    assert!(!is_supported_expression("0 0/00 * * * *"));
    assert!(!is_supported_expression("0 0/ 0 * * * *"));
    assert!(!is_supported_expression("* * * * * * 2025"));
    assert!(!is_supported_expression("0 * * * * **"));
}

#[test]
fn zero_step_is_refused_before_parsing() {
    let mut sched = Scheduler::new();
    assert!(matches!(sched.add("0/0 * * * * *".to_string()), Err(ScheduleError::UnsupportedSchedule)));
    assert_eq!(sched.jobs.len(), 0);
}

#[test]
fn year_field_is_refused() {
    let mut sched = Scheduler::new();
    assert!(matches!(
        sched.add("* * * * * * 2025".to_string()),
        Err(ScheduleError::UnsupportedSchedule)
    ));
    assert_eq!(sched.jobs.len(), 0);
}

#[test]
fn tick_from_a_leap_day_reaches_the_next_boundary() {
    let leap_day: i64 = 1_709_164_800_000; // 2024-02-29T00:00:00Z
    let first_of_march: i64 = 1_709_251_200_000; // 2024-03-01T00:00:00Z
    let mut sched = Scheduler::new();
    sched.add("0 0 0 1 3 *".to_string()).unwrap();
    assert!(sched.tick(leap_day).is_empty());
    assert!(sched.tick(first_of_march - 1000).is_empty());
    assert_eq!(sched.tick(first_of_march), vec![0]);
}

#[test]
fn agent_refuses_an_unsupported_schedule() {
    let cfg = config(vec![archive_job("zero", "/etc", "local", "0/0 * * * * *")]);
    assert!(matches!(Agent::from_config(&cfg), Err(AgentInitError::InvalidSchedule(0))));
}

#[test]
fn each_boundary_passed_gets_an_attempt() {
    let mut sched = Scheduler::new();
    sched.add("0 * * * * *".to_string()).unwrap();
    assert!(sched.tick(MIDNIGHT + MINUTE / 2).is_empty());
    assert_eq!(sched.tick(MIDNIGHT + 3 * MINUTE), vec![0, 0, 0]);
    assert!(sched.tick(MIDNIGHT + 3 * MINUTE + 500).is_empty());
}

#[test]
fn shorthand_schedules_are_taken() {
    assert!(is_supported_expression("@daily"));
    assert!(is_supported_expression("@hourly"));
    let mut sched = Scheduler::new();
    assert_eq!(sched.add("@daily".to_string()).unwrap(), 0);
    assert_eq!(sched.add("@yearly".to_string()).unwrap(), 1);
    assert!(matches!(sched.add("@sometimes".to_string()), Err(ScheduleError::InvalidSchedule)));
    assert!(sched.tick(MIDNIGHT - MINUTE).is_empty());
    assert_eq!(sched.tick(MIDNIGHT), vec![0, 1]);
    assert!(sched.tick(MIDNIGHT + 23 * 60 * MINUTE).is_empty());
    assert_eq!(sched.tick(MIDNIGHT + 24 * 60 * MINUTE), vec![0]);
}
