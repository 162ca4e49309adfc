use realm_downloader::job::{FetchStep, JobSpec, GAME_APP_ID};
use realm_downloader::log::LogLine;
use realm_downloader::sequencer::JobOutcome;
use realm_downloader::status::DownloadStatus;
use realm_downloader::supervisor::{JobSupervisor, StartError};

fn job_for(user: &str) -> JobSpec {
    JobSpec {
        name: "Vanilla".to_string(),
        source: "Vanilla".to_string(),
        year: "Y1S0".to_string(),
        app_id: GAME_APP_ID,
        steps: vec![FetchStep { depot: 377237, manifest: "8358812283631269928".to_string() }],
        crack_folder: "Y1SX-Y6S2".to_string(),
        username: user.to_string(),
        password: "secret".to_string(),
        max_downloads: 25,
        textures: false,
    }
}

#[test]
fn start_while_running_is_busy_and_changes_nothing() {
    let mut sup = JobSupervisor::new(1000);
    let id = sup.start(&job_for("alice")).unwrap();
    sup.record(id, LogLine::Tool { text: "working".to_string() });
    let before = sup.snapshot_output();
    assert_eq!(sup.start(&job_for("bob")), Err(StartError::Busy));
    assert_eq!(sup.poll(), DownloadStatus::InProgress);
    assert_eq!(sup.snapshot_output(), before);
    assert!(!sup.should_stop(id));
}

#[test]
fn start_with_empty_principal_is_rejected() {
    let mut sup = JobSupervisor::new(1000);
    assert_eq!(sup.start(&job_for("")), Err(StartError::ValidationError));
    assert_eq!(sup.start(&job_for("  \t")), Err(StartError::ValidationError));
    assert!(!sup.has_job());
    assert!(!sup.cancel_requested());
    assert_eq!(sup.poll(), DownloadStatus::NotStarted);
    assert!(sup.snapshot_output().is_empty());
}

#[test]
fn blank_principal_is_rejected_even_while_busy() {
    let mut sup = JobSupervisor::new(1000);
    let id = sup.start(&job_for("alice")).unwrap();
    assert_eq!(sup.start(&job_for(" ")), Err(StartError::ValidationError));
    assert_eq!(sup.start(&job_for("bob")), Err(StartError::Busy));
    assert!(!sup.should_stop(id));
}

#[test]
fn texture_jobs_log_their_season() {
    let mut sup = JobSupervisor::new(1000);
    let mut job = job_for("alice");
    job.name = "Grim Sky 4K Textures".to_string();
    job.source = "Grim Sky".to_string();
    job.textures = true;
    sup.start(&job).unwrap();
    let out = sup.snapshot_output();
    assert_eq!(out, vec![LogLine::StartingTextures { name: "Grim Sky".to_string() }]);
    assert_eq!(out[0].text(), "Starting 4K texture download for Grim Sky...");
}

#[test]
fn job_ids_increase() {
    let mut sup = JobSupervisor::new(1000);
    let mut ids = Vec::new();
    for _ in 0..3 {
        let id = sup.start(&job_for("alice")).unwrap();
        sup.finish(id, &JobOutcome::Completed);
        sup.acknowledge();
        ids.push(id);
    }
    assert_eq!(ids, vec![0, 1, 2]);
}

#[test]
fn start_logs_the_start_line() {
    let mut sup = JobSupervisor::new(1000);
    sup.start(&job_for("alice")).unwrap();
    assert_eq!(sup.poll(), DownloadStatus::InProgress);
    let out = sup.snapshot_output();
    assert_eq!(out, vec![LogLine::Starting { name: "Vanilla".to_string() }]);
    assert_eq!(out[0].text(), "Starting download of Vanilla...");
}

#[test]
fn finished_job_must_be_acknowledged() {
    let mut sup = JobSupervisor::new(1000);
    let id = sup.start(&job_for("alice")).unwrap();
    sup.finish(id, &JobOutcome::Completed);
    assert_eq!(sup.poll(), DownloadStatus::Completed);
    assert_eq!(sup.start(&job_for("alice")), Err(StartError::Busy));
    sup.finish(id, &JobOutcome::Cancelled);
    assert_eq!(sup.poll(), DownloadStatus::Completed);
    sup.acknowledge();
    assert_eq!(sup.poll(), DownloadStatus::NotStarted);
    let next = sup.start(&job_for("alice")).unwrap();
    assert_ne!(next, id);
}

#[test]
fn stale_job_reports_are_ignored() {
    let mut sup = JobSupervisor::new(1000);
    let old = sup.start(&job_for("alice")).unwrap();
    sup.finish(old, &JobOutcome::Completed);
    sup.acknowledge();
    let new = sup.start(&job_for("alice")).unwrap();
    sup.record(old, LogLine::Tool { text: "late".to_string() });
    sup.finish(old, &JobOutcome::Cancelled);
    assert!(sup.should_stop(old));
    assert!(!sup.should_stop(new));
    assert_eq!(sup.poll(), DownloadStatus::InProgress);
    assert_eq!(sup.snapshot_output().len(), 1);
}

#[test]
fn cancel_is_idempotent_and_leaves_status() {
    let mut sup = JobSupervisor::new(1000);
    sup.request_cancel();
    assert!(!sup.cancel_requested());
    let id = sup.start(&job_for("alice")).unwrap();
    sup.request_cancel();
    sup.request_cancel();
    assert!(sup.cancel_requested());
    assert!(sup.should_stop(id));
    assert_eq!(sup.poll(), DownloadStatus::InProgress);
}
