use realm_downloader::job::{FetchStep, JobSpec, GAME_APP_ID};
use realm_downloader::log::LogLine;
use realm_downloader::sequencer::{Action, CopyResult, Event, JobOutcome, Sequencer, Stage, StepResult};
use realm_downloader::status::DownloadStatus;
use realm_downloader::supervisor::JobSupervisor;

fn job(steps: Vec<(u64, &str)>, crack_folder: &str) -> JobSpec {
    JobSpec {
        name: "Black Ice".to_string(),
        source: "Black Ice".to_string(),
        year: "Y1S1".to_string(),
        app_id: GAME_APP_ID,
        steps: steps
            .into_iter()
            .map(|(depot, manifest)| FetchStep { depot, manifest: manifest.to_string() })
            .collect(),
        crack_folder: crack_folder.to_string(),
        username: "player".to_string(),
        password: String::new(),
        max_downloads: 25,
        textures: false,
    }
}

fn exited(code: i64) -> Event {
    Event::StepEnded { result: StepResult::Exited { code } }
}

/// Drives a job through a supervisor as the runner does, with the given exit codes.
fn drive(sup: &mut JobSupervisor, spec: JobSpec, codes: &[i64], copies: &[CopyResult]) -> Vec<usize> {
    let id = sup.start(&spec).unwrap();
    let mut seq = Sequencer::new(spec);
    let mut ran = Vec::new();
    let (lines, mut action) = seq.advance(Event::Started, sup.should_stop(id));
    sup.record_all(id, lines);
    let mut copy_index = 0;
    loop {
        let ev = match action {
            Action::RunStep { index } => {
                ran.push(index);
                sup.record(id, LogLine::Tool { text: format!("progress of step {}", index) });
                exited(codes[index])
            }
            Action::CopyCrack => {
                copy_index += 1;
                Event::CrackCopyEnded { copied: copies[copy_index - 1].clone() }
            }
            Action::CopyLocalization => {
                copy_index += 1;
                Event::LocalizationCopyEnded { copied: copies[copy_index - 1].clone() }
            }
            Action::Finish { outcome } => {
                sup.finish(id, &outcome);
                break;
            }
        };
        let (lines, next) = seq.advance(ev, sup.should_stop(id));
        sup.record_all(id, lines);
        action = next;
    }
    ran
}

fn texts(sup: &JobSupervisor) -> Vec<String> {
    sup.snapshot_output().iter().map(|l| l.text()).collect()
}

#[test]
fn all_steps_succeed_completes_in_order() {
    let mut sup = JobSupervisor::new(1000);
    let spec = job(vec![(1, "m1"), (2, "m2"), (3, "m3")], "");
    let ran = drive(&mut sup, spec, &[0, 0, 0], &[]);
    assert_eq!(ran, vec![0, 1, 2]);
    assert_eq!(sup.poll(), DownloadStatus::Completed);
    let markers: Vec<LogLine> = sup
        .snapshot_output()
        .into_iter()
        .filter(|l| matches!(l, LogLine::Downloading { .. }))
        .collect();
    assert_eq!(
        markers,
        vec![
            LogLine::Downloading { depot: 1, manifest: "m1".to_string() },
            LogLine::Downloading { depot: 2, manifest: "m2".to_string() },
            LogLine::Downloading { depot: 3, manifest: "m3".to_string() },
        ]
    );
    let out = sup.snapshot_output();
    let n = out.len();
    assert_eq!(out[n - 2], LogLine::Finished { name: "Black Ice".to_string() });
    assert_eq!(out[n - 1], LogLine::Hint { textures: false });
    assert_eq!(texts(&sup)[n - 2], "Download completed successfully for Black Ice");
}

#[test]
fn failing_step_stops_later_steps() {
    let mut sup = JobSupervisor::new(1000);
    let spec = job(vec![(1, "m1"), (2, "m2"), (3, "m3"), (4, "m4")], "Y1SX-Y6S2");
    let ran = drive(&mut sup, spec, &[0, 7, 0, 0], &[]);
    assert_eq!(ran, vec![0, 1]);
    assert!(matches!(sup.poll(), DownloadStatus::Failed(_)));
    let markers = sup
        .snapshot_output()
        .into_iter()
        .filter(|l| matches!(l, LogLine::Downloading { .. }))
        .count();
    assert_eq!(markers, 2);
}

#[test]
fn cancel_before_start_runs_nothing() {
    let mut sup = JobSupervisor::new(1000);
    let spec = job(vec![(1, "m1"), (2, "m2")], "");
    let id = sup.start(&spec).unwrap();
    sup.request_cancel();
    let mut seq = Sequencer::new(spec);
    let (lines, action) = seq.advance(Event::Started, sup.should_stop(id));
    assert_eq!(lines, vec![LogLine::Cancelled]);
    assert_eq!(action, Action::Finish { outcome: JobOutcome::Cancelled });
    assert_eq!(seq.stage(), Stage::Done);
    sup.record_all(id, lines);
    assert_eq!(sup.poll(), DownloadStatus::InProgress);
    sup.finish(id, &JobOutcome::Cancelled);
    assert_eq!(sup.poll(), DownloadStatus::Failed("cancelled".to_string()));
    assert_eq!(texts(&sup), vec!["Starting download of Black Ice...", "Download cancelled by user"]);
}

#[test]
fn cancel_mid_step_lets_the_step_finish() {
    let spec = job(vec![(1, "m1"), (2, "m2")], "");
    let mut seq = Sequencer::new(spec);
    let (_, action) = seq.advance(Event::Started, false);
    assert_eq!(action, Action::RunStep { index: 0 });
    let (lines, action) = seq.advance(exited(0), true);
    assert_eq!(lines, vec![LogLine::DepotDone { depot: 1 }, LogLine::Cancelled]);
    assert_eq!(action, Action::Finish { outcome: JobOutcome::Cancelled });
}

#[test]
fn second_depot_failure_scenario() {
    let depot_a = 377237;
    let depot_b = 377238;
    let mut sup = JobSupervisor::new(1000);
    let spec = job(vec![(depot_a, "8382986432868135995"), (depot_b, "3364322644809414267")], "");
    drive(&mut sup, spec, &[0, 1], &[]);
    match sup.poll() {
        DownloadStatus::Failed(reason) => {
            assert!(reason.contains(&depot_b.to_string()));
            assert_eq!(reason, "Download failed for depot 377238 (exit code: 1)");
        }
        other => panic!("unexpected status {:?}", other),
    }
    let out = texts(&sup);
    let done = out.iter().filter(|l| l.starts_with("Successfully downloaded depot")).count();
    let failed = out.iter().filter(|l| l.starts_with("Download failed for depot")).count();
    assert_eq!(done, 1);
    assert_eq!(failed, 1);
    assert!(out.contains(&"Successfully downloaded depot 377237".to_string()));
}

#[test]
fn missing_post_folder_still_completes() {
    let mut sup = JobSupervisor::new(1000);
    let spec = job(vec![(377237, "m1")], "NoSuchFolder");
    drive(&mut sup, spec, &[0], &[CopyResult::Missing, CopyResult::Copied]);
    assert_eq!(sup.poll(), DownloadStatus::Completed);
    let out = sup.snapshot_output();
    assert!(out.contains(&LogLine::CrackSkipped));
    assert!(texts(&sup).contains(&"Crack files not found, skipped".to_string()));
    assert!(out.contains(&LogLine::LocalizationCopied));
}

#[test]
fn failed_copy_is_reported_not_fatal() {
    let mut sup = JobSupervisor::new(1000);
    let spec = job(vec![(377237, "m1")], "Y6S3");
    let failure = CopyResult::Failed { detail: "denied".to_string() };
    drive(&mut sup, spec, &[0], &[failure, CopyResult::Missing]);
    assert_eq!(sup.poll(), DownloadStatus::Completed);
    assert!(texts(&sup).contains(&"Failed to copy crack files: denied".to_string()));
    assert!(sup.snapshot_output().contains(&LogLine::LocalizationSkipped));
}

#[test]
fn spawn_and_wait_errors_fail_the_job() {
    let spec = job(vec![(1, "m1"), (2, "m2")], "");
    let mut seq = Sequencer::new(spec.clone());
    seq.advance(Event::Started, false);
    let (lines, action) = seq.advance(
        Event::StepEnded { result: StepResult::SpawnFailed { detail: "not found".to_string() } },
        false,
    );
    assert_eq!(lines[0].text(), "Failed to start download process: not found");
    assert!(matches!(action, Action::Finish { outcome: JobOutcome::Failed { .. } }));

    let mut seq = Sequencer::new(spec);
    seq.advance(Event::Started, false);
    let (_, action) = seq.advance(
        Event::StepEnded { result: StepResult::WaitFailed { detail: "lost".to_string() } },
        false,
    );
    let mut sup = JobSupervisor::new(10);
    let id = sup.start(&job(vec![(1, "m1")], "")).unwrap();
    if let Action::Finish { outcome } = action {
        sup.finish(id, &outcome);
    }
    assert_eq!(sup.poll(), DownloadStatus::Failed("Failed to wait for download process: lost".to_string()));
}

#[test]
fn folder_failure_fails_before_any_step() {
    let mut seq = Sequencer::new(job(vec![(1, "m1")], ""));
    let (lines, action) = seq.advance(Event::FolderFailed { detail: "read-only".to_string() }, false);
    assert_eq!(lines[0].text(), "Failed to create download directory: read-only");
    assert!(matches!(action, Action::Finish { outcome: JobOutcome::Failed { .. } }));
}

#[test]
fn negative_exit_code_is_reported() {
    let mut seq = Sequencer::new(job(vec![(42, "m")], ""));
    seq.advance(Event::Started, false);
    let (lines, _) = seq.advance(exited(-1), false);
    assert_eq!(lines[0].text(), "Download failed for depot 42 (exit code: -1)");
}

#[test]
fn events_out_of_order_are_not_taken() {
    let mut seq = Sequencer::new(job(vec![(1, "m1")], ""));
    assert!(seq.takes(&Event::Started));
    assert!(!seq.takes(&exited(0)));
    seq.advance(Event::Started, false);
    assert!(seq.takes(&exited(0)));
    assert!(!seq.takes(&Event::Started));
    seq.advance(exited(0), false);
    assert_eq!(seq.stage(), Stage::Done);
    assert!(!seq.takes(&Event::CrackCopyEnded { copied: CopyResult::Copied }));
}

#[test]
fn missing_tool_fails_with_its_path() {
    let mut seq = Sequencer::new(job(vec![(1, "m1")], ""));
    seq.advance(Event::Started, false);
    let (lines, action) = seq.advance(
        Event::StepEnded { result: StepResult::ToolMissing { path: "Resources/DepotDownloader.dll".to_string() } },
        false,
    );
    assert_eq!(lines[0].text(), "DepotDownloader.dll not found at: Resources/DepotDownloader.dll");
    let mut sup = JobSupervisor::new(10);
    let id = sup.start(&job(vec![(1, "m1")], "")).unwrap();
    if let Action::Finish { outcome } = action {
        sup.finish(id, &outcome);
    }
    assert_eq!(
        sup.poll(),
        DownloadStatus::Failed("DepotDownloader.dll not found at: Resources/DepotDownloader.dll".to_string())
    );
}
