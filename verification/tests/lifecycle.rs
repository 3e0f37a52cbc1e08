use patch_orchestrator::orchestrator::Orchestrator;
use patch_orchestrator::task::{LookupError, TaskFailure, TaskOutcome, TaskStatus};

fn start_one(orch: &mut Orchestrator, manifest: &str, now: u64) -> u64 {
    orch.start_download(
        manifest.to_string(),
        "en_us".to_string(),
        String::new(),
        None,
        now,
    )
}

#[test]
fn progress_query_before_and_after_start() {
    let mut orch = Orchestrator::new();
    assert!(orch.get_download_progress(0).is_none());
    assert!(orch.get_download_progress(17).is_none());
    let id = start_one(&mut orch, "A.manifest", 1000);
    let rec = orch.get_download_progress(id).expect("record after start");
    assert_eq!(rec.id, id);
    assert_eq!(rec.manifest, "A.manifest");
    assert_eq!(rec.status, TaskStatus::Pending);
    assert_eq!(rec.progress, 0);
    assert_eq!(rec.started_at, 1000);
    assert!(rec.error.is_none());
    assert!(rec.ended_at.is_none());
    assert!(orch.get_download_progress(id + 1).is_none());
}

#[test]
fn progress_is_monotone_while_downloading() {
    let mut orch = Orchestrator::new();
    let id = start_one(&mut orch, "A.manifest", 0);
    assert_eq!(orch.begin_downloading(id), Ok(true));
    orch.report_progress(id, 40, "1.0 MB/s".to_string(), "60s".to_string())
        .unwrap();
    assert_eq!(orch.get_download_progress(id).unwrap().progress, 40);
    // A lower estimate never moves progress backwards.
    orch.report_progress(id, 10, "0.1 MB/s".to_string(), "90s".to_string())
        .unwrap();
    assert_eq!(orch.get_download_progress(id).unwrap().progress, 40);
    orch.report_progress(id, 65, "2.0 MB/s".to_string(), "30s".to_string())
        .unwrap();
    assert_eq!(orch.get_download_progress(id).unwrap().progress, 65);
    // Estimates past 100 are clamped.
    orch.report_progress(id, 250, "9.9 MB/s".to_string(), "1s".to_string())
        .unwrap();
    assert_eq!(orch.get_download_progress(id).unwrap().progress, 100);
}

#[test]
fn progress_frozen_outside_downloading() {
    let mut orch = Orchestrator::new();
    let id = start_one(&mut orch, "A.manifest", 0);
    // Pending: estimates are discarded.
    orch.report_progress(id, 30, "x".to_string(), "y".to_string())
        .unwrap();
    assert_eq!(orch.get_download_progress(id).unwrap().progress, 0);
    assert_eq!(orch.begin_downloading(id), Ok(true));
    orch.report_progress(id, 30, "x".to_string(), "y".to_string())
        .unwrap();
    orch.pause_download(id).unwrap();
    // Paused: frozen.
    orch.report_progress(id, 90, "x".to_string(), "y".to_string())
        .unwrap();
    let rec = orch.get_download_progress(id).unwrap();
    assert_eq!(rec.status, TaskStatus::Paused);
    assert_eq!(rec.progress, 30);
}

#[test]
fn cancel_is_idempotent() {
    let mut orch = Orchestrator::new();
    let id = start_one(&mut orch, "A.manifest", 5);
    assert_eq!(orch.cancel_download(id, 60), Ok(false));
    let first = orch.get_download_progress(id).unwrap();
    assert_eq!(first.status, TaskStatus::Failed);
    assert_eq!(first.error, Some(TaskFailure::Cancelled));
    assert_eq!(first.ended_at, Some(60));
    // The second cancel, at a later time, is a no-op beyond re-asserting.
    assert_eq!(orch.cancel_download(id, 999), Ok(false));
    let second = orch.get_download_progress(id).unwrap();
    assert_eq!(second.status, TaskStatus::Failed);
    assert_eq!(second.error, Some(TaskFailure::Cancelled));
    assert_eq!(second.ended_at, Some(60));
    assert_eq!(second.progress, first.progress);
}

#[test]
fn terminal_outcome_is_exclusive_and_ended_once() {
    let mut orch = Orchestrator::new();
    let id = start_one(&mut orch, "A.manifest", 0);
    assert_eq!(orch.begin_downloading(id), Ok(true));
    orch.finish_task(id, TaskOutcome::Completed, 300).unwrap();
    let done = orch.get_download_progress(id).unwrap();
    assert_eq!(done.status, TaskStatus::Completed);
    assert_eq!(done.progress, 100);
    assert!(done.error.is_none());
    assert_eq!(done.ended_at, Some(300));
    // A later (racing) failure report never overwrites the terminal record.
    orch.finish_task(
        id,
        TaskOutcome::Failed {
            failure: TaskFailure::ProcessExit { code: 1 },
        },
        400,
    )
    .unwrap();
    let still = orch.get_download_progress(id).unwrap();
    assert_eq!(still.status, TaskStatus::Completed);
    assert!(still.error.is_none());
    assert_eq!(still.ended_at, Some(300));
}

#[test]
fn timeout_reaches_error_with_timeout_cause() {
    let mut orch = Orchestrator::new();
    let id = start_one(&mut orch, "A.manifest", 0);
    assert_eq!(orch.begin_downloading(id), Ok(true));
    orch.note_spawned(id).unwrap();
    // The supervisor's bounded wait elapsed: it kills the process and
    // finalizes with the timeout cause; the handle entry is retired, so a
    // later cancel finds no live process.
    orch.finish_task(
        id,
        TaskOutcome::Failed {
            failure: TaskFailure::Timeout,
        },
        1800,
    )
    .unwrap();
    let rec = orch.get_download_progress(id).unwrap();
    assert_eq!(rec.status, TaskStatus::Failed);
    assert_eq!(rec.error, Some(TaskFailure::Timeout));
    assert_eq!(rec.error.unwrap().message(), "download timed out");
    assert_eq!(rec.ended_at, Some(1800));
    assert_eq!(orch.cancel_download(id, 2000), Ok(false));
}

#[test]
fn fifty_concurrent_tasks_stay_independent() {
    let mut orch = Orchestrator::new();
    let mut ids = Vec::new();
    for k in 0..50u64 {
        let id = orch.start_download(
            format!("ref_{}.manifest", k),
            "en_us".to_string(),
            String::new(),
            None,
            k,
        );
        ids.push(id);
    }
    // All ids are distinct.
    for a in 0..50 {
        for b in (a + 1)..50 {
            assert_ne!(ids[a], ids[b]);
        }
    }
    // Drive them to different terminal states in interleaved order.
    for (k, &id) in ids.iter().enumerate() {
        assert_eq!(orch.begin_downloading(id), Ok(true));
        orch.report_progress(id, k as u64, "s".to_string(), "e".to_string())
            .unwrap();
    }
    for (k, &id) in ids.iter().enumerate() {
        if k % 2 == 0 {
            orch.finish_task(id, TaskOutcome::Completed, 1000 + k as u64)
                .unwrap();
        } else {
            orch.finish_task(
                id,
                TaskOutcome::Failed {
                    failure: TaskFailure::ProcessExit { code: k as i64 },
                },
                1000 + k as u64,
            )
            .unwrap();
        }
    }
    // Every record carries its own run's fields, nothing from another's.
    for (k, &id) in ids.iter().enumerate() {
        let rec = orch.get_download_progress(id).unwrap();
        assert_eq!(rec.id, id);
        assert_eq!(rec.manifest, format!("ref_{}.manifest", k));
        assert_eq!(rec.started_at, k as u64);
        assert_eq!(rec.ended_at, Some(1000 + k as u64));
        if k % 2 == 0 {
            assert_eq!(rec.status, TaskStatus::Completed);
            assert_eq!(rec.progress, 100);
            assert!(rec.error.is_none());
        } else {
            assert_eq!(rec.status, TaskStatus::Failed);
            assert_eq!(rec.progress, k as u64);
            assert_eq!(rec.error, Some(TaskFailure::ProcessExit { code: k as i64 }));
        }
    }
    let all = orch.list_downloads();
    assert_eq!(all.len(), 50);
}

#[test]
fn unknown_ids_are_not_found() {
    let mut orch = Orchestrator::new();
    assert_eq!(orch.pause_download(3), Err(LookupError::NotFound));
    assert_eq!(orch.cancel_download(3, 0), Err(LookupError::NotFound));
    assert_eq!(orch.begin_downloading(3), Err(LookupError::NotFound));
    assert_eq!(orch.note_spawned(3), Err(LookupError::NotFound));
    assert_eq!(
        orch.report_progress(3, 1, String::new(), String::new()),
        Err(LookupError::NotFound)
    );
    assert_eq!(
        orch.finish_task(3, TaskOutcome::Completed, 0),
        Err(LookupError::NotFound)
    );
    assert!(orch.resume_download(3).is_err());
}

#[test]
fn cancel_reports_live_process_exactly_once() {
    let mut orch = Orchestrator::new();
    let id = start_one(&mut orch, "A.manifest", 0);
    assert_eq!(orch.begin_downloading(id), Ok(true));
    orch.note_spawned(id).unwrap();
    // The first cancel finds the live process and directs a kill; the entry
    // is retired with it, so the second cancel directs nothing.
    assert_eq!(orch.cancel_download(id, 50), Ok(true));
    assert_eq!(orch.cancel_download(id, 51), Ok(false));
}

#[test]
fn pause_freezes_and_resume_reuses_original_parameters() {
    let mut orch = Orchestrator::new();
    let id = orch.start_download(
        "B.manifest".to_string(),
        "fr_fr".to_string(),
        "assets".to_string(),
        Some("out/dir".to_string()),
        10,
    );
    assert_eq!(orch.begin_downloading(id), Ok(true));
    orch.note_spawned(id).unwrap();
    orch.report_progress(id, 33, "s".to_string(), "e".to_string())
        .unwrap();
    assert_eq!(orch.pause_download(id), Ok(true));
    let paused = orch.get_download_progress(id).unwrap();
    assert_eq!(paused.status, TaskStatus::Paused);
    assert_eq!(paused.progress, 33);
    assert!(paused.ended_at.is_none());
    // The supervisor sees its killed process exit; the paused record
    // absorbs that failure instead of turning into an error.
    orch.finish_task(
        id,
        TaskOutcome::Failed {
            failure: TaskFailure::ProcessExit { code: 9 },
        },
        99,
    )
    .unwrap();
    assert_eq!(
        orch.get_download_progress(id).unwrap().status,
        TaskStatus::Paused
    );
    // Resume hands back the original launch parameters.
    let info = orch.resume_download(id).unwrap();
    assert_eq!(info.manifest, "B.manifest");
    assert_eq!(info.language, "fr_fr");
    assert_eq!(info.content, "assets");
    assert_eq!(info.output_dir, Some("out/dir".to_string()));
    // The relaunched supervisor proceeds again.
    assert_eq!(orch.begin_downloading(id), Ok(true));
    assert_eq!(
        orch.get_download_progress(id).unwrap().status,
        TaskStatus::Downloading
    );
}

#[test]
fn completion_lands_even_when_paused() {
    let mut orch = Orchestrator::new();
    let id = start_one(&mut orch, "A.manifest", 0);
    assert_eq!(orch.begin_downloading(id), Ok(true));
    orch.pause_download(id).unwrap();
    // The process finished its work before the pause kill landed.
    orch.finish_task(id, TaskOutcome::Completed, 70).unwrap();
    let rec = orch.get_download_progress(id).unwrap();
    assert_eq!(rec.status, TaskStatus::Completed);
    assert_eq!(rec.progress, 100);
    assert_eq!(rec.ended_at, Some(70));
}

#[test]
fn cancel_before_supervisor_runs_stops_it() {
    let mut orch = Orchestrator::new();
    let id = start_one(&mut orch, "A.manifest", 0);
    assert_eq!(orch.cancel_download(id, 1), Ok(false));
    // The supervisor task only now gets scheduled: it must not proceed.
    assert_eq!(orch.begin_downloading(id), Ok(false));
    let rec = orch.get_download_progress(id).unwrap();
    assert_eq!(rec.status, TaskStatus::Failed);
    assert_eq!(rec.error, Some(TaskFailure::Cancelled));
    assert_eq!(rec.ended_at, Some(1));
}

#[test]
fn status_names_match_the_wire_names() {
    assert_eq!(TaskStatus::Pending.name(), "pending");
    assert_eq!(TaskStatus::Downloading.name(), "downloading");
    assert_eq!(TaskStatus::Paused.name(), "paused");
    assert_eq!(TaskStatus::Completed.name(), "completed");
    assert_eq!(TaskStatus::Failed.name(), "error");
}

#[test]
fn each_failure_kind_has_its_message() {
    assert_eq!(
        TaskFailure::ToolNotFound.message(),
        "download tool not found in any candidate path"
    );
    assert_eq!(
        TaskFailure::ManifestFetchFailed { http_status: 404 }.message(),
        "manifest fetch failed"
    );
    assert_eq!(
        TaskFailure::FilesystemError.message(),
        "could not create or write a file or directory"
    );
    assert_eq!(
        TaskFailure::SpawnFailed.message(),
        "could not start the download process"
    );
    assert_eq!(
        TaskFailure::ProcessExit { code: 3 }.message(),
        "download process exited with an error"
    );
    assert_eq!(
        TaskFailure::WaitFailed.message(),
        "waiting on the download process failed"
    );
    assert_eq!(TaskFailure::Timeout.message(), "download timed out");
    assert_eq!(TaskFailure::Cancelled.message(), "download cancelled");
    assert_eq!(LookupError::NotFound.message(), "no task with this id");
    assert_eq!(
        LookupError::KillFailed.message(),
        "could not signal the download process"
    );
}
