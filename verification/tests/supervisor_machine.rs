use patch_orchestrator::catalog::get_test_manifests;
use patch_orchestrator::naming::{decimal_string, manifest_file_name};
use patch_orchestrator::orchestrator::Orchestrator;
use patch_orchestrator::supervisor::{
    build_tool_args, content_filter_is_blank, next_progress_estimate, resolve_tool, step,
    FetchOutcome, SupAction, SupEvent, SupState, RUN_TIMEOUT_SECS,
};
use patch_orchestrator::task::{TaskFailure, TaskOutcome, TaskStatus};

fn finished(failure: TaskFailure) -> SupState {
    SupState::Finished {
        outcome: TaskOutcome::Failed { failure },
    }
}

#[test]
fn happy_path_runs_resolve_fetch_persist_spawn_await() {
    let (s, a) = step(SupState::Resolving, SupEvent::ToolResolved { found: true });
    assert_eq!(s, SupState::Fetching);
    assert_eq!(a, SupAction::FetchManifest);
    let (s, a) = step(
        s,
        SupEvent::FetchCompleted {
            outcome: FetchOutcome::Response { http_status: 200 },
        },
    );
    assert_eq!(s, SupState::Persisting);
    assert_eq!(a, SupAction::SaveManifest);
    let (s, a) = step(s, SupEvent::ManifestSaved { ok: true });
    assert_eq!(s, SupState::Spawning);
    assert_eq!(a, SupAction::SpawnProcess);
    let (s, a) = step(s, SupEvent::SpawnCompleted { ok: true });
    assert_eq!(s, SupState::Running);
    assert_eq!(a, SupAction::AwaitExit);
    let (s, a) = step(s, SupEvent::ProcessExited { code: 0 });
    assert_eq!(
        s,
        SupState::Finished {
            outcome: TaskOutcome::Completed
        }
    );
    assert_eq!(a, SupAction::Finalize);
    // Terminal state absorbs any late event.
    let (s2, a2) = step(s, SupEvent::TimedOut);
    assert_eq!(s2, s);
    assert_eq!(a2, SupAction::Ignore);
}

#[test]
fn timeout_kills_then_finalizes() {
    assert!(RUN_TIMEOUT_SECS == 1800);
    let (s, a) = step(SupState::Running, SupEvent::TimedOut);
    assert_eq!(s, finished(TaskFailure::Timeout));
    assert_eq!(a, SupAction::KillAndFinalize);
}

#[test]
fn nonzero_exit_and_wait_error_fail_the_run() {
    let (s, a) = step(SupState::Running, SupEvent::ProcessExited { code: 7 });
    assert_eq!(s, finished(TaskFailure::ProcessExit { code: 7 }));
    assert_eq!(a, SupAction::Finalize);
    let (s, a) = step(SupState::Running, SupEvent::WaitFailed);
    assert_eq!(s, finished(TaskFailure::WaitFailed));
    assert_eq!(a, SupAction::Finalize);
}

#[test]
fn save_and_spawn_failures_fail_the_run() {
    let (s, _) = step(SupState::Persisting, SupEvent::ManifestSaved { ok: false });
    assert_eq!(s, finished(TaskFailure::FilesystemError));
    let (s, _) = step(SupState::Spawning, SupEvent::SpawnCompleted { ok: false });
    assert_eq!(s, finished(TaskFailure::SpawnFailed));
}

#[test]
fn tool_missing_fails_without_any_spawn() {
    // No candidate path exists.
    let candidates = vec!["a/rman-dl".to_string(), "b/rman-dl".to_string()];
    let exists = vec![false, false];
    assert_eq!(resolve_tool(&candidates, &exists), None);
    // The run ends at once; nothing is fetched, nothing is spawned.
    let (s, a) = step(SupState::Resolving, SupEvent::ToolResolved { found: false });
    assert_eq!(s, finished(TaskFailure::ToolNotFound));
    assert_eq!(a, SupAction::Finalize);
    let (s2, a2) = step(s, SupEvent::SpawnCompleted { ok: true });
    assert_eq!(s2, s);
    assert_eq!(a2, SupAction::Ignore);
    // And the task record ends in error with the tool-not-found cause,
    // with no live process ever registered.
    let mut orch = Orchestrator::new();
    let id = orch.start_download(
        "A.manifest".to_string(),
        String::new(),
        String::new(),
        None,
        0,
    );
    assert_eq!(orch.begin_downloading(id), Ok(true));
    orch.finish_task(
        id,
        TaskOutcome::Failed {
            failure: TaskFailure::ToolNotFound,
        },
        4,
    )
    .unwrap();
    let rec = orch.get_download_progress(id).unwrap();
    assert_eq!(rec.status, TaskStatus::Failed);
    assert_eq!(rec.error, Some(TaskFailure::ToolNotFound));
    assert_eq!(orch.cancel_download(id, 5), Ok(false));
}

#[test]
fn http_404_fails_before_saving_or_spawning() {
    let (s, a) = step(SupState::Resolving, SupEvent::ToolResolved { found: true });
    assert_eq!(a, SupAction::FetchManifest);
    let (s, a) = step(
        s,
        SupEvent::FetchCompleted {
            outcome: FetchOutcome::Response { http_status: 404 },
        },
    );
    assert_eq!(s, finished(TaskFailure::ManifestFetchFailed { http_status: 404 }));
    // Finalize, not SaveManifest: the manifest file is never written.
    assert_eq!(a, SupAction::Finalize);
    let mut orch = Orchestrator::new();
    let id = orch.start_download(
        "missing.manifest".to_string(),
        String::new(),
        String::new(),
        None,
        0,
    );
    assert_eq!(orch.begin_downloading(id), Ok(true));
    orch.finish_task(
        id,
        TaskOutcome::Failed {
            failure: TaskFailure::ManifestFetchFailed { http_status: 404 },
        },
        9,
    )
    .unwrap();
    let rec = orch.get_download_progress(id).unwrap();
    assert_eq!(rec.status, TaskStatus::Failed);
    assert_eq!(
        rec.error,
        Some(TaskFailure::ManifestFetchFailed { http_status: 404 })
    );
    assert_eq!(rec.error.unwrap().message(), "manifest fetch failed");
}

#[test]
fn transport_error_records_status_zero() {
    let (s, _) = step(
        SupState::Fetching,
        SupEvent::FetchCompleted {
            outcome: FetchOutcome::TransportError,
        },
    );
    assert_eq!(s, finished(TaskFailure::ManifestFetchFailed { http_status: 0 }));
}

#[test]
fn http_2xx_bounds_are_exact() {
    let ok = |status: u16| {
        step(
            SupState::Fetching,
            SupEvent::FetchCompleted {
                outcome: FetchOutcome::Response {
                    http_status: status,
                },
            },
        )
        .0 == SupState::Persisting
    };
    assert!(!ok(199));
    assert!(ok(200));
    assert!(ok(204));
    assert!(ok(299));
    assert!(!ok(300));
    assert!(!ok(500));
}

#[test]
fn first_existing_candidate_wins() {
    let candidates = vec![
        "configured/rman-dl".to_string(),
        "install/rman-dl".to_string(),
        "cwd/rman-dl".to_string(),
    ];
    assert_eq!(resolve_tool(&candidates, &vec![false, true, true]), Some(1));
    assert_eq!(resolve_tool(&candidates, &vec![true, false, true]), Some(0));
    assert_eq!(resolve_tool(&candidates, &vec![false, false, true]), Some(2));
    assert_eq!(resolve_tool(&candidates, &vec![false, false, false]), None);
    assert_eq!(resolve_tool(&Vec::new(), &Vec::new()), None);
}

#[test]
fn tool_arguments_follow_the_fixed_template() {
    let args = build_tool_args("en_us|fr_fr", "assets", "downloads/manifest_3.manifest", "out");
    assert_eq!(
        args,
        vec![
            "--no-progress",
            "--no-verify",
            "-l",
            "en_us|fr_fr",
            "--cdn",
            "http://lol.secure.dyn.riotcdn.net/channels/public",
            "--cdn-workers",
            "4",
            "-p",
            "assets",
            "downloads/manifest_3.manifest",
            "out",
        ]
    );
}

#[test]
fn empty_filters_drop_the_content_flag_and_default_the_language() {
    let args = build_tool_args("", "", "m.manifest", "files");
    assert_eq!(
        args,
        vec![
            "--no-progress",
            "--no-verify",
            "-l",
            "none",
            "--cdn",
            "http://lol.secure.dyn.riotcdn.net/channels/public",
            "--cdn-workers",
            "4",
            "m.manifest",
            "files",
        ]
    );
}

#[test]
fn whitespace_only_filter_also_drops_the_content_flag() {
    // A filter of nothing but whitespace filters nothing: no -p flag, just
    // as with the empty filter.
    let blank = build_tool_args("en_us", "  \t ", "m.manifest", "files");
    assert!(!blank.contains(&"-p".to_string()));
    assert_eq!(
        blank,
        vec![
            "--no-progress",
            "--no-verify",
            "-l",
            "en_us",
            "--cdn",
            "http://lol.secure.dyn.riotcdn.net/channels/public",
            "--cdn-workers",
            "4",
            "m.manifest",
            "files",
        ]
    );
    // A filter with any non-whitespace character is passed through as is.
    let kept = build_tool_args("en_us", " assets ", "m.manifest", "files");
    assert_eq!(kept[8], "-p");
    assert_eq!(kept[9], " assets ");
}

#[test]
fn blank_detection_matches_trimming() {
    for case in ["", " ", "  \t\r\n ", "\u{00A0}\u{3000}\u{2003}"] {
        assert_eq!(content_filter_is_blank(case), case.trim().is_empty());
        assert!(content_filter_is_blank(case));
    }
    for case in ["a", " a ", "assets", "\u{00A0}x", "-"] {
        assert_eq!(content_filter_is_blank(case), case.trim().is_empty());
        assert!(!content_filter_is_blank(case));
    }
}

#[test]
fn progress_estimates_are_phase_scaled_and_capped() {
    // Early phase: step is 2 + noise % 4.
    assert_eq!(next_progress_estimate(0, 5), 3);
    assert_eq!(next_progress_estimate(9, 0), 11);
    // Middle phase: step is 3 + noise % 6.
    assert_eq!(next_progress_estimate(50, 4), 57);
    assert_eq!(next_progress_estimate(10, 0), 13);
    // Late phase: step is 1 + noise % 2.
    assert_eq!(next_progress_estimate(90, 3), 92);
    // The estimate never passes 95 ...
    assert_eq!(next_progress_estimate(94, 5), 95);
    assert_eq!(next_progress_estimate(95, 7), 95);
    // ... and never moves a finished task.
    assert_eq!(next_progress_estimate(100, 1), 100);
    // Never backwards.
    for p in 0..=100u64 {
        for noise in 0..8u64 {
            assert!(next_progress_estimate(p, noise) >= p);
        }
    }
}

#[test]
fn decimal_rendering_is_exact() {
    assert_eq!(decimal_string(0), "0");
    assert_eq!(decimal_string(7), "7");
    assert_eq!(decimal_string(10), "10");
    assert_eq!(decimal_string(1234567890), "1234567890");
    assert_eq!(decimal_string(u64::MAX), "18446744073709551615");
}

#[test]
fn manifest_file_names_are_deterministic_and_distinct() {
    assert_eq!(manifest_file_name(42), "manifest_42.manifest");
    assert_eq!(manifest_file_name(0), "manifest_0.manifest");
    let mut names: Vec<String> = (0..100).map(manifest_file_name).collect();
    names.sort();
    names.dedup();
    assert_eq!(names.len(), 100);
}

#[test]
fn test_catalog_contents_are_exact() {
    let cat = get_test_manifests();
    assert_eq!(cat.len(), 5);
    assert_eq!(cat[0].version, "14.17.1");
    assert_eq!(cat[0].date, "2024-08-28");
    assert_eq!(cat[0].size, "2.1 GB");
    assert_eq!(cat[0].content, "assets");
    assert_eq!(cat[0].manifest, "93A211A9D0F05050.manifest");
    assert_eq!(cat[0].languages, vec!["en_us", "fr_fr"]);
    assert_eq!(cat[0].region, "NA");
    assert_eq!(cat[1].version, "14.17.0");
    assert_eq!(cat[1].region, "EUW");
    assert_eq!(cat[1].languages, vec!["en_us", "fr_fr", "ja_jp"]);
    assert_eq!(cat[2].content, "sounds");
    assert_eq!(cat[2].manifest, "7A1E008B0D03030.manifest");
    assert_eq!(cat[3].manifest, "690FDD7A0C02020.manifest");
    assert_eq!(cat[4].version, "14.15.1");
    assert_eq!(cat[4].languages, vec!["en_us"]);
}

#[test]
fn fetch_manifests_replaces_the_catalog_and_returns_it() {
    let mut orch = Orchestrator::new();
    let snapshot = orch.fetch_manifests(get_test_manifests());
    assert_eq!(snapshot.len(), 5);
    assert_eq!(snapshot[0].version, "14.17.1");
    // Task state is untouched by a catalog refresh.
    assert!(orch.get_download_progress(0).is_none());
}
