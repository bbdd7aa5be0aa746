use clustering_engine::controller::{JobController, JobState};
use clustering_engine::demux::{demux_output, LineAction, StdoutDemux};
use clustering_engine::job::{ClusterInfo, JobError, JobResult};
use clustering_engine::outcome::{
    decode_outcome, join_lines, preflight, reading_failure, settle, within_deadline, DEFAULT_DEADLINE_SECS,
};
use clustering_engine::platform::{get_python_command, system_info};
use clustering_engine::probe::{dependency_status, missing_dependencies, trim_text};
use clustering_engine::protocol::is_terminal_line;

fn strings(v: &[&str]) -> Vec<String> {
    v.iter().map(|s| s.to_string()).collect()
}

fn sample_result() -> JobResult {
    JobResult {
        success: true,
        message: "done".to_string(),
        clusters_found: 2,
        total_atoms: 500,
        clusters_info: vec![],
    }
}

// Decodes a result line with serde_json's value tree, as the application does.
fn decode_line(line: &str) -> Result<JobResult, String> {
    let v: serde_json::Value = serde_json::from_str(line).map_err(|e| e.to_string())?;
    let int = |k: &str| v.get(k).and_then(|x| x.as_i64()).ok_or(format!("bad {}", k));
    let mut info = Vec::new();
    for c in v.get("clusters_info").and_then(|x| x.as_array()).ok_or("bad clusters_info")? {
        info.push(ClusterInfo {
            name: c.get("name").and_then(|x| x.as_str()).ok_or("bad name")?.to_string(),
            atoms: c.get("atoms").and_then(|x| x.as_i64()).ok_or("bad atoms")? as i32,
            level: c.get("level").and_then(|x| x.as_i64()).ok_or("bad level")? as i32,
            reason: c.get("reason").and_then(|x| x.as_str()).ok_or("bad reason")?.to_string(),
        });
    }
    Ok(JobResult {
        success: v.get("success").and_then(|x| x.as_bool()).ok_or("bad success")?,
        message: v.get("message").and_then(|x| x.as_str()).ok_or("bad message")?.to_string(),
        clusters_found: int("clusters_found")? as i32,
        total_atoms: int("total_atoms")? as i32,
        clusters_info: info,
    })
}

#[test]
fn terminal_line_classification() {
    assert!(is_terminal_line("{\"success\":true}"));
    assert!(is_terminal_line("   \t{"));
    assert!(!is_terminal_line("Loading dump..."));
    assert!(!is_terminal_line(""));
    assert!(!is_terminal_line("   "));
    assert!(!is_terminal_line("a {"));
}

#[test]
fn three_progress_lines_then_result() {
    let line = "{\"success\":true,\"message\":\"done\",\"clusters_found\":2,\"total_atoms\":500,\"clusters_info\":[]}";
    let lines = strings(&["step 1", "step 2", "step 3", line]);
    let (progress, out) = demux_output(&lines, None);
    assert_eq!(progress, strings(&["step 1", "step 2", "step 3"]));
    let raw = out.unwrap();
    assert_eq!(raw, line);
    let raw = settle(Ok(raw), Some(0), &vec![]).unwrap();
    let decoded = decode_line(&raw);
    assert_eq!(decode_outcome(raw, decoded), Ok(sample_result()));
}

#[test]
fn progress_lines_in_order_without_result_lines() {
    let lines = strings(&["a", " {\"x\":1}", "b", "c", "{\"y\":2}"]);
    let (progress, out) = demux_output(&lines, None);
    assert_eq!(progress, strings(&["a", "b", "c"]));
    assert_eq!(out, Ok("{\"y\":2}".to_string()));
}

#[test]
fn step_by_step_demux() {
    let mut d = StdoutDemux::new();
    assert_eq!(d.on_line("first".to_string(), false), LineAction::Forward("first".to_string()));
    assert_eq!(d.on_line("{}".to_string(), false), LineAction::Captured);
    assert_eq!(d.finish(false), Ok("{}".to_string()));
}

#[test]
fn missing_result_line() {
    let (progress, out) = demux_output(&strings(&["only progress"]), None);
    assert_eq!(progress, strings(&["only progress"]));
    assert_eq!(out, Err(JobError::MissingResultPayload));
    let (progress, out) = demux_output(&vec![], None);
    assert!(progress.is_empty());
    assert_eq!(out, Err(JobError::MissingResultPayload));
}

#[test]
fn cancel_before_end_of_stream() {
    let lines = strings(&["a", "b", "{\"success\":true}", "c"]);
    let (progress, out) = demux_output(&lines, Some(1));
    assert_eq!(progress, strings(&["a"]));
    assert_eq!(out, Err(JobError::Cancelled));
    let (progress, out) = demux_output(&lines, Some(0));
    assert!(progress.is_empty());
    assert_eq!(out, Err(JobError::Cancelled));
    assert_eq!(settle(out, Some(0), &vec![]), Err(JobError::Cancelled));
}

#[test]
fn cancel_after_last_line_before_end_of_stream() {
    let lines = strings(&["a", "{}"]);
    let (progress, out) = demux_output(&lines, Some(2));
    assert_eq!(progress, strings(&["a"]));
    assert_eq!(out, Err(JobError::Cancelled));
    let mut d = StdoutDemux::new();
    assert_eq!(d.on_line("{}".to_string(), false), LineAction::Captured);
    assert_eq!(d.finish(true), Err(JobError::Cancelled));
}

#[test]
fn cancel_after_end_of_stream_is_not_seen() {
    let lines = strings(&["a", "{}"]);
    let (progress, out) = demux_output(&lines, Some(3));
    assert_eq!(progress, strings(&["a"]));
    assert_eq!(out, Ok("{}".to_string()));
}

#[test]
fn reading_failures_come_before_the_exit() {
    assert!(reading_failure(&Err(JobError::Cancelled)));
    assert!(reading_failure(&Err(JobError::StreamError { cause: "x".to_string() })));
    assert!(!reading_failure(&Err(JobError::MissingResultPayload)));
    assert!(!reading_failure(&Ok("{}".to_string())));
}

#[test]
fn unicode_white_space_before_result_line() {
    assert!(is_terminal_line("\u{3000}\u{a0}{\"success\":false}"));
    assert!(!is_terminal_line("\u{200b}{"));
    assert_eq!(trim_text("\u{2028} x \u{85}"), "x");
}

#[test]
fn stopped_demux_ignores_later_output() {
    let mut d = StdoutDemux::new();
    assert_eq!(d.on_line("x".to_string(), true), LineAction::Stop);
    assert_eq!(d.on_line("{}".to_string(), false), LineAction::Stop);
    assert_eq!(d.finish(false), Err(JobError::Cancelled));
}

#[test]
fn read_failure_and_cancellation() {
    let d = StdoutDemux::new();
    assert_eq!(
        d.on_read_error("invalid UTF-8".to_string(), false),
        JobError::StreamError { cause: "invalid UTF-8".to_string() }
    );
    let d = StdoutDemux::new();
    assert_eq!(d.on_read_error("invalid UTF-8".to_string(), true), JobError::Cancelled);
}

#[test]
fn nonzero_exit_reports_stderr() {
    let out = settle(Err(JobError::MissingResultPayload), Some(1), &strings(&["boom"]));
    assert_eq!(out, Err(JobError::ProcessExitedNonZero { code: 1, stderr: "boom".to_string() }));
}

#[test]
fn nonzero_exit_beats_result_line_and_signal_gives_minus_one() {
    let out = settle(Ok("{}".to_string()), None, &strings(&["x", "y"]));
    assert_eq!(out, Err(JobError::ProcessExitedNonZero { code: -1, stderr: "x\ny".to_string() }));
}

#[test]
fn stream_error_comes_first() {
    let e = JobError::StreamError { cause: "broken pipe".to_string() };
    assert_eq!(settle(Err(e.clone()), Some(3), &vec![]), Err(e));
}

#[test]
fn clean_exit_without_result_line() {
    assert_eq!(settle(Err(JobError::MissingResultPayload), Some(0), &vec![]), Err(JobError::MissingResultPayload));
}

#[test]
fn parse_error_keeps_raw_line() {
    let raw = "{not json".to_string();
    let decoded = decode_line(&raw);
    let cause = decoded.clone().unwrap_err();
    assert_eq!(
        decode_outcome(raw.clone(), decoded),
        Err(JobError::ParseError { raw_line: raw, cause })
    );
}

#[test]
fn join_of_stderr_lines() {
    assert_eq!(join_lines(&vec![]), "");
    assert_eq!(join_lines(&strings(&["one"])), "one");
    assert_eq!(join_lines(&strings(&["one", "", "three"])), "one\n\nthree");
}

#[test]
fn deadline_elapsed_gives_timed_out() {
    assert_eq!(within_deadline(None), Err(JobError::TimedOut));
    assert_eq!(within_deadline(Some(Ok(sample_result()))), Ok(sample_result()));
    assert_eq!(within_deadline(Some(Err(JobError::Cancelled))), Err(JobError::Cancelled));
    assert_eq!(DEFAULT_DEADLINE_SECS, 1800);
}

#[test]
fn slow_worker_is_cut_at_the_deadline() {
    let rt = tokio::runtime::Builder::new_current_thread().enable_time().build().unwrap();
    let started = std::time::Instant::now();
    let raced = rt.block_on(async {
        let worker = async {
            tokio::time::sleep(std::time::Duration::from_millis(2000)).await;
            Ok(sample_result())
        };
        tokio::time::timeout(std::time::Duration::from_millis(500), worker).await.ok()
    });
    let out = within_deadline(raced);
    let elapsed = started.elapsed();
    assert_eq!(out, Err(JobError::TimedOut));
    assert!(elapsed < std::time::Duration::from_millis(1500));
}

#[test]
fn missing_input_is_refused_before_spawning() {
    let path = "/no/such/dump".to_string();
    assert_eq!(preflight(&path, false), Err(JobError::InputNotFound { path: path.clone() }));
    assert_eq!(preflight(&path, true), Ok(()));
}

#[test]
fn single_flight() {
    let mut c = JobController::new();
    assert!(!c.status());
    assert_eq!(c.try_start(), Ok(()));
    assert!(c.status());
    for _ in 0..3 {
        assert_eq!(c.try_start(), Err(JobError::AlreadyRunning));
        assert!(c.status());
    }
    assert_eq!(c.state(), JobState::Running { cancel_requested: false });
}

#[test]
fn every_outcome_releases_the_controller() {
    let outcomes = vec![
        (Ok(sample_result()), JobState::Completed),
        (Err(JobError::Cancelled), JobState::Cancelled),
        (Err(JobError::TimedOut), JobState::TimedOut),
        (Err(JobError::MissingResultPayload), JobState::Failed),
    ];
    for (outcome, end) in outcomes {
        let mut c = JobController::new();
        c.try_start().unwrap();
        assert_eq!(c.conclude(outcome.clone()), outcome);
        assert!(!c.status());
        assert_eq!(c.state(), end);
        assert_eq!(c.try_start(), Ok(()));
    }
}

#[test]
fn cancel_only_while_running() {
    let mut c = JobController::new();
    c.cancel();
    assert!(!c.cancel_requested());
    assert_eq!(c.state(), JobState::Idle);
    c.try_start().unwrap();
    c.cancel();
    c.cancel();
    assert!(c.cancel_requested());
    c.conclude(Err(JobError::Cancelled));
    assert!(!c.cancel_requested());
    c.try_start().unwrap();
    assert!(!c.cancel_requested());
}

#[test]
fn probe_lists_missing_packages() {
    assert_eq!(missing_dependencies("MISSING:numpy, ovito,scipy\n"), strings(&["numpy", "ovito", "scipy"]));
    assert_eq!(missing_dependencies("MISSING:MISSING:numpy"), strings(&["numpy"]));
    assert_eq!(missing_dependencies("MISSING:"), strings(&[""]));
    assert_eq!(missing_dependencies("Traceback"), strings(&["Error desconocido al verificar dependencias"]));
}

#[test]
fn probe_status() {
    let ok = dependency_status("Python 3.11.2\n", true, "OK\n");
    assert_eq!(ok.python_version, "Python 3.11.2");
    assert!(ok.dependencies_ok);
    assert!(ok.missing_dependencies.is_empty());
    let bad = dependency_status(" Python 3.8.0 ", false, "MISSING:scikit-learn\n");
    assert!(!bad.dependencies_ok);
    assert_eq!(bad.missing_dependencies, strings(&["scikit-learn"]));
}

#[test]
fn trimming() {
    assert_eq!(trim_text("  a b \n"), "a b");
    assert_eq!(trim_text(" \t "), "");
    assert_eq!(trim_text("x"), "x");
}

#[test]
fn python_command_and_system_info() {
    assert_eq!(get_python_command(true), "python");
    assert_eq!(get_python_command(false), "python3");
    assert_eq!(
        system_info("linux", "x86_64", false),
        "Sistema Operativo: linux\nArquitectura: x86_64\nComando Python: python3"
    );
}
