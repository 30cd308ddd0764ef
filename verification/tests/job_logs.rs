use birchvault::job_logs::{
    calculate_duration, get_latest_job_details, list_worker_logs, parse_worker_log,
    DirectoryEntry, StepStatus,
};

fn entry(name: &str, size: Option<u64>) -> DirectoryEntry {
    DirectoryEntry { filename: name.to_string(), path: format!("/r/_diag/{}", name), size_bytes: size }
}

#[test]
fn worker_logs_are_listed_newest_first() {
    let entries = vec![
        entry("Worker_20251201-000000-utc.log", Some(10)),
        entry("Runner_20251205-005006-utc.log", Some(11)),
        entry("Worker_20251205-005006-utc.log", Some(12)),
        entry("Worker_20251203-120000-utc.log", None),
        entry("Worker_20251204-120000-utc.txt", Some(13)),
        entry("Worker_odd.log", Some(14)),
        entry("Worker_20251202-000000-utc.log", Some(15)),
        entry("worker_20251209-000000-utc.log", Some(16)),
    ];
    let logs = list_worker_logs(&entries);
    let got: Vec<(&str, &str, u64)> = logs.iter().map(|l| (l.filename.as_str(), l.timestamp.as_str(), l.size_bytes)).collect();
    assert_eq!(
        got,
        vec![
            ("Worker_20251205-005006-utc.log", "20251205-005006", 12),
            ("Worker_20251202-000000-utc.log", "20251202-000000", 15),
            ("Worker_20251201-000000-utc.log", "20251201-000000", 10),
            ("Worker_odd.log", "", 14),
        ]
    );
    assert_eq!(logs[0].path, "/r/_diag/Worker_20251205-005006-utc.log");
    assert!(list_worker_logs(&vec![]).is_empty());
}

#[test]
fn logs_with_the_same_time_keep_their_order() {
    let entries = vec![entry("Worker_a.log", Some(1)), entry("Worker_b.log", Some(2)), entry("Worker_-utc.log", Some(3))];
    let names: Vec<String> = list_worker_logs(&entries).into_iter().map(|l| l.filename).collect();
    assert_eq!(names, vec!["Worker_a.log", "Worker_b.log", "Worker_-utc.log"]);
}

#[test]
fn latest_job_is_the_newest_worker_log() {
    let latest = get_latest_job_details(&vec![
        entry("Worker_20251201-000000-utc.log", Some(10)),
        entry("notes.txt", Some(1)),
        entry("Worker_20251205-005006-utc.log", Some(12)),
        entry("Worker_20251209-000000-utc.log", None),
    ])
    .unwrap();
    assert_eq!(latest.filename, "Worker_20251205-005006-utc.log");
    assert_eq!(latest.timestamp, "20251205-005006");
    assert_eq!(latest.size_bytes, 12);
    assert_eq!(get_latest_job_details(&vec![]).unwrap_err(), "No worker logs found");
    assert_eq!(get_latest_job_details(&vec![entry("notes.txt", Some(1))]).unwrap_err(), "No worker logs found");
}

#[test]
fn durations_are_in_milliseconds_and_never_negative() {
    assert_eq!(calculate_duration("2025-12-05 00:50:06Z", "2025-12-05 00:50:09Z"), Some(3000));
    assert_eq!(calculate_duration("2025-12-05 00:50:06Z", "2025-12-05 00:50:06Z"), Some(0));
    assert_eq!(calculate_duration("2025-12-05 00:50:09Z", "2025-12-05 00:50:06Z"), Some(0));
    assert_eq!(calculate_duration("2025-12-05 23:59:59Z", "2025-12-06 00:00:01Z"), Some(2000));
    assert_eq!(calculate_duration("yesterday", "2025-12-05 00:50:06Z"), None);
    assert_eq!(calculate_duration("2025-12-05 00:50:06Z", ""), None);
    assert_eq!(calculate_duration("2025-12-05T00:50:06Z", "2025-12-05 00:50:06Z"), None);
}

const LOG: &str = "\
[2025-12-05 00:50:06Z INFO HostContext] Well known directory 'Bin'\r
{ \"ref\": \"org/repo/.github/workflows/ci.yml@refs/heads/main\", \"x\": 1 }
[2025-12-05 00:50:07Z INFO Worker] Job message received
[2025-12-05 00:50:08Z INFO StepsRunner] Processing step: DisplayName='Set up job'
[2025-12-05 00:50:08Z INFO StepsRunner] Starting the step.
[2025-12-05 00:50:10Z INFO StepsRunner] Step result: Succeeded
[2025-12-05 00:50:11Z INFO StepsRunner] Processing step: DisplayName='Build'
[2025-12-05 00:50:11Z INFO StepsRunner] Starting the step.
[2025-12-05 00:50:12Z WARN  ProcessInvoker] Something is slow
bash: line 1: cargo: command not found
[2025-12-05 00:50:15Z ERR  StepsRunner] Caught exception from step: System.Exception: boom
[2025-12-05 00:50:16Z INFO StepsRunner] Step result: Failed
[2025-12-05 00:50:17Z INFO StepsRunner] Processing step: DisplayName='Deploy'
[2025-12-05 00:50:17Z INFO StepsRunner] Skipping step due to condition evaluation.
[2025-12-05 00:50:18Z INFO StepsRunner] Processing step: DisplayName='Post Build'
[2025-12-05 00:50:18Z INFO StepsRunner] Starting the step.
[2025-12-05 00:50:19Z INFO StepsRunner] Step result: Succeeded
[2025-12-05 00:50:20Z INFO StepsRunner] Processing step: DisplayName='Post Checkout'
[2025-12-05 00:50:20Z INFO StepsRunner] Starting the step.
[2025-12-05 00:50:21Z INFO StepsRunner] Step result: Failed
[2025-12-05 00:50:22Z INFO StepsRunner] Processing step: DisplayName='Complete job'
[2025-12-05 00:50:22Z INFO StepsRunner] Starting the step.
[2025-12-05 00:50:25Z INFO JobRunner] Job result after all job steps finish: Failed
not a structured line
";

#[test]
fn a_log_is_read_into_job_details() {
    let d = parse_worker_log("/r/_diag/Worker_x.log", LOG).unwrap();
    assert_eq!(d.job_name, None);
    assert_eq!(d.workflow_file.as_deref(), Some(".github/workflows/ci.yml@refs/heads/main"));
    assert_eq!(d.status, "Failed");
    assert_eq!(d.started_at.as_deref(), Some("2025-12-05 00:50:07Z"));
    assert_eq!(d.completed_at.as_deref(), Some("2025-12-05 00:50:25Z"));
    assert_eq!(d.raw_log_path, "/r/_diag/Worker_x.log");

    let steps: Vec<(&str, StepStatus, Option<&str>, Option<&str>, Option<u64>)> = d
        .steps
        .iter()
        .map(|s| (s.name.as_str(), s.status, s.start_time.as_deref(), s.end_time.as_deref(), s.duration_ms))
        .collect();
    assert_eq!(
        steps,
        vec![
            ("Set up job", StepStatus::Succeeded, Some("2025-12-05 00:50:08Z"), Some("2025-12-05 00:50:11Z"), Some(3000)),
            ("Build", StepStatus::Failed, Some("2025-12-05 00:50:11Z"), Some("2025-12-05 00:50:17Z"), Some(6000)),
            ("Deploy", StepStatus::Skipped, None, Some("2025-12-05 00:50:18Z"), None),
            ("Post Checkout", StepStatus::Failed, Some("2025-12-05 00:50:20Z"), Some("2025-12-05 00:50:22Z"), Some(2000)),
            ("Complete job", StepStatus::Running, Some("2025-12-05 00:50:22Z"), Some("2025-12-05 00:50:25Z"), Some(3000)),
        ]
    );
    assert_eq!(d.steps[1].error_message.as_deref(), Some("System.Exception: boom"));
    assert_eq!(d.steps[0].error_message, None);

    let errors: Vec<(&str, &str, &str, &str)> = d
        .errors
        .iter()
        .map(|e| (e.timestamp.as_str(), e.level.as_str(), e.component.as_str(), e.message.as_str()))
        .collect();
    assert_eq!(
        errors,
        vec![
            ("", "error", "", "bash: line 1: cargo: command not found"),
            ("2025-12-05 00:50:15Z", "error", "StepsRunner", "Caught exception from step: System.Exception: boom"),
        ]
    );
    assert_eq!(d.warnings.len(), 1);
    assert_eq!(d.warnings[0].level, "warning");
    assert_eq!(d.warnings[0].component, "ProcessInvoker");
    assert_eq!(d.warnings[0].message, "Something is slow");
}

#[test]
fn an_empty_log_says_nothing() {
    let d = parse_worker_log("p", "").unwrap();
    assert_eq!(d.status, "Unknown");
    assert!(d.workflow_file.is_none() && d.started_at.is_none() && d.completed_at.is_none());
    assert!(d.steps.is_empty() && d.errors.is_empty() && d.warnings.is_empty());
}

#[test]
fn an_open_step_ends_with_the_job_or_not_at_all() {
    let log = "[2025-12-05 00:50:08Z INFO Worker] Processing step: DisplayName='Only'\n[2025-12-05 00:50:08Z INFO Worker] Starting the step.\n";
    let d = parse_worker_log("p", log).unwrap();
    assert_eq!(d.steps.len(), 1);
    assert_eq!(d.steps[0].status, StepStatus::Running);
    assert_eq!(d.steps[0].end_time, None);
    assert_eq!(d.steps[0].duration_ms, None);
    assert_eq!(d.started_at.as_deref(), Some("2025-12-05 00:50:08Z"));
}

#[test]
fn the_first_workflow_with_a_closing_quote_wins() {
    let log = "a .github/workflows/no-quote.yml\nb \".github/workflows/one.yml\" and \".github/workflows/two.yml\"\nc \".github/workflows/three.yml\"\n";
    let d = parse_worker_log("p", log).unwrap();
    assert_eq!(d.workflow_file.as_deref(), Some(".github/workflows/one.yml"));
    let log = "é \".github/workflows/ünï.yml\"";
    let d = parse_worker_log("p", log).unwrap();
    assert_eq!(d.workflow_file.as_deref(), Some(".github/workflows/ünï.yml"));
}

#[test]
fn unknown_step_results_leave_the_step_pending() {
    let log = "[2025-12-05 00:50:08Z INFO W] Processing step: DisplayName='S'\n[2025-12-05 00:50:09Z INFO W] Step result: Canceled\n[2025-12-05 00:50:10Z INFO W] FileNotFoundException here\n";
    let d = parse_worker_log("p", log).unwrap();
    assert_eq!(d.steps[0].status, StepStatus::Pending);
    assert_eq!(d.steps[0].end_time.as_deref(), Some("2025-12-05 00:50:09Z"));
    assert_eq!(d.errors.len(), 1);
    assert_eq!(d.errors[0].timestamp, "");
    assert_eq!(d.started_at, None);
}
