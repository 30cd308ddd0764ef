//! Worker logs of the job runner: which files there are, and what a log says
//! of the job it belongs to.

use vstd::prelude::*;
use vstd::string::*;
use crate::clock::{parse_with_pattern, parsed_seconds};
use crate::model::ranked;
use crate::patterns::{
    captured, captures, compile, compiles, group_or, group_text, pattern_of,
};
use crate::ranking::{insert_ranked, key_views};
use crate::text::{
    bytes_between, clone_opt, contains, find_from, first_occurrence, lemma_ascii_is_boundary,
    lines, lines_of, opt_text, strip_prefix, strip_suffix, subtext, text_contains, text_eq,
    text_le,
};
use vstd::utf8::encode_utf8;

verus! {

/// How a step of a job ended, or where it stands.
#[derive(Debug, Clone, Copy, PartialEq, Eq, Structural)]
pub enum StepStatus {
    Pending,
    Running,
    Succeeded,
    Failed,
    Skipped,
}

/// One step of a job.
#[derive(Debug)]
pub struct JobStep {
    pub name: String,
    pub status: StepStatus,
    pub start_time: Option<String>,
    pub end_time: Option<String>,
    pub duration_ms: Option<u64>,
    pub error_message: Option<String>,
}

pub struct JobStepView {
    pub name: Seq<char>,
    pub status: StepStatus,
    pub start_time: Option<Seq<char>>,
    pub end_time: Option<Seq<char>>,
    pub duration_ms: Option<u64>,
    pub error_message: Option<Seq<char>>,
}

impl View for JobStep {
    type V = JobStepView;

    open spec fn view(&self) -> JobStepView {
        JobStepView {
            name: self.name@,
            status: self.status,
            start_time: opt_text(self.start_time),
            end_time: opt_text(self.end_time),
            duration_ms: self.duration_ms,
            error_message: opt_text(self.error_message),
        }
    }
}

impl Clone for JobStep {
    fn clone(&self) -> (r: Self)
        ensures
            r@ == self@,
    {
        JobStep {
            name: self.name.clone(),
            status: self.status,
            start_time: clone_opt(&self.start_time),
            end_time: clone_opt(&self.end_time),
            duration_ms: self.duration_ms,
            error_message: clone_opt(&self.error_message),
        }
    }
}

/// One line of a log that is worth showing.
#[derive(Debug)]
pub struct JobLogEntry {
    pub timestamp: String,
    pub level: String,
    pub component: String,
    pub message: String,
}

pub struct JobLogEntryView {
    pub timestamp: Seq<char>,
    pub level: Seq<char>,
    pub component: Seq<char>,
    pub message: Seq<char>,
}

impl View for JobLogEntry {
    type V = JobLogEntryView;

    open spec fn view(&self) -> JobLogEntryView {
        JobLogEntryView {
            timestamp: self.timestamp@,
            level: self.level@,
            component: self.component@,
            message: self.message@,
        }
    }
}

/// What a worker log says of its job.
#[derive(Debug)]
pub struct JobDetails {
    pub job_name: Option<String>,
    pub workflow_file: Option<String>,
    pub status: String,
    pub started_at: Option<String>,
    pub completed_at: Option<String>,
    pub steps: Vec<JobStep>,
    pub errors: Vec<JobLogEntry>,
    pub warnings: Vec<JobLogEntry>,
    pub raw_log_path: String,
}

/// A worker log on disk.
#[derive(Debug)]
pub struct WorkerLogFile {
    pub filename: String,
    pub path: String,
    pub timestamp: String,
    pub size_bytes: u64,
}

pub struct WorkerLogFileView {
    pub filename: Seq<char>,
    pub path: Seq<char>,
    pub timestamp: Seq<char>,
    pub size_bytes: u64,
}

impl View for WorkerLogFile {
    type V = WorkerLogFileView;

    open spec fn view(&self) -> WorkerLogFileView {
        WorkerLogFileView {
            filename: self.filename@,
            path: self.path@,
            timestamp: self.timestamp@,
            size_bytes: self.size_bytes,
        }
    }
}

impl Clone for WorkerLogFile {
    fn clone(&self) -> (r: Self)
        ensures
            r@ == self@,
    {
        WorkerLogFile {
            filename: self.filename.clone(),
            path: self.path.clone(),
            timestamp: self.timestamp.clone(),
            size_bytes: self.size_bytes,
        }
    }
}

pub struct JobDetailsView {
    pub job_name: Option<Seq<char>>,
    pub workflow_file: Option<Seq<char>>,
    pub status: Seq<char>,
    pub started_at: Option<Seq<char>>,
    pub completed_at: Option<Seq<char>>,
    pub steps: Seq<JobStepView>,
    pub errors: Seq<JobLogEntryView>,
    pub warnings: Seq<JobLogEntryView>,
    pub raw_log_path: Seq<char>,
}

/// The views of a list of steps, in the same order.
pub open spec fn step_views(v: Seq<JobStep>) -> Seq<JobStepView> {
    Seq::new(v.len(), |i: int| v[i]@)
}

/// The views of a list of log lines, in the same order.
pub open spec fn line_entry_views(v: Seq<JobLogEntry>) -> Seq<JobLogEntryView> {
    Seq::new(v.len(), |i: int| v[i]@)
}

impl View for JobDetails {
    type V = JobDetailsView;

    open spec fn view(&self) -> JobDetailsView {
        JobDetailsView {
            job_name: opt_text(self.job_name),
            workflow_file: opt_text(self.workflow_file),
            status: self.status@,
            started_at: opt_text(self.started_at),
            completed_at: opt_text(self.completed_at),
            steps: step_views(self.steps@),
            errors: line_entry_views(self.errors@),
            warnings: line_entry_views(self.warnings@),
            raw_log_path: self.raw_log_path@,
        }
    }
}

/// A file of a directory, as far as the log list needs it.
#[derive(Debug)]
pub struct DirectoryEntry {
    pub filename: String,
    pub path: String,
    /// The size of the file, where it could be read.
    pub size_bytes: Option<u64>,
}

/// The time in the name of a worker log, such as `20251205-005006` in
/// `Worker_20251205-005006-utc.log`; empty where the name is not of that
/// form.
pub open spec fn log_timestamp(filename: Seq<char>) -> Seq<char> {
    let prefix = "Worker_"@;
    let suffix = "-utc.log"@;
    if prefix.is_prefix_of(filename) && suffix.is_suffix_of(filename.skip(prefix.len() as int)) {
        filename.subrange(prefix.len() as int, filename.len() - suffix.len())
    } else {
        Seq::empty()
    }
}

/// Whether a file of the directory is a worker log whose size is known.
pub open spec fn is_worker_log(entry: DirectoryEntry) -> bool {
    "Worker_"@.is_prefix_of(entry.filename@) && ".log"@.is_suffix_of(entry.filename@)
        && entry.size_bytes is Some
}

/// The worker log that a file of the directory is.
pub open spec fn worker_log(entry: DirectoryEntry) -> WorkerLogFileView {
    WorkerLogFileView {
        filename: entry.filename@,
        path: entry.path@,
        timestamp: log_timestamp(entry.filename@),
        size_bytes: entry.size_bytes->0,
    }
}

/// The worker logs among the first `upto` files, in directory order.
pub open spec fn worker_logs(entries: Seq<DirectoryEntry>, upto: int) -> Seq<WorkerLogFileView>
    decreases upto,
{
    if upto <= 0 || upto > entries.len() {
        Seq::empty()
    } else if is_worker_log(entries[upto - 1]) {
        worker_logs(entries, upto - 1).push(worker_log(entries[upto - 1]))
    } else {
        worker_logs(entries, upto - 1)
    }
}

/// The views of a list of logs, in the same order.
pub open spec fn log_file_views(v: Seq<WorkerLogFile>) -> Seq<WorkerLogFileView> {
    Seq::new(v.len(), |i: int| v[i]@)
}

/// Reads the time out of the name of a worker log.
fn timestamp_of(filename: &str) -> (r: String)
    ensures
        r@ == log_timestamp(filename@),
{
    proof {
        reveal_strlit("Worker_");
        reveal_strlit("-utc.log");
        reveal_strlit("");
    }
    match strip_prefix(filename, "Worker_") {
        Some(rest) => {
            proof {
                assert(filename@.skip(7) =~= rest@);
            }
            match strip_suffix(rest.as_str(), "-utc.log") {
                Some(middle) => {
                    proof {
                        assert(filename@.subrange(7, filename@.len() - 8) =~= middle@);
                    }
                    middle
                },
                None => String::from_str(""),
            }
        },
        None => String::from_str(""),
    }
}

/// The worker logs of a runner among the files of its diagnostics
/// directory, newest first by the time in their names.
pub fn list_worker_logs(entries: &Vec<DirectoryEntry>) -> (r: Vec<WorkerLogFile>)
    ensures
        log_file_views(r@).to_multiset() == worker_logs(entries@, entries.len() as int).to_multiset(),
        forall|i: int, j: int|
            0 <= i < j < r.len() ==> text_le(r[j].timestamp@, r[i].timestamp@),
{
    let mut keys: Vec<String> = Vec::new();
    let mut out: Vec<WorkerLogFile> = Vec::new();
    let mut i: usize = 0;
    proof {
        assert(log_file_views(out@) =~= Seq::empty());
    }
    while i < entries.len()
        invariant
            i <= entries.len(),
            keys.len() == out.len(),
            ranked(key_views(keys@), true),
            forall|k: int| 0 <= k < out.len() ==> (#[trigger] keys[k])@ == out[k].timestamp@,
            log_file_views(out@).to_multiset() == worker_logs(entries@, i as int).to_multiset(),
        decreases entries.len() - i,
    {
        let entry = &entries[i];
        let name = entry.filename.as_str();
        let is_log = strip_prefix(name, "Worker_").is_some() && strip_suffix(name, ".log").is_some();
        if is_log {
            match entry.size_bytes {
                Some(size) => {
                    let ghost before = out@;
                    let log = WorkerLogFile {
                        filename: entry.filename.clone(),
                        path: entry.path.clone(),
                        timestamp: timestamp_of(name),
                        size_bytes: size,
                    };
                    let ghost added = log@;
                    let at = insert_ranked(&mut keys, &mut out, log.timestamp.clone(), log, true);
                    proof {
                        assert(log_file_views(out@) =~= log_file_views(before).insert(
                            at as int,
                            added,
                        ));
                        vstd::seq_lib::to_multiset_insert(
                            log_file_views(before),
                            at as int,
                            added,
                        );
                        vstd::seq_lib::to_multiset_build(worker_logs(entries@, i as int), added);
                    }
                },
                None => {},
            }
        }
        i = i + 1;
    }
    proof {
        assert forall|a: int, b: int| 0 <= a < b < out.len() implies text_le(
            out[b].timestamp@,
            out[a].timestamp@,
        ) by {
            assert(crate::model::in_order(key_views(keys@)[a], key_views(keys@)[b], true));
        }
    }
    out
}

/// Picks the log of the most recent job among the files of a runner's
/// diagnostics directory: a worker log whose time is not before that of any
/// other. Without a worker log there is nothing to pick.
pub fn get_latest_job_details(entries: &Vec<DirectoryEntry>) -> (r: Result<WorkerLogFile, String>)
    ensures
        match r {
            Ok(latest) => {
                let logs = worker_logs(entries@, entries.len() as int);
                &&& logs.contains(latest@)
                &&& forall|k: int|
                    0 <= k < logs.len() ==> text_le((#[trigger] logs[k]).timestamp, latest.timestamp@)
            },
            Err(m) => worker_logs(entries@, entries.len() as int).len() == 0 && m@
                == "No worker logs found"@,
        },
{
    let listed = list_worker_logs(entries);
    let ghost logs = worker_logs(entries@, entries.len() as int);
    let ghost shown = log_file_views(listed@);
    proof {
        vstd::seq_lib::to_multiset_len(logs);
        vstd::seq_lib::to_multiset_len(shown);
    }
    if listed.len() == 0 {
        return Err(String::from_str("No worker logs found"));
    }
    let latest = listed[0].clone();
    proof {
        assert(shown[0] == latest@);
        vstd::seq_lib::to_multiset_contains(shown, latest@);
        vstd::seq_lib::to_multiset_contains(logs, latest@);
        assert(shown.contains(latest@));
        assert forall|k: int| 0 <= k < logs.len() implies text_le(
            (#[trigger] logs[k]).timestamp,
            latest.timestamp@,
        ) by {
            assert(logs.contains(logs[k]));
            vstd::seq_lib::to_multiset_contains(logs, logs[k]);
            vstd::seq_lib::to_multiset_contains(shown, logs[k]);
            let j = choose|j: int| 0 <= j < shown.len() && shown[j] == logs[k];
            assert(shown[j] == listed[j]@);
            if j > 0 {
                assert(text_le(listed[j].timestamp@, listed[0].timestamp@));
            } else {
                crate::text::lemma_text_le_total(latest.timestamp@, latest.timestamp@);
            }
        }
    }
    Ok(latest)
}

/// How a line of the log begins: time, level, component, then the message.
pub open spec fn log_line_pattern() -> Seq<char> {
    "^\\[(\\d{4}-\\d{2}-\\d{2} \\d{2}:\\d{2}:\\d{2}Z) (INFO|ERR|WARN)\\s+(\\w+)\\] (.*)$"@
}

/// How a message announces a step.
pub open spec fn step_processing_pattern() -> Seq<char> {
    "Processing step: DisplayName='([^']+)'"@
}

/// How a message tells the result of a step.
pub open spec fn step_result_pattern() -> Seq<char> {
    "Step result: (\\w+)"@
}

/// How a message tells the result of the job.
pub open spec fn job_result_pattern() -> Seq<char> {
    "Job result after all job steps finish: (\\w+)"@
}

/// How a message tells of an exception in a step.
pub open spec fn exception_pattern() -> Seq<char> {
    "Caught exception from step: (.+)"@
}

/// The five patterns, compiled.
pub struct LogPatterns {
    log_line: regex::Regex,
    step_processing: regex::Regex,
    step_result: regex::Regex,
    job_result: regex::Regex,
    exception: regex::Regex,
}

impl LogPatterns {
    /// Each expression is made of its pattern.
    pub closed spec fn wf(&self) -> bool {
        &&& pattern_of(self.log_line) == log_line_pattern()
        &&& pattern_of(self.step_processing) == step_processing_pattern()
        &&& pattern_of(self.step_result) == step_result_pattern()
        &&& pattern_of(self.job_result) == job_result_pattern()
        &&& pattern_of(self.exception) == exception_pattern()
    }
}

/// Whether all five patterns are accepted.
pub open spec fn patterns_compile() -> bool {
    &&& compiles(log_line_pattern())
    &&& compiles(step_processing_pattern())
    &&& compiles(step_result_pattern())
    &&& compiles(job_result_pattern())
    &&& compiles(exception_pattern())
}

/// Compiles the five patterns.
pub fn compile_patterns() -> (r: Option<LogPatterns>)
    ensures
        r is Some <==> patterns_compile(),
        r matches Some(p) ==> p.wf(),
{
    let log_line = match compile(
        "^\\[(\\d{4}-\\d{2}-\\d{2} \\d{2}:\\d{2}:\\d{2}Z) (INFO|ERR|WARN)\\s+(\\w+)\\] (.*)$",
    ) {
        Some(e) => e,
        None => {
            return None;
        },
    };
    let step_processing = match compile("Processing step: DisplayName='([^']+)'") {
        Some(e) => e,
        None => {
            return None;
        },
    };
    let step_result = match compile("Step result: (\\w+)") {
        Some(e) => e,
        None => {
            return None;
        },
    };
    let job_result = match compile("Job result after all job steps finish: (\\w+)") {
        Some(e) => e,
        None => {
            return None;
        },
    };
    let exception = match compile("Caught exception from step: (.+)") {
        Some(e) => e,
        None => {
            return None;
        },
    };
    Some(LogPatterns { log_line, step_processing, step_result, job_result, exception })
}

/// The pattern under which the times of the log are read, once `+0000` is
/// put behind them.
pub open spec fn log_time_pattern() -> Seq<char> {
    "%Y-%m-%d %H:%M:%SZ %z"@
}

/// The seconds since the Unix epoch of a time of the log.
pub open spec fn log_seconds(time: Seq<char>) -> Option<int> {
    parsed_seconds(time + " +0000"@, log_time_pattern())
}

/// The milliseconds from `start` to `end`, none where `end` is the earlier;
/// `None` where one of the two is no time.
pub open spec fn duration_between(start: Seq<char>, end: Seq<char>) -> Option<u64> {
    match (log_seconds(start), log_seconds(end)) {
        (Some(a), Some(b)) => Some(
            if b <= a {
                0u64
            } else if (b - a) * 1000 > u64::MAX {
                u64::MAX
            } else {
                ((b - a) * 1000) as u64
            },
        ),
        _ => None,
    }
}

/// Decides `duration_between`.
pub fn calculate_duration(start: &str, end: &str) -> (r: Option<u64>)
    ensures
        r == duration_between(start@, end@),
{
    let a = match parse_with_pattern(
        start.to_owned().concat(" +0000").as_str(),
        "%Y-%m-%d %H:%M:%SZ %z",
    ) {
        Some(v) => v,
        None => {
            return None;
        },
    };
    let b = match parse_with_pattern(
        end.to_owned().concat(" +0000").as_str(),
        "%Y-%m-%d %H:%M:%SZ %z",
    ) {
        Some(v) => v,
        None => {
            return None;
        },
    };
    if b <= a {
        return Some(0);
    }
    let millis: i128 = (b as i128 - a as i128) * 1000;
    if millis > u64::MAX as i128 {
        Some(u64::MAX)
    } else {
        Some(millis as u64)
    }
}

/// The step with its duration worked out, where both its times are known.
pub open spec fn with_duration(step: JobStepView) -> JobStepView {
    match (step.start_time, step.end_time) {
        (Some(a), Some(b)) => JobStepView { duration_ms: duration_between(a, b), ..step },
        _ => step,
    }
}

/// Builds `with_duration`.
fn settle_duration(step: JobStep) -> (r: JobStep)
    ensures
        r@ == with_duration(step@),
{
    let duration = match (&step.start_time, &step.end_time) {
        (Some(a), Some(b)) => calculate_duration(a.as_str(), b.as_str()),
        _ => step.duration_ms,
    };
    JobStep {
        name: step.name,
        status: step.status,
        start_time: step.start_time,
        end_time: step.end_time,
        duration_ms: duration,
        error_message: step.error_message,
    }
}

/// The status that a word for a step's result stands for.
pub open spec fn status_named(word: Seq<char>) -> StepStatus {
    if word == "Succeeded"@ {
        StepStatus::Succeeded
    } else if word == "Failed"@ {
        StepStatus::Failed
    } else if word == "Skipped"@ {
        StepStatus::Skipped
    } else {
        StepStatus::Pending
    }
}

/// What has been read of a log so far.
pub struct ScanView {
    pub workflow_file: Option<Seq<char>>,
    pub status: Seq<char>,
    pub started_at: Option<Seq<char>>,
    pub completed_at: Option<Seq<char>>,
    pub steps: Seq<JobStepView>,
    pub current: Option<JobStepView>,
    pub errors: Seq<JobLogEntryView>,
    pub warnings: Seq<JobLogEntryView>,
}

/// The view of an optional step.
pub open spec fn opt_step(s: Option<JobStep>) -> Option<JobStepView> {
    match s {
        Some(step) => Some(step@),
        None => None,
    }
}

struct Scan {
    workflow_file: Option<String>,
    status: String,
    started_at: Option<String>,
    completed_at: Option<String>,
    steps: Vec<JobStep>,
    current: Option<JobStep>,
    errors: Vec<JobLogEntry>,
    warnings: Vec<JobLogEntry>,
}

impl View for Scan {
    type V = ScanView;

    closed spec fn view(&self) -> ScanView {
        ScanView {
            workflow_file: opt_text(self.workflow_file),
            status: self.status@,
            started_at: opt_text(self.started_at),
            completed_at: opt_text(self.completed_at),
            steps: step_views(self.steps@),
            current: opt_step(self.current),
            errors: line_entry_views(self.errors@),
            warnings: line_entry_views(self.warnings@),
        }
    }
}

/// Nothing read yet.
pub open spec fn empty_scan() -> ScanView {
    ScanView {
        workflow_file: None,
        status: "Unknown"@,
        started_at: None,
        completed_at: None,
        steps: Seq::empty(),
        current: None,
        errors: Seq::empty(),
        warnings: Seq::empty(),
    }
}

/// The path of a workflow file that a line names: from the first
/// `.github/workflows/` up to the next double quote; `None` without either.
pub open spec fn workflow_in(line: Seq<char>) -> Option<Seq<char>> {
    let bytes = encode_utf8(line);
    match first_occurrence(bytes, encode_utf8(".github/workflows/"@), 0) {
        Some(start) => match first_occurrence(bytes, encode_utf8("\""@), start) {
            Some(end) => Some(bytes_between(line, start, end)),
            None => None,
        },
        None => None,
    }
}

/// Decides `workflow_in`.
fn find_workflow(line: &str) -> (r: Option<String>)
    ensures
        opt_text(r) == workflow_in(line@),
{
    let bytes = line.as_bytes();
    let needle = ".github/workflows/".as_bytes();
    let quote = "\"".as_bytes();
    proof {
        reveal_strlit(".github/workflows/");
        reveal_strlit("\"");
        vstd::utf8::is_ascii_chars_encode_utf8(".github/workflows/"@);
        vstd::utf8::is_ascii_chars_encode_utf8("\""@);
    }
    match find_from(bytes, needle, 0) {
        Some(start) => match find_from(bytes, quote, start) {
            Some(end) => {
                proof {
                    let all = encode_utf8(line@);
                    assert(all.subrange(start as int, start + needle@.len())[0] == all[start as int]);
                    assert(all.subrange(end as int, end + quote@.len())[0] == all[end as int]);
                    lemma_ascii_is_boundary(line@, start as int);
                    lemma_ascii_is_boundary(line@, end as int);
                }
                Some(subtext(line, start, end).to_owned())
            },
            None => None,
        },
        None => None,
    }
}

/// A step that was just announced.
pub open spec fn new_step(name: Seq<char>) -> JobStepView {
    JobStepView {
        name,
        status: StepStatus::Pending,
        start_time: None,
        end_time: None,
        duration_ms: None,
        error_message: None,
    }
}

/// A log line worth showing.
pub open spec fn shown_line(
    timestamp: Seq<char>,
    level: Seq<char>,
    component: Seq<char>,
    message: Seq<char>,
) -> JobLogEntryView {
    JobLogEntryView { timestamp, level, component, message }
}

/// The first structured line of the worker gives the time the job started.
pub open spec fn note_start(s: ScanView, timestamp: Seq<char>, component: Seq<char>) -> ScanView {
    if s.started_at is None && component == "Worker"@ {
        ScanView { started_at: Some(timestamp), ..s }
    } else {
        s
    }
}

/// A message that announces a step closes the step before it, at the time
/// of the message, and opens the new one.
pub open spec fn note_step(s: ScanView, timestamp: Seq<char>, message: Seq<char>) -> ScanView {
    match captured(step_processing_pattern(), message) {
        Some(groups) => ScanView {
            steps: match s.current {
                Some(step) => s.steps.push(
                    with_duration(JobStepView { end_time: Some(timestamp), ..step }),
                ),
                None => s.steps,
            },
            current: Some(new_step(group_or(groups, 1, "Unknown"@))),
            ..s
        },
        None => s,
    }
}

/// A message that tells of the start of the step makes it running from the
/// time of the message.
pub open spec fn note_running(s: ScanView, timestamp: Seq<char>, message: Seq<char>) -> ScanView {
    match s.current {
        Some(step) => if text_contains(message, "Starting the step."@) {
            ScanView {
                current: Some(
                    JobStepView {
                        status: StepStatus::Running,
                        start_time: Some(timestamp),
                        ..step
                    },
                ),
                ..s
            }
        } else {
            s
        },
        None => s,
    }
}

/// A message that tells the result of the step gives it its status and its
/// end.
pub open spec fn note_result(s: ScanView, timestamp: Seq<char>, message: Seq<char>) -> ScanView {
    match (s.current, captured(step_result_pattern(), message)) {
        (Some(step), Some(groups)) => ScanView {
            current: Some(
                with_duration(
                    JobStepView {
                        status: status_named(group_or(groups, 1, Seq::empty())),
                        end_time: Some(timestamp),
                        ..step
                    },
                ),
            ),
            ..s
        },
        _ => s,
    }
}

/// A message that tells that the step is skipped ends it as skipped.
pub open spec fn note_skipped(s: ScanView, timestamp: Seq<char>, message: Seq<char>) -> ScanView {
    match s.current {
        Some(step) => if text_contains(message, "Skipping step due to condition evaluation"@) {
            ScanView {
                current: Some(
                    JobStepView {
                        status: StepStatus::Skipped,
                        end_time: Some(timestamp),
                        ..step
                    },
                ),
                ..s
            }
        } else {
            s
        },
        None => s,
    }
}

/// A message that tells of an exception fails the step, with what was
/// caught as the reason.
pub open spec fn note_exception(s: ScanView, message: Seq<char>) -> ScanView {
    match (s.current, captured(exception_pattern(), message)) {
        (Some(step), Some(groups)) => ScanView {
            current: Some(
                JobStepView {
                    error_message: Some(group_or(groups, 1, Seq::empty())),
                    status: StepStatus::Failed,
                    ..step
                },
            ),
            ..s
        },
        _ => s,
    }
}

/// A message that tells the result of the job gives the job its status and
/// its end.
pub open spec fn note_job_result(s: ScanView, timestamp: Seq<char>, message: Seq<char>)
    -> ScanView {
    match captured(job_result_pattern(), message) {
        Some(groups) => ScanView {
            status: group_or(groups, 1, "Unknown"@),
            completed_at: Some(timestamp),
            ..s
        },
        None => s,
    }
}

/// Errors and warnings are collected.
pub open spec fn note_level(
    s: ScanView,
    timestamp: Seq<char>,
    level: Seq<char>,
    component: Seq<char>,
    message: Seq<char>,
) -> ScanView {
    let s1 = if level == "ERR"@ {
        ScanView {
            errors: s.errors.push(shown_line(timestamp, "error"@, component, message)),
            ..s
        }
    } else {
        s
    };
    if level == "WARN"@ {
        ScanView {
            warnings: s1.warnings.push(shown_line(timestamp, "warning"@, component, message)),
            ..s1
        }
    } else {
        s1
    }
}

/// What a structured line adds to what was read.
pub open spec fn after_structured(
    s: ScanView,
    timestamp: Seq<char>,
    level: Seq<char>,
    component: Seq<char>,
    message: Seq<char>,
) -> ScanView {
    let a = note_start(s, timestamp, component);
    let b = note_step(a, timestamp, message);
    let c = note_running(b, timestamp, message);
    let d = note_result(c, timestamp, message);
    let e = note_skipped(d, timestamp, message);
    let f = note_exception(e, message);
    let g = note_job_result(f, timestamp, message);
    note_level(g, timestamp, level, component, message)
}

/// What a line adds to what was read: the workflow file, while none is
/// known; what the line says where it is structured; and the line itself as
/// an error where it tells of a missing command or file.
pub open spec fn after_log_line(s: ScanView, line: Seq<char>) -> ScanView {
    let a = if s.workflow_file is None && text_contains(line, ".github/workflows/"@) {
        match workflow_in(line) {
            Some(w) => ScanView { workflow_file: Some(w), ..s },
            None => s,
        }
    } else {
        s
    };
    let b = match captured(log_line_pattern(), line) {
        Some(groups) => after_structured(
            a,
            group_or(groups, 1, Seq::empty()),
            group_or(groups, 2, Seq::empty()),
            group_or(groups, 3, Seq::empty()),
            group_or(groups, 4, Seq::empty()),
        ),
        None => a,
    };
    if text_contains(line, "command not found"@) || text_contains(
        line,
        "FileNotFoundException"@,
    ) {
        ScanView {
            errors: b.errors.push(shown_line(Seq::empty(), "error"@, Seq::empty(), line)),
            ..b
        }
    } else {
        b
    }
}

/// What the first `upto` lines add to what was read.
pub open spec fn after_log_lines(s: ScanView, lines: Seq<Seq<char>>, upto: int) -> ScanView
    decreases upto,
{
    if upto <= 0 || upto > lines.len() {
        s
    } else {
        after_log_line(after_log_lines(s, lines, upto - 1), lines[upto - 1])
    }
}

/// Whether a step is shown: clean-up steps only where they failed.
pub open spec fn is_meaningful(step: JobStepView) -> bool {
    !"Post "@.is_prefix_of(step.name) || step.status == StepStatus::Failed
}

/// The test that keeps the steps that are shown.
pub open spec fn meaningful_pred() -> spec_fn(JobStepView) -> bool {
    |step: JobStepView| is_meaningful(step)
}

/// All steps at the end of the log: the open step is closed at the end of
/// the job unless it has an end already.
pub open spec fn all_steps(s: ScanView) -> Seq<JobStepView> {
    match s.current {
        Some(step) => s.steps.push(
            with_duration(
                if step.end_time is None {
                    JobStepView { end_time: s.completed_at, ..step }
                } else {
                    step
                },
            ),
        ),
        None => s.steps,
    }
}

/// What a log says of its job.
pub open spec fn job_details(log_path: Seq<char>, content: Seq<char>) -> JobDetailsView {
    let lines = lines_of(content);
    let s = after_log_lines(empty_scan(), lines, lines.len() as int);
    JobDetailsView {
        job_name: None,
        workflow_file: s.workflow_file,
        status: s.status,
        started_at: s.started_at,
        completed_at: s.completed_at,
        steps: all_steps(s).filter(meaningful_pred()),
        errors: s.errors,
        warnings: s.warnings,
        raw_log_path: log_path,
    }
}

impl Scan {
    fn new() -> (s: Scan)
        ensures
            s@ == empty_scan(),
    {
        let s = Scan {
            workflow_file: None,
            status: String::from_str("Unknown"),
            started_at: None,
            completed_at: None,
            steps: Vec::new(),
            current: None,
            errors: Vec::new(),
            warnings: Vec::new(),
        };
        proof {
            assert(s@.steps =~= Seq::empty());
            assert(s@.errors =~= Seq::empty());
            assert(s@.warnings =~= Seq::empty());
        }
        s
    }

    fn note_start(&mut self, timestamp: &str, component: &str)
        ensures
            final(self)@ == note_start(old(self)@, timestamp@, component@),
    {
        if self.started_at.is_none() && text_eq(component, "Worker") {
            self.started_at = Some(timestamp.to_owned());
        }
    }

    fn note_step(&mut self, patterns: &LogPatterns, timestamp: &str, message: &str)
        requires
            patterns.wf(),
        ensures
            final(self)@ == note_step(old(self)@, timestamp@, message@),
    {
        match captures(&patterns.step_processing, message) {
            Some(groups) => {
                match self.current.take() {
                    Some(step) => {
                        let closed = settle_duration(
                            JobStep {
                                name: step.name,
                                status: step.status,
                                start_time: step.start_time,
                                end_time: Some(timestamp.to_owned()),
                                duration_ms: step.duration_ms,
                                error_message: step.error_message,
                            },
                        );
                        self.steps.push(closed);
                        proof {
                            assert(self@.steps =~= old(self)@.steps.push(closed@));
                        }
                    },
                    None => {},
                }
                self.current = Some(
                    JobStep {
                        name: group_text(&groups, 1, "Unknown"),
                        status: StepStatus::Pending,
                        start_time: None,
                        end_time: None,
                        duration_ms: None,
                        error_message: None,
                    },
                );
            },
            None => {},
        }
    }

    fn note_running(&mut self, timestamp: &str, message: &str)
        ensures
            final(self)@ == note_running(old(self)@, timestamp@, message@),
    {
        if contains(message, "Starting the step.") {
            match self.current.take() {
                Some(step) => {
                    self.current = Some(
                        JobStep {
                            name: step.name,
                            status: StepStatus::Running,
                            start_time: Some(timestamp.to_owned()),
                            end_time: step.end_time,
                            duration_ms: step.duration_ms,
                            error_message: step.error_message,
                        },
                    );
                },
                None => {},
            }
        }
    }

    fn note_result(&mut self, patterns: &LogPatterns, timestamp: &str, message: &str)
        requires
            patterns.wf(),
        ensures
            final(self)@ == note_result(old(self)@, timestamp@, message@),
    {
        match captures(&patterns.step_result, message) {
            Some(groups) => {
                match self.current.take() {
                    Some(step) => {
                        let word = group_text(&groups, 1, "");
                        proof {
                            reveal_strlit("");
                            assert(""@ =~= Seq::<char>::empty());
                        }
                        let status = if text_eq(word.as_str(), "Succeeded") {
                            StepStatus::Succeeded
                        } else if text_eq(word.as_str(), "Failed") {
                            StepStatus::Failed
                        } else if text_eq(word.as_str(), "Skipped") {
                            StepStatus::Skipped
                        } else {
                            StepStatus::Pending
                        };
                        self.current = Some(
                            settle_duration(
                                JobStep {
                                    name: step.name,
                                    status,
                                    start_time: step.start_time,
                                    end_time: Some(timestamp.to_owned()),
                                    duration_ms: step.duration_ms,
                                    error_message: step.error_message,
                                },
                            ),
                        );
                    },
                    None => {},
                }
            },
            None => {},
        }
    }

    fn note_skipped(&mut self, timestamp: &str, message: &str)
        ensures
            final(self)@ == note_skipped(old(self)@, timestamp@, message@),
    {
        if contains(message, "Skipping step due to condition evaluation") {
            match self.current.take() {
                Some(step) => {
                    self.current = Some(
                        JobStep {
                            name: step.name,
                            status: StepStatus::Skipped,
                            start_time: step.start_time,
                            end_time: Some(timestamp.to_owned()),
                            duration_ms: step.duration_ms,
                            error_message: step.error_message,
                        },
                    );
                },
                None => {},
            }
        }
    }

    fn note_exception(&mut self, patterns: &LogPatterns, message: &str)
        requires
            patterns.wf(),
        ensures
            final(self)@ == note_exception(old(self)@, message@),
    {
        match captures(&patterns.exception, message) {
            Some(groups) => {
                match self.current.take() {
                    Some(step) => {
                        proof {
                            reveal_strlit("");
                            assert(""@ =~= Seq::<char>::empty());
                        }
                        self.current = Some(
                            JobStep {
                                name: step.name,
                                status: StepStatus::Failed,
                                start_time: step.start_time,
                                end_time: step.end_time,
                                duration_ms: step.duration_ms,
                                error_message: Some(group_text(&groups, 1, "")),
                            },
                        );
                    },
                    None => {},
                }
            },
            None => {},
        }
    }

    fn note_job_result(&mut self, patterns: &LogPatterns, timestamp: &str, message: &str)
        requires
            patterns.wf(),
        ensures
            final(self)@ == note_job_result(old(self)@, timestamp@, message@),
    {
        match captures(&patterns.job_result, message) {
            Some(groups) => {
                self.status = group_text(&groups, 1, "Unknown");
                self.completed_at = Some(timestamp.to_owned());
            },
            None => {},
        }
    }

    fn note_level(&mut self, timestamp: &str, level: &str, component: &str, message: &str)
        ensures
            final(self)@ == note_level(old(self)@, timestamp@, level@, component@, message@),
    {
        if text_eq(level, "ERR") {
            let entry = JobLogEntry {
                timestamp: timestamp.to_owned(),
                level: String::from_str("error"),
                component: component.to_owned(),
                message: message.to_owned(),
            };
            self.errors.push(entry);
            proof {
                assert(self@.errors =~= old(self)@.errors.push(entry@));
            }
        }
        if text_eq(level, "WARN") {
            let ghost before = self@.warnings;
            let entry = JobLogEntry {
                timestamp: timestamp.to_owned(),
                level: String::from_str("warning"),
                component: component.to_owned(),
                message: message.to_owned(),
            };
            self.warnings.push(entry);
            proof {
                assert(self@.warnings =~= before.push(entry@));
            }
        }
    }

    fn take_line(&mut self, patterns: &LogPatterns, line: &str)
        requires
            patterns.wf(),
        ensures
            final(self)@ == after_log_line(old(self)@, line@),
    {
        if self.workflow_file.is_none() && contains(line, ".github/workflows/") {
            match find_workflow(line) {
                Some(w) => {
                    self.workflow_file = Some(w);
                },
                None => {},
            }
        }
        match captures(&patterns.log_line, line) {
            Some(groups) => {
                proof {
                    reveal_strlit("");
                    assert(""@ =~= Seq::<char>::empty());
                }
                let timestamp = group_text(&groups, 1, "");
                let level = group_text(&groups, 2, "");
                let component = group_text(&groups, 3, "");
                let message = group_text(&groups, 4, "");
                self.note_start(timestamp.as_str(), component.as_str());
                self.note_step(patterns, timestamp.as_str(), message.as_str());
                self.note_running(timestamp.as_str(), message.as_str());
                self.note_result(patterns, timestamp.as_str(), message.as_str());
                self.note_skipped(timestamp.as_str(), message.as_str());
                self.note_exception(patterns, message.as_str());
                self.note_job_result(patterns, timestamp.as_str(), message.as_str());
                self.note_level(
                    timestamp.as_str(),
                    level.as_str(),
                    component.as_str(),
                    message.as_str(),
                );
            },
            None => {},
        }
        if contains(line, "command not found") || contains(line, "FileNotFoundException") {
            let ghost before = self@.errors;
            let entry = JobLogEntry {
                timestamp: String::from_str(""),
                level: String::from_str("error"),
                component: String::from_str(""),
                message: line.to_owned(),
            };
            self.errors.push(entry);
            proof {
                reveal_strlit("");
                assert(""@ =~= Seq::<char>::empty());
                assert(self@.errors =~= before.push(entry@));
            }
        }
    }
}

/// The complaint about patterns that `regex` does not accept.
pub open spec fn patterns_refused() -> Seq<char> {
    "Failed to compile log patterns"@
}

/// Reads what a worker log says of its job, given the log's text.
pub fn parse_worker_log(log_path: &str, content: &str) -> (r: Result<JobDetails, String>)
    ensures
        match r {
            Ok(details) => patterns_compile() && details@ == job_details(log_path@, content@),
            Err(m) => !patterns_compile() && m@ == patterns_refused(),
        },
{
    let patterns = match compile_patterns() {
        Some(p) => p,
        None => {
            return Err(String::from_str("Failed to compile log patterns"));
        },
    };
    let all = lines(content);
    let mut scan = Scan::new();
    let mut i: usize = 0;
    while i < all.len()
        invariant
            i <= all.len(),
            patterns.wf(),
            all@.len() == lines_of(content@).len(),
            forall|k: int| 0 <= k < all@.len() ==> (#[trigger] all@[k])@ == lines_of(content@)[k],
            scan@ == after_log_lines(empty_scan(), lines_of(content@), i as int),
        decreases all.len() - i,
    {
        scan.take_line(&patterns, all[i].as_str());
        i = i + 1;
    }
    let ghost read = scan@;
    let Scan { workflow_file, status, started_at, completed_at, mut steps, current, errors, warnings } =
        scan;
    match current {
        Some(step) => {
            let end_time = match step.end_time {
                Some(t) => Some(t),
                None => clone_opt(&completed_at),
            };
            let closed = settle_duration(
                JobStep {
                    name: step.name,
                    status: step.status,
                    start_time: step.start_time,
                    end_time,
                    duration_ms: step.duration_ms,
                    error_message: step.error_message,
                },
            );
            steps.push(closed);
            proof {
                assert(step_views(steps@) =~= read.steps.push(closed@));
            }
        },
        None => {},
    }
    proof {
        assert(step_views(steps@) =~= all_steps(read));
    }
    let mut shown: Vec<JobStep> = Vec::new();
    let mut k: usize = 0;
    proof {
        assert(step_views(steps@).take(0) =~= Seq::empty());
        assert(step_views(shown@) =~= Seq::empty());
        Seq::<JobStepView>::empty().lemma_filter_len(meaningful_pred());
        assert(Seq::<JobStepView>::empty().filter(meaningful_pred()) =~= Seq::empty());
    }
    while k < steps.len()
        invariant
            k <= steps.len(),
            step_views(shown@) == step_views(steps@).take(k as int).filter(meaningful_pred()),
        decreases steps.len() - k,
    {
        let step = &steps[k];
        proof {
            let seen = step_views(steps@).take(k as int);
            assert(step_views(steps@).take(k + 1) =~= seen.push(step@));
            seen.lemma_filter_push(step@, meaningful_pred());
        }
        let keep = strip_prefix(step.name.as_str(), "Post ").is_none() || step.status
            == StepStatus::Failed;
        if keep {
            let ghost before = shown@;
            let copy = step.clone();
            shown.push(copy);
            proof {
                assert(step_views(shown@) =~= step_views(before).push(copy@));
            }
        }
        k = k + 1;
    }
    proof {
        assert(step_views(steps@).take(k as int) =~= step_views(steps@));
    }
    Ok(
        JobDetails {
            job_name: None,
            workflow_file,
            status,
            started_at,
            completed_at,
            steps: shown,
            errors,
            warnings,
            raw_log_path: log_path.to_owned(),
        },
    )
}

} // verus!
