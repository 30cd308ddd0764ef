//! The job runner as its manager sees it: what state it is in, what it
//! printed, and how each line it prints moves the state.

use vstd::prelude::*;
use vstd::string::*;
use crate::clock::{
    current_moment, format_utc, stamp_pattern, time_of_day_pattern, utc_formatted, Moment,
    MomentView,
};
use crate::text::{
    clone_opt, contains, opt_text, piece, split_piece, text_contains, text_eq, trim, trimmed,
};

verus! {

/// How grave a line of output is.
#[derive(Debug, Clone, Copy, PartialEq, Eq, Structural)]
pub enum LogLevel {
    Info,
    Error,
    Warning,
}

/// One line of the runner's output, with the time it was read.
#[derive(Debug)]
pub struct LogEntry {
    pub timestamp: Moment,
    pub level: LogLevel,
    pub message: String,
}

pub struct LogEntryView {
    pub timestamp: MomentView,
    pub level: LogLevel,
    pub message: Seq<char>,
}

impl View for LogEntry {
    type V = LogEntryView;

    open spec fn view(&self) -> LogEntryView {
        LogEntryView { timestamp: self.timestamp@, level: self.level, message: self.message@ }
    }
}

impl Clone for LogEntry {
    fn clone(&self) -> (r: Self)
        ensures
            r@ == self@,
    {
        LogEntry {
            timestamp: self.timestamp.clone(),
            level: self.level,
            message: self.message.clone(),
        }
    }
}

impl LogEntry {
    /// An informational line, read now.
    pub fn info(message: String) -> (r: LogEntry)
        ensures
            r.level == LogLevel::Info,
            r.message@ == message@,
    {
        LogEntry { timestamp: current_moment(), level: LogLevel::Info, message }
    }

    /// An error line, read now.
    pub fn error(message: String) -> (r: LogEntry)
        ensures
            r.level == LogLevel::Error,
            r.message@ == message@,
    {
        LogEntry { timestamp: current_moment(), level: LogLevel::Error, message }
    }

    /// A warning line, read now.
    pub fn warning(message: String) -> (r: LogEntry)
        ensures
            r.level == LogLevel::Warning,
            r.message@ == message@,
    {
        LogEntry { timestamp: current_moment(), level: LogLevel::Warning, message }
    }
}

/// What the runner is doing.
#[derive(Debug, Clone, Copy, PartialEq, Eq, Structural)]
pub enum RunnerState {
    Stopped,
    Starting,
    Idle,
    Running,
    Error,
}

/// The runner's state and what is known of its present run.
#[derive(Debug)]
pub struct RunnerStatus {
    pub state: RunnerState,
    pub started_at: Option<Moment>,
    pub runner_path: Option<String>,
    pub current_job: Option<String>,
}

pub struct RunnerStatusView {
    pub state: RunnerState,
    pub started_at: Option<MomentView>,
    pub runner_path: Option<Seq<char>>,
    pub current_job: Option<Seq<char>>,
}

/// The view of an optional reading of the clock.
pub open spec fn opt_moment(m: Option<Moment>) -> Option<MomentView> {
    match m {
        Some(t) => Some(t@),
        None => None,
    }
}

impl View for RunnerStatus {
    type V = RunnerStatusView;

    open spec fn view(&self) -> RunnerStatusView {
        RunnerStatusView {
            state: self.state,
            started_at: opt_moment(self.started_at),
            runner_path: opt_text(self.runner_path),
            current_job: opt_text(self.current_job),
        }
    }
}

impl Clone for RunnerStatus {
    fn clone(&self) -> (r: Self)
        ensures
            r@ == self@,
    {
        RunnerStatus {
            state: self.state,
            started_at: match &self.started_at {
                Some(t) => Some(t.clone()),
                None => None,
            },
            runner_path: clone_opt(&self.runner_path),
            current_job: clone_opt(&self.current_job),
        }
    }
}

/// How many lines of output are kept.
pub const OUTPUT_LIMIT: usize = 2000;

/// How grave a line of standard output is, by the words in it: any mention
/// of an error makes it an error, else any mention of a warning a warning.
pub open spec fn level_of(line: Seq<char>) -> LogLevel {
    if text_contains(line, "error"@) || text_contains(line, "Error"@) || text_contains(
        line,
        "ERROR"@,
    ) {
        LogLevel::Error
    } else if text_contains(line, "warn"@) || text_contains(line, "Warn"@) || text_contains(
        line,
        "WARN"@,
    ) {
        LogLevel::Warning
    } else {
        LogLevel::Info
    }
}

/// Decides `level_of`.
pub fn classify_level(line: &str) -> (r: LogLevel)
    ensures
        r == level_of(line@),
{
    if contains(line, "error") || contains(line, "Error") || contains(line, "ERROR") {
        LogLevel::Error
    } else if contains(line, "warn") || contains(line, "Warn") || contains(line, "WARN") {
        LogLevel::Warning
    } else {
        LogLevel::Info
    }
}

/// Whether a line tells of a job that ended badly.
pub open spec fn tells_failure(line: Seq<char>) -> bool {
    ||| text_contains(line, "failed"@)
    ||| text_contains(line, "Failed"@)
    ||| text_contains(line, "Job completed with result: Failed"@)
    ||| text_contains(line, "Process completed with exit code"@)
    ||| text_contains(line, "##[error]"@)
    ||| text_contains(line, "Exiting with return code"@)
}

/// The name of the job that a line announces: what stands behind the first
/// `Running job:`, up to the next one, without the white space around it.
pub open spec fn announced_job(line: Seq<char>) -> Option<Seq<char>> {
    match split_piece(line, "Running job:"@, 1) {
        Some(name) => Some(trimmed(name)),
        None => None,
    }
}

/// The status after the runner printed a line on its standard output: a line
/// that announces a job makes it running; a line that tells of a completed
/// or failed job makes it idle without a job; a line that tells of listening
/// makes it idle.
pub open spec fn after_line(status: RunnerStatusView, line: Seq<char>) -> RunnerStatusView {
    if text_contains(line, "Running job:"@) {
        RunnerStatusView {
            state: RunnerState::Running,
            current_job: match announced_job(line) {
                Some(name) => Some(name),
                None => status.current_job,
            },
            ..status
        }
    } else if text_contains(line, "Job"@) && text_contains(line, "completed"@) {
        RunnerStatusView { state: RunnerState::Idle, current_job: None, ..status }
    } else if text_contains(line, "Listening for Jobs"@) {
        RunnerStatusView { state: RunnerState::Idle, ..status }
    } else if tells_failure(line) {
        RunnerStatusView { state: RunnerState::Idle, current_job: None, ..status }
    } else {
        status
    }
}

/// The output after one more entry: the entry joins at the end, and the
/// oldest entry leaves where that makes more than the limit.
pub open spec fn with_entry(output: Seq<LogEntryView>, entry: LogEntryView) -> Seq<LogEntryView> {
    if output.len() + 1 > 2000 {
        output.push(entry).drop_first()
    } else {
        output.push(entry)
    }
}

/// The views of a list of entries, in the same order.
pub open spec fn log_views(v: Seq<LogEntry>) -> Seq<LogEntryView> {
    Seq::new(v.len(), |i: int| v[i]@)
}

/// The time of day of an entry, as shown.
pub open spec fn time_of_day(seconds: int) -> Seq<char> {
    match utc_formatted(seconds, time_of_day_pattern()) {
        Some(t) => t,
        None => "--:--:--"@,
    }
}

/// The mark of a level in a line of output.
pub open spec fn level_mark(level: LogLevel) -> Seq<char> {
    match level {
        LogLevel::Error => "[ERR]"@,
        LogLevel::Warning => "[WARN]"@,
        LogLevel::Info => "[INFO]"@,
    }
}

/// An entry as a line of output.
pub open spec fn output_line(e: LogEntryView) -> Seq<char> {
    "["@ + time_of_day(e.timestamp.seconds) + "] "@ + level_mark(e.level) + " "@ + e.message
}

/// Whether an entry is an error or a warning.
pub open spec fn is_problem(e: LogEntryView) -> bool {
    e.level == LogLevel::Error || e.level == LogLevel::Warning
}

/// The test that keeps errors and warnings.
pub open spec fn problem_pred() -> spec_fn(LogEntryView) -> bool {
    |e: LogEntryView| is_problem(e)
}

/// Writes `time_of_day`.
fn time_of_day_text(seconds: i64) -> (r: String)
    ensures
        r@ == time_of_day(seconds as int),
{
    match format_utc(seconds, "%H:%M:%S") {
        Some(t) => t,
        None => String::from_str("--:--:--"),
    }
}

/// The runner's manager: its status, what the runner printed, and whether a
/// process is held.
pub struct RunnerManager {
    status: RunnerStatus,
    output_buffer: Vec<LogEntry>,
    has_process: bool,
}

pub struct RunnerManagerView {
    pub status: RunnerStatusView,
    pub output: Seq<LogEntryView>,
    pub has_process: bool,
}

impl View for RunnerManager {
    type V = RunnerManagerView;

    closed spec fn view(&self) -> RunnerManagerView {
        RunnerManagerView {
            status: self.status@,
            output: log_views(self.output_buffer@),
            has_process: self.has_process,
        }
    }
}

impl RunnerManager {
    /// What holds of the manager between any two calls: no more output is
    /// kept than the limit.
    pub open spec fn wf(&self) -> bool {
        self@.output.len() <= 2000
    }

    /// A manager whose runner is stopped and has printed nothing.
    pub fn new() -> (m: RunnerManager)
        ensures
            m.wf(),
            m@ == (RunnerManagerView {
                status: RunnerStatusView {
                    state: RunnerState::Stopped,
                    started_at: None,
                    runner_path: None,
                    current_job: None,
                },
                output: Seq::empty(),
                has_process: false,
            }),
    {
        let m = RunnerManager {
            status: RunnerStatus {
                state: RunnerState::Stopped,
                started_at: None,
                runner_path: None,
                current_job: None,
            },
            output_buffer: Vec::new(),
            has_process: false,
        };
        proof {
            assert(m@.output =~= Seq::empty());
        }
        m
    }

    /// Prepares a start: refused while a process is held; otherwise the
    /// runner is starting at `path` and its output is empty.
    pub fn start(&mut self, path: &str) -> (r: Result<(), String>)
        requires
            old(self).wf(),
        ensures
            final(self).wf(),
            match r {
                Err(m) => old(self)@.has_process && m@ == "Runner is already running"@ && final(self)@ == old(self)@,
                Ok(_) => !old(self)@.has_process && final(self)@ == (RunnerManagerView {
                    status: RunnerStatusView {
                        state: RunnerState::Starting,
                        runner_path: Some(path@),
                        ..old(self)@.status
                    },
                    output: Seq::empty(),
                    has_process: false,
                }),
            },
    {
        if self.has_process {
            return Err(String::from_str("Runner is already running"));
        }
        self.status.state = RunnerState::Starting;
        self.status.runner_path = Some(path.to_owned());
        self.output_buffer = Vec::new();
        proof {
            assert(self@.output =~= Seq::empty());
        }
        Ok(())
    }

    /// The start script is not where it should be: the runner is in error,
    /// and the complaint names the place that was tried.
    pub fn start_script_missing(&mut self, script: &str) -> (m: String)
        ensures
            m@ == "run.cmd not found at "@ + script@,
            final(self)@ == (RunnerManagerView {
                status: RunnerStatusView { state: RunnerState::Error, ..old(self)@.status },
                ..old(self)@
            }),
    {
        self.status.state = RunnerState::Error;
        String::from_str("run.cmd not found at ").concat(script)
    }

    /// The process was started: it is held, and the runner is idle since
    /// `now`.
    pub fn started(&mut self, now: Moment)
        ensures
            final(self)@ == (RunnerManagerView {
                status: RunnerStatusView {
                    state: RunnerState::Idle,
                    started_at: Some(now@),
                    ..old(self)@.status
                },
                has_process: true,
                ..old(self)@
            }),
    {
        self.status.state = RunnerState::Idle;
        self.status.started_at = Some(now);
        self.has_process = true;
    }

    /// Keeps an entry, dropping the oldest where the limit is passed.
    fn keep(&mut self, entry: LogEntry)
        requires
            old(self).wf(),
        ensures
            final(self).wf(),
            final(self)@ == (RunnerManagerView {
                output: with_entry(old(self)@.output, entry@),
                ..old(self)@
            }),
    {
        self.output_buffer.push(entry);
        if self.output_buffer.len() > OUTPUT_LIMIT {
            self.output_buffer.remove(0);
        }
        proof {
            assert(self@.output =~= with_entry(old(self)@.output, entry@));
        }
    }

    /// Takes in a line that the runner printed on its standard output: the
    /// status moves as the line says, and the line is kept at the level its
    /// words give it.
    pub fn on_stdout_line(&mut self, line: String)
        requires
            old(self).wf(),
        ensures
            final(self).wf(),
            final(self)@.status == after_line(old(self)@.status, line@),
            final(self)@.has_process == old(self)@.has_process,
            exists|read_at: MomentView|
                final(self)@.output == #[trigger] with_entry(
                    old(self)@.output,
                    LogEntryView { timestamp: read_at, level: level_of(line@), message: line@ },
                ),
    {
        let text = line.as_str();
        if contains(text, "Running job:") {
            self.status.state = RunnerState::Running;
            match piece(text, "Running job:", 1) {
                Some(name) => {
                    self.status.current_job = Some(trim(name.as_str()));
                },
                None => {},
            }
        } else if contains(text, "Job") && contains(text, "completed") {
            self.status.state = RunnerState::Idle;
            self.status.current_job = None;
        } else if contains(text, "Listening for Jobs") {
            self.status.state = RunnerState::Idle;
        } else if contains(text, "failed") || contains(text, "Failed") || contains(
            text,
            "Job completed with result: Failed",
        ) || contains(text, "Process completed with exit code") || contains(text, "##[error]")
            || contains(text, "Exiting with return code") {
            self.status.state = RunnerState::Idle;
            self.status.current_job = None;
        }
        let entry = match classify_level(text) {
            LogLevel::Error => LogEntry::error(line),
            LogLevel::Warning => LogEntry::warning(line),
            LogLevel::Info => LogEntry::info(line),
        };
        self.keep(entry);
        proof {
            assert(final(self)@.output == with_entry(
                old(self)@.output,
                LogEntryView {
                    timestamp: entry@.timestamp,
                    level: level_of(line@),
                    message: line@,
                },
            ));
        }
    }

    /// Takes in a line that the runner printed on its standard error: it is
    /// kept as an error, and the status stays.
    pub fn on_stderr_line(&mut self, line: String)
        requires
            old(self).wf(),
        ensures
            final(self).wf(),
            final(self)@.status == old(self)@.status,
            final(self)@.has_process == old(self)@.has_process,
            exists|read_at: MomentView|
                final(self)@.output == #[trigger] with_entry(
                    old(self)@.output,
                    LogEntryView { timestamp: read_at, level: LogLevel::Error, message: line@ },
                ),
    {
        let entry = LogEntry::error(line);
        self.keep(entry);
        proof {
            assert(final(self)@.output == with_entry(
                old(self)@.output,
                LogEntryView { timestamp: entry@.timestamp, level: LogLevel::Error, message: line@ },
            ));
        }
    }

    /// The process is gone by itself: cleanly, and the runner is stopped
    /// without a job, or in a way that could not be told, and the runner is
    /// in error. Without a process held nothing changes.
    pub fn process_exited(&mut self, cleanly: bool)
        ensures
            !old(self)@.has_process ==> final(self)@ == old(self)@,
            old(self)@.has_process ==> final(self)@ == (RunnerManagerView {
                status: if cleanly {
                    RunnerStatusView {
                        state: RunnerState::Stopped,
                        current_job: None,
                        ..old(self)@.status
                    }
                } else {
                    RunnerStatusView { state: RunnerState::Error, ..old(self)@.status }
                },
                has_process: false,
                ..old(self)@
            }),
    {
        if self.has_process {
            self.has_process = false;
            if cleanly {
                self.status.state = RunnerState::Stopped;
                self.status.current_job = None;
            } else {
                self.status.state = RunnerState::Error;
            }
        }
    }

    /// Whether a process is held and has to be ended before `stop`.
    pub fn is_running(&self) -> (r: bool)
        ensures
            r == self@.has_process,
    {
        self.has_process
    }

    /// The runner is stopped: no process is held, and there is no job.
    pub fn stop(&mut self) -> (r: Result<(), String>)
        ensures
            r is Ok,
            final(self)@ == (RunnerManagerView {
                status: RunnerStatusView {
                    state: RunnerState::Stopped,
                    current_job: None,
                    ..old(self)@.status
                },
                has_process: false,
                ..old(self)@
            }),
    {
        self.has_process = false;
        self.status.state = RunnerState::Stopped;
        self.status.current_job = None;
        Ok(())
    }

    /// The status.
    pub fn get_status(&self) -> (r: RunnerStatus)
        ensures
            r@ == self@.status,
    {
        self.status.clone()
    }

    /// Everything that is kept of the output, oldest first.
    pub fn get_output(&self) -> (r: Vec<LogEntry>)
        ensures
            log_views(r@) == self@.output,
    {
        let mut out: Vec<LogEntry> = Vec::new();
        let mut i: usize = 0;
        while i < self.output_buffer.len()
            invariant
                i <= self.output_buffer.len(),
                out.len() == i,
                forall|k: int| 0 <= k < i ==> (#[trigger] out[k])@ == self.output_buffer[k]@,
            decreases self.output_buffer.len() - i,
        {
            out.push(self.output_buffer[i].clone());
            i = i + 1;
        }
        proof {
            assert(log_views(out@) =~= self@.output);
        }
        out
    }

    /// The output as lines: time of day, level, message.
    pub fn get_output_strings(&self) -> (r: Vec<String>)
        ensures
            r.len() == self@.output.len(),
            forall|k: int| 0 <= k < r.len() ==> (#[trigger] r[k])@ == output_line(self@.output[k]),
    {
        let mut out: Vec<String> = Vec::new();
        let mut i: usize = 0;
        while i < self.output_buffer.len()
            invariant
                i <= self.output_buffer.len(),
                out.len() == i,
                forall|k: int|
                    0 <= k < i ==> (#[trigger] out[k])@ == output_line(self.output_buffer[k]@),
            decreases self.output_buffer.len() - i,
        {
            let e = &self.output_buffer[i];
            let mark = match e.level {
                LogLevel::Error => "[ERR]",
                LogLevel::Warning => "[WARN]",
                LogLevel::Info => "[INFO]",
            };
            let line = String::from_str("[").concat(
                time_of_day_text(e.timestamp.epoch_seconds).as_str(),
            ).concat("] ").concat(mark).concat(" ").concat(e.message.as_str());
            out.push(line);
            i = i + 1;
        }
        out
    }

    /// The errors and warnings among the output, oldest first.
    pub fn get_errors_only(&self) -> (r: Vec<LogEntry>)
        ensures
            log_views(r@) == self@.output.filter(problem_pred()),
    {
        let mut out: Vec<LogEntry> = Vec::new();
        let mut i: usize = 0;
        proof {
            assert(self@.output.take(0) =~= Seq::empty());
            assert(log_views(out@) =~= Seq::empty());
            Seq::<LogEntryView>::empty().lemma_filter_len(problem_pred());
            assert(Seq::<LogEntryView>::empty().filter(problem_pred()) =~= Seq::empty());
        }
        while i < self.output_buffer.len()
            invariant
                i <= self.output_buffer.len(),
                log_views(out@) == self@.output.take(i as int).filter(problem_pred()),
            decreases self.output_buffer.len() - i,
        {
            let e = &self.output_buffer[i];
            proof {
                let seen = self@.output.take(i as int);
                assert(self@.output.take(i + 1) =~= seen.push(e@));
                seen.lemma_filter_push(e@, problem_pred());
            }
            let wanted = match e.level {
                LogLevel::Error => true,
                LogLevel::Warning => true,
                LogLevel::Info => false,
            };
            if wanted {
                let ghost before = out@;
                let copy = e.clone();
                out.push(copy);
                proof {
                    assert(log_views(out@) =~= log_views(before).push(copy@));
                }
            }
            i = i + 1;
        }
        proof {
            assert(self@.output.take(i as int) =~= self@.output);
        }
        out
    }

    /// Forgets the output.
    pub fn clear_output(&mut self)
        ensures
            final(self).wf(),
            final(self)@ == (RunnerManagerView { output: Seq::empty(), ..old(self)@ }),
    {
        self.output_buffer = Vec::new();
        proof {
            assert(self@.output =~= Seq::empty());
        }
    }

    /// Brings the status in line with what GitHub reports: a runner that
    /// counts as running while GitHub says its job is completed becomes idle
    /// without a job. Anything else changes nothing.
    pub fn sync_with_github(&mut self, github_status: &str, _github_conclusion: Option<&str>)
        ensures
            final(self)@ == (if old(self)@.status.state == RunnerState::Running && github_status@
                == "completed"@ {
                RunnerManagerView {
                    status: RunnerStatusView {
                        state: RunnerState::Idle,
                        current_job: None,
                        ..old(self)@.status
                    },
                    ..old(self)@
                }
            } else {
                old(self)@
            }),
    {
        if self.status.state == RunnerState::Running && text_eq(github_status, "completed") {
            self.status.state = RunnerState::Idle;
            self.status.current_job = None;
        }
    }

    /// Makes a runner that counts as running idle without a job; any other
    /// state stays.
    pub fn force_reset_status(&mut self)
        ensures
            final(self)@ == (if old(self)@.status.state == RunnerState::Running {
                RunnerManagerView {
                    status: RunnerStatusView {
                        state: RunnerState::Idle,
                        current_job: None,
                        ..old(self)@.status
                    },
                    ..old(self)@
                }
            } else {
                old(self)@
            }),
    {
        if self.status.state == RunnerState::Running {
            self.status.state = RunnerState::Idle;
            self.status.current_job = None;
        }
    }
}

/// Lines joined by line breaks.
pub open spec fn joined(lines: Seq<Seq<char>>) -> Seq<char>
    decreases lines.len(),
{
    if lines.len() == 0 {
        Seq::empty()
    } else if lines.len() == 1 {
        lines[0]
    } else {
        joined(lines.drop_last()) + "\n"@ + lines.last()
    }
}

/// The views of a list of lines, in the same order.
pub open spec fn line_views(v: Seq<String>) -> Seq<Seq<char>> {
    Seq::new(v.len(), |i: int| v[i]@)
}

/// Builds `joined`.
fn join_lines(lines: &Vec<String>) -> (r: String)
    ensures
        r@ == joined(line_views(lines@)),
{
    let mut out = String::from_str("");
    let mut i: usize = 0;
    proof {
        reveal_strlit("");
        assert(line_views(lines@).take(0) =~= Seq::empty());
    }
    while i < lines.len()
        invariant
            i <= lines.len(),
            out@ == joined(line_views(lines@).take(i as int)),
        decreases lines.len() - i,
    {
        proof {
            let all = line_views(lines@);
            assert(all.take(i + 1).drop_last() =~= all.take(i as int));
            assert(all.take(i + 1).last() == lines[i as int]@);
            if i == 0 {
                assert(out@ + lines[i as int]@ =~= lines[i as int]@);
            }
        }
        if i > 0 {
            out.append("\n");
        }
        out.append(lines[i].as_str());
        i = i + 1;
    }
    proof {
        assert(line_views(lines@).take(i as int) =~= line_views(lines@));
    }
    out
}

/// A date and time as the report writes it.
pub open spec fn stamp(seconds: int) -> Seq<char> {
    match utc_formatted(seconds, stamp_pattern()) {
        Some(t) => t,
        None => "N/A"@,
    }
}

/// Writes `stamp`.
fn stamp_text(seconds: i64) -> (r: String)
    ensures
        r@ == stamp(seconds as int),
{
    match format_utc(seconds, "%Y-%m-%dT%H:%M:%SZ") {
        Some(t) => t,
        None => String::from_str("N/A"),
    }
}

/// The name of a state.
pub open spec fn state_name(state: RunnerState) -> Seq<char> {
    match state {
        RunnerState::Stopped => "Stopped"@,
        RunnerState::Starting => "Starting"@,
        RunnerState::Idle => "Idle"@,
        RunnerState::Running => "Running"@,
        RunnerState::Error => "Error"@,
    }
}

/// A problem as the report lists it.
pub open spec fn problem_line(e: LogEntryView) -> Seq<char> {
    "["@ + time_of_day(e.timestamp.seconds) + "] "@ + e.message
}

/// The name of a level in the report's log.
pub open spec fn level_name(level: LogLevel) -> Seq<char> {
    match level {
        LogLevel::Error => "ERR"@,
        LogLevel::Warning => "WARN"@,
        LogLevel::Info => "INFO"@,
    }
}

/// An entry as the report's log shows it.
pub open spec fn recent_line(e: LogEntryView) -> Seq<char> {
    "["@ + time_of_day(e.timestamp.seconds) + "] "@ + level_name(e.level) + " "@ + e.message
}

/// How many entries the report's log shows.
pub const RECENT_LIMIT: usize = 50;

/// The last 50 entries of the output, or all where there are fewer.
pub open spec fn recent(output: Seq<LogEntryView>) -> Seq<LogEntryView> {
    if output.len() > 50 {
        output.subrange(output.len() - 50, output.len() as int)
    } else {
        output
    }
}

/// The report's list of problems: `None` where there are none.
pub open spec fn problems_section(output: Seq<LogEntryView>) -> Seq<char> {
    let problems = output.filter(problem_pred());
    if problems.len() == 0 {
        "None"@
    } else {
        joined(Seq::new(problems.len(), |i: int| problem_line(problems[i])))
    }
}

/// The report on a runner, written at `now`.
pub open spec fn diagnostics_report(m: RunnerManagerView, now: int) -> Seq<char> {
    "=== Birch Host Diagnostics Report ===\nGenerated: "@ + stamp(now)
        + "\nTool Version: 0.1.0\n\n[RUNNER STATUS]\nState: "@ + state_name(m.status.state)
        + "\nStarted At: "@ + (match m.status.started_at {
        Some(t) => stamp(t.seconds),
        None => "N/A"@,
    }) + "\nRunner Path: "@ + (match m.status.runner_path {
        Some(p) => p,
        None => "N/A"@,
    }) + "\nCurrent Job: "@ + (match m.status.current_job {
        Some(j) => j,
        None => "None"@,
    }) + "\n\n[ERRORS]\n"@ + problems_section(m.output) + "\n\n[RECENT LOG]\n"@ + joined(
        Seq::new(recent(m.output).len(), |i: int| recent_line(recent(m.output)[i])),
    ) + "\n"@
}

impl RunnerManager {
    /// Writes the report as of `now_seconds`.
    pub fn diagnostics_report_at(&self, now_seconds: i64) -> (r: String)
        ensures
            r@ == diagnostics_report(self@, now_seconds as int),
    {
        let problems = self.get_errors_only();
        let errors_section = if problems.len() == 0 {
            String::from_str("None")
        } else {
            let mut lines: Vec<String> = Vec::new();
            let mut i: usize = 0;
            while i < problems.len()
                invariant
                    i <= problems.len(),
                    lines.len() == i,
                    forall|k: int|
                        0 <= k < i ==> (#[trigger] lines[k])@ == problem_line(problems[k]@),
                decreases problems.len() - i,
            {
                let e = &problems[i];
                lines.push(
                    String::from_str("[").concat(
                        time_of_day_text(e.timestamp.epoch_seconds).as_str(),
                    ).concat("] ").concat(e.message.as_str()),
                );
                i = i + 1;
            }
            proof {
                let p = self@.output.filter(problem_pred());
                assert(line_views(lines@) =~= Seq::new(p.len(), |i: int| problem_line(p[i])));
            }
            join_lines(&lines)
        };
        let n = self.output_buffer.len();
        let first = if n > RECENT_LIMIT {
            n - RECENT_LIMIT
        } else {
            0
        };
        let mut recent_lines: Vec<String> = Vec::new();
        let mut i: usize = first;
        while i < n
            invariant
                first <= i <= n,
                n == self.output_buffer.len(),
                recent_lines.len() == i - first,
                forall|k: int|
                    0 <= k < i - first ==> (#[trigger] recent_lines[k])@ == recent_line(
                        self.output_buffer[first + k]@,
                    ),
            decreases n - i,
        {
            let e = &self.output_buffer[i];
            let name = match e.level {
                LogLevel::Error => "ERR",
                LogLevel::Warning => "WARN",
                LogLevel::Info => "INFO",
            };
            recent_lines.push(
                String::from_str("[").concat(
                    time_of_day_text(e.timestamp.epoch_seconds).as_str(),
                ).concat("] ").concat(name).concat(" ").concat(e.message.as_str()),
            );
            i = i + 1;
        }
        proof {
            let shown = recent(self@.output);
            assert(line_views(recent_lines@) =~= Seq::new(
                shown.len(),
                |i: int| recent_line(shown[i]),
            ));
        }
        let state = match self.status.state {
            RunnerState::Stopped => "Stopped",
            RunnerState::Starting => "Starting",
            RunnerState::Idle => "Idle",
            RunnerState::Running => "Running",
            RunnerState::Error => "Error",
        };
        let started = match &self.status.started_at {
            Some(t) => stamp_text(t.epoch_seconds),
            None => String::from_str("N/A"),
        };
        let path = match &self.status.runner_path {
            Some(p) => p.clone(),
            None => String::from_str("N/A"),
        };
        let job = match &self.status.current_job {
            Some(j) => j.clone(),
            None => String::from_str("None"),
        };
        String::from_str("=== Birch Host Diagnostics Report ===\nGenerated: ").concat(
            stamp_text(now_seconds).as_str(),
        ).concat("\nTool Version: 0.1.0\n\n[RUNNER STATUS]\nState: ").concat(state).concat(
            "\nStarted At: ",
        ).concat(started.as_str()).concat("\nRunner Path: ").concat(path.as_str()).concat(
            "\nCurrent Job: ",
        ).concat(job.as_str()).concat("\n\n[ERRORS]\n").concat(errors_section.as_str()).concat(
            "\n\n[RECENT LOG]\n",
        ).concat(join_lines(&recent_lines).as_str()).concat("\n")
    }

    /// Writes the report as of now.
    pub fn generate_diagnostics_report(&self) -> (r: String)
        ensures
            exists|now: int| r@ == #[trigger] diagnostics_report(self@, now),
    {
        let now = current_moment();
        let r = self.diagnostics_report_at(now.epoch_seconds);
        proof {
            assert(r@ == diagnostics_report(self@, now.epoch_seconds as int));
        }
        r
    }
}

} // verus!
