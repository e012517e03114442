//! The life of a daemon: whether the one on record is running, what to clear
//! away when it is not, and how a new one is started.

use crate::addressing::{DaemonPaths, DaemonPathsView};
use crate::invocation::{Command, CommandView};
use crate::paths::{join, joined};
use crate::text::{concat, same_text, trim_chars, trimmed, to_chars};
use vstd::prelude::*;

verus! {

/// Whether `c` is a decimal digit.
pub open spec fn is_digit(c: char) -> bool {
    '0' <= c <= '9'
}

/// Whether `s` is made of decimal digits.
pub open spec fn all_digits(s: Seq<char>) -> bool {
    forall|i: int| 0 <= i < s.len() ==> is_digit(#[trigger] s[i])
}

/// The number that the decimal digits `digits` write.
pub open spec fn decimal(digits: Seq<char>) -> int
    decreases digits.len(),
{
    if digits.len() == 0 {
        0
    } else {
        decimal(digits.drop_last()) * 10 + (digits.last() as int - '0' as int)
    }
}

/// The integer of 32 bits that `s` writes: an optional `+` or `-`, then one
/// or more decimal digits and nothing else, with a value that fits.
pub open spec fn parse_i32(s: Seq<char>) -> Option<i32> {
    let negative = s.len() > 0 && s[0] == '-';
    let signed = s.len() > 0 && (s[0] == '-' || s[0] == '+');
    let digits = if signed {
        s.drop_first()
    } else {
        s
    };
    let value = if negative {
        -decimal(digits)
    } else {
        decimal(digits)
    };
    if digits.len() > 0 && all_digits(digits) && i32::MIN <= value <= i32::MAX {
        Some(value as i32)
    } else {
        None
    }
}

/// Digits that follow only add to the number written so far.
pub proof fn lemma_decimal_grows(digits: Seq<char>, k: int)
    requires
        all_digits(digits),
        0 <= k <= digits.len(),
    ensures
        0 <= decimal(digits.take(k)) <= decimal(digits),
    decreases digits.len() - k,
{
    lemma_decimal_not_negative(digits.take(k));
    if k < digits.len() {
        lemma_decimal_grows(digits, k + 1);
        assert(digits.take(k + 1).drop_last() == digits.take(k));
        assert(is_digit(digits[k]));
    } else {
        assert(digits.take(k) == digits);
    }
}

/// Decimal digits write no negative number.
pub proof fn lemma_decimal_not_negative(digits: Seq<char>)
    requires
        all_digits(digits),
    ensures
        0 <= decimal(digits),
    decreases digits.len(),
{
    if digits.len() > 0 {
        lemma_decimal_not_negative(digits.drop_last());
        assert(is_digit(digits.last()));
    }
}

/// The process id that a pid file holds: its text, without the white space
/// around it, read as an integer of 32 bits.
#[verifier::loop_isolation(false)]
pub fn parse_pid(text: &str) -> (pid: Option<i32>)
    ensures
        pid == parse_i32(trimmed(text@)),
{
    let chars = trim_chars(text);
    let negative = chars.len() > 0 && chars[0] == '-';
    let start: usize = if chars.len() > 0 && (chars[0] == '-' || chars[0] == '+') {
        1
    } else {
        0
    };
    let ghost digits = chars@.skip(start as int);
    assert(chars@.skip(0) == chars@);
    assert(chars@.skip(1) == chars@.drop_first());
    if start == chars.len() {
        return None;
    }
    let mut magnitude: i64 = 0;
    let mut i: usize = start;
    assert(digits.take(0) == Seq::<char>::empty());
    while i < chars.len()
        invariant
            start <= i <= chars.len(),
            digits == chars@.skip(start as int),
            all_digits(digits.take(i - start)),
            magnitude == decimal(digits.take(i - start)),
            0 <= magnitude <= 0x8000_0000,
        decreases chars.len() - i,
    {
        let c = chars[i];
        assert(digits[i - start] == c);
        assert(digits.take(i - start + 1).drop_last() == digits.take(i - start));
        if !('0' <= c && c <= '9') {
            return None;
        }
        magnitude = magnitude * 10 + ((c as u32 - 48) as i64);
        if magnitude > 0x8000_0000 {
            proof {
                if all_digits(digits) {
                    lemma_decimal_grows(digits, i - start + 1);
                }
            }
            return None;
        }
        i += 1;
    }
    assert(digits.take(i - start) == digits);
    if negative {
        Some((-magnitude) as i32)
    } else if magnitude <= 0x7fff_ffff {
        Some(magnitude as i32)
    } else {
        None
    }
}

/// The process id on record: the number that the pid file holds, where the
/// file is there and the number is above 0. A process id is a positive
/// number; 0 and the numbers below it name no process.
pub open spec fn pid_on_record(pid_file: Option<Seq<char>>) -> Option<i32> {
    match pid_file {
        Some(text) => match parse_i32(trimmed(text)) {
            Some(pid) => if pid > 0 {
                Some(pid)
            } else {
                None
            },
            None => None,
        },
        None => None,
    }
}

/// The process to ask after: the one whose id the pid file holds. There is
/// none where the file is missing (`None`), empty, or holds anything but an
/// integer above 0.
pub fn probe_target(pid_file: Option<&str>) -> (pid: Option<i32>)
    ensures
        pid == pid_on_record(pid_file.deep_view()),
{
    match pid_file {
        Some(text) => match parse_pid(text) {
            Some(pid) => if pid > 0 {
                Some(pid)
            } else {
                None
            },
            None => None,
        },
        None => None,
    }
}

/// What a probe says of the process: 0 where it exists. Sending signal 0
/// gives 0 where it reached the process, and fails for want of permission
/// only where the process is there; both count as 0. Anything else is
/// handed on as it is.
pub open spec fn probe_outcome(returned: i32, not_permitted: bool) -> i32 {
    if returned == 0 || not_permitted {
        0i32
    } else {
        returned
    }
}

/// What a probe says of the process. `returned` is what sending signal 0
/// gave, and `not_permitted` says whether it failed because the caller may
/// not signal the process.
pub fn probe_result(returned: i32, not_permitted: bool) -> (result: i32)
    ensures
        result == probe_outcome(returned, not_permitted),
{
    if returned == 0 || not_permitted {
        0
    } else {
        returned
    }
}

/// Whether the daemon on record runs: the pid file holds a process id, and
/// the probe of that process was made and gave 0.
pub open spec fn alive(pid_file: Option<Seq<char>>, signal: Option<i32>) -> bool {
    pid_on_record(pid_file) is Some && signal == Some(0i32)
}

/// Whether the daemon on record runs. `pid_file` holds the text of the pid
/// file, where there is one; `signal` is what the probe of the process of
/// `probe_target(pid_file)` gave, as `probe_result` tells it (0 where the
/// process exists), where a probe was made.
pub fn is_daemon_alive(pid_file: Option<&str>, signal: Option<i32>) -> (running: bool)
    ensures
        running == alive(pid_file.deep_view(), signal),
{
    match probe_target(pid_file) {
        Some(_) => match signal {
            Some(result) => result == 0,
            None => false,
        },
        None => false,
    }
}

/// A daemon counts as running only with a process id on record and a process
/// that exists: it does not run without a pid file, with one that is empty,
/// that holds no number or a number that is no process id, or with a process
/// that the probe did not find. Where it runs, the pid file holds a number
/// above 0 and the probe gave 0.
pub proof fn lemma_liveness(pid_file: Option<Seq<char>>, signal: Option<i32>)
    ensures
        pid_file is None ==> !alive(pid_file, signal),
        pid_file == Some(Seq::<char>::empty()) ==> !alive(pid_file, signal),
        (pid_file matches Some(text) && parse_i32(trimmed(text)) is None) ==> !alive(
            pid_file,
            signal,
        ),
        (pid_file matches Some(text) && parse_i32(trimmed(text)) matches Some(pid) && pid <= 0)
            ==> !alive(pid_file, signal),
        signal != Some(0i32) ==> !alive(pid_file, signal),
        alive(pid_file, signal) ==> (pid_file matches Some(text) && parse_i32(
            trimmed(text),
        ) matches Some(pid) && pid > 0 && signal == Some(0i32)),
        alive(pid_file, signal) <==> pid_on_record(pid_file) is Some && signal == Some(0i32),
{
    assert(trimmed(Seq::<char>::empty()) == Seq::<char>::empty());
}

/// A process that exists counts as there whether or not the caller may
/// signal it, and one that the probe did not find does not.
pub proof fn lemma_probe(returned: i32, not_permitted: bool)
    ensures
        returned == 0 ==> probe_outcome(returned, not_permitted) == 0,
        not_permitted ==> probe_outcome(returned, not_permitted) == 0,
        returned != 0 && !not_permitted ==> probe_outcome(returned, not_permitted) != 0,
{
}

/// The files to remove before a new daemon starts: the socket and the pid
/// file of the old one. Whether they can be removed does not matter.
pub fn clean_stale_files(paths: &DaemonPaths) -> (files: Vec<String>)
    ensures
        files.deep_view() == seq![paths@.socket, paths@.pid],
{
    let mut files: Vec<String> = Vec::new();
    files.push(paths.socket.clone());
    files.push(paths.pid.clone());
    assert(files.deep_view() =~= seq![paths@.socket, paths@.pid]);
    files
}

/// Whether the daemon is started for development: the toggle is set to `1`
/// or to `true`.
pub fn is_dev_mode(toggle: Option<&str>) -> (dev: bool)
    ensures
        dev == (toggle.deep_view() == Some("1"@) || toggle.deep_view() == Some("true"@)),
{
    match toggle {
        Some(value) => same_text(value, "1") || same_text(value, "true"),
        None => false,
    }
}

/// Which part of setting up the daemon's directory failed.
#[derive(Clone, Copy, Debug, PartialEq, Eq, Structural)]
pub enum SetupStep {
    CreateDir,
    WriteMetadata,
    OpenLog,
}

/// Why no daemon was started.
#[derive(Debug, PartialEq, Eq)]
pub enum SpawnError {
    /// No script of the daemon was found, and none is configured.
    ScriptNotFound,
    /// The daemon's directory or a file in it could not be made.
    DaemonDir { step: SetupStep, cause: String },
    /// The process could not be launched.
    Launch { cause: String },
}

/// What a `SpawnError` stands for.
pub enum SpawnErrorView {
    ScriptNotFound,
    DaemonDir { step: SetupStep, cause: Seq<char> },
    Launch { cause: Seq<char> },
}

impl View for SpawnError {
    type V = SpawnErrorView;

    open spec fn view(&self) -> SpawnErrorView {
        match self {
            SpawnError::ScriptNotFound => SpawnErrorView::ScriptNotFound,
            SpawnError::DaemonDir { step, cause } => SpawnErrorView::DaemonDir {
                step: *step,
                cause: cause@,
            },
            SpawnError::Launch { cause } => SpawnErrorView::Launch { cause: cause@ },
        }
    }
}

/// The report of a failed start.
pub open spec fn spawn_error_message(error: SpawnErrorView) -> Seq<char> {
    match error {
        SpawnErrorView::ScriptNotFound => "Cannot find daemon script. Set MAX_DAEMON env var."@,
        SpawnErrorView::DaemonDir { step, cause } => match step {
            SetupStep::CreateDir => "Failed to create daemon dir: "@ + cause,
            SetupStep::WriteMetadata => "Failed to write project.json: "@ + cause,
            SetupStep::OpenLog => "Failed to create daemon log: "@ + cause,
        },
        SpawnErrorView::Launch { cause } => "Failed to spawn daemon: "@ + cause,
    }
}

impl SpawnError {
    /// The report of the failure, for the user.
    pub fn message(&self) -> (text: String)
        ensures
            text@ == spawn_error_message(self@),
    {
        match self {
            SpawnError::ScriptNotFound => {
                "Cannot find daemon script. Set MAX_DAEMON env var.".to_owned()
            },
            SpawnError::DaemonDir { step, cause } => match step {
                SetupStep::CreateDir => concat("Failed to create daemon dir: ", cause.as_str()),
                SetupStep::WriteMetadata => concat(
                    "Failed to write project.json: ",
                    cause.as_str(),
                ),
                SetupStep::OpenLog => concat("Failed to create daemon log: ", cause.as_str()),
            },
            SpawnError::Launch { cause } => concat("Failed to spawn daemon: ", cause.as_str()),
        }
    }
}

/// Where the daemon's script may lie, seen from the directory of the
/// client's executable: first in a development tree, then in a release.
/// Each is to be resolved and looked for before it is used.
pub fn script_candidates(exe_dir: &str) -> (candidates: (String, String))
    ensures
        candidates.0@ == joined(exe_dir@, "packages/cli/src/index.ts"@),
        candidates.1@ == joined(exe_dir@, "../../../src/index.ts"@),
{
    (join(exe_dir, "packages/cli/src/index.ts"), join(exe_dir, "../../../src/index.ts"))
}

/// The script of the daemon: the one of the development tree where it is
/// there, else the one of the release where it is there, else the one that
/// is configured.
pub open spec fn chosen_script(
    development: Option<Seq<char>>,
    release: Option<Seq<char>>,
    configured: Option<Seq<char>>,
) -> Option<Seq<char>> {
    if development is Some {
        development
    } else if release is Some {
        release
    } else {
        configured
    }
}

/// The script of the daemon. `development` and `release` are the resolved
/// paths of the two candidates, each where it exists; `configured` is the
/// path that the environment names, where it names one.
pub fn find_daemon_script(
    development: Option<String>,
    release: Option<String>,
    configured: Option<String>,
) -> (script: Result<String, SpawnError>)
    ensures
        match script {
            Ok(path) => chosen_script(
                development.deep_view(),
                release.deep_view(),
                configured.deep_view(),
            ) == Some(path@),
            Err(error) => error@ == SpawnErrorView::ScriptNotFound && chosen_script(
                development.deep_view(),
                release.deep_view(),
                configured.deep_view(),
            ) is None,
        },
{
    match development {
        Some(path) => Ok(path),
        None => match release {
            Some(path) => Ok(path),
            None => match configured {
                Some(path) => Ok(path),
                None => Err(SpawnError::ScriptNotFound),
            },
        },
    }
}

/// A character as it stands inside a JSON string: a backslash before a
/// backslash and before a double quote.
pub open spec fn escaped(c: char) -> Seq<char> {
    if c == '\\' || c == '"' {
        seq!['\\', c]
    } else {
        seq![c]
    }
}

/// `s` with each character escaped.
pub open spec fn escape(s: Seq<char>) -> Seq<char>
    decreases s.len(),
{
    if s.len() == 0 {
        Seq::empty()
    } else {
        escape(s.drop_last()) + escaped(s.last())
    }
}

/// The record that tells which project a daemon serves.
pub open spec fn metadata(root: Seq<char>) -> Seq<char> {
    "{\"root\":\""@ + escape(root) + "\"}"@
}

/// The record that tells which project a daemon serves: a JSON object with
/// the project root as its member `root`.
pub fn project_json(project_root: &str) -> (text: String)
    ensures
        text@ == metadata(project_root@),
{
    let chars = to_chars(project_root);
    let mut text = "{\"root\":\"".to_owned();
    let mut i: usize = 0;
    assert(escape(chars@.take(0)) == Seq::<char>::empty());
    while i < chars.len()
        invariant
            i <= chars.len(),
            text@ == "{\"root\":\""@ + escape(chars@.take(i as int)),
        decreases chars.len() - i,
    {
        let c = chars[i];
        assert(chars@.take(i + 1).drop_last() == chars@.take(i as int));
        if c == '\\' || c == '"' {
            text.push('\\');
        }
        text.push(c);
        i += 1;
    }
    assert(chars@.take(i as int) == chars@);
    concat(text.as_str(), "\"}")
}

/// One thing to do to start a daemon.
#[derive(Debug, PartialEq, Eq)]
pub enum SpawnStep {
    /// Make the directory, and those above it, where they are missing.
    CreateDir { path: String },
    /// Write the file anew.
    WriteFile { path: String, contents: String },
    /// Write the line to standard error. This cannot fail.
    Announce { text: String },
    /// Open the file to append to it, and make it where it is missing.
    OpenLog { path: String },
    /// Start the command in the directory `working_dir`, without waiting for
    /// it: no standard input, no standard output, standard error to the log.
    Launch { command: Command, working_dir: String },
}

/// What a `SpawnStep` stands for.
pub enum SpawnStepView {
    CreateDir { path: Seq<char> },
    WriteFile { path: Seq<char>, contents: Seq<char> },
    Announce { text: Seq<char> },
    OpenLog { path: Seq<char> },
    Launch { command: CommandView, working_dir: Seq<char> },
}

impl DeepView for SpawnStep {
    type V = SpawnStepView;

    open spec fn deep_view(&self) -> SpawnStepView {
        match self {
            SpawnStep::CreateDir { path } => SpawnStepView::CreateDir { path: path@ },
            SpawnStep::WriteFile { path, contents } => SpawnStepView::WriteFile {
                path: path@,
                contents: contents@,
            },
            SpawnStep::Announce { text } => SpawnStepView::Announce { text: text@ },
            SpawnStep::OpenLog { path } => SpawnStepView::OpenLog { path: path@ },
            SpawnStep::Launch { command, working_dir } => SpawnStepView::Launch {
                command: command@,
                working_dir: working_dir@,
            },
        }
    }
}

impl View for SpawnStep {
    type V = SpawnStepView;

    open spec fn view(&self) -> SpawnStepView {
        self.deep_view()
    }
}

/// The error that a failed step stands for; a line for the user gives none.
pub open spec fn step_failure(step: SpawnStepView, cause: Seq<char>) -> Option<SpawnErrorView> {
    match step {
        SpawnStepView::CreateDir { .. } => Some(
            SpawnErrorView::DaemonDir { step: SetupStep::CreateDir, cause },
        ),
        SpawnStepView::WriteFile { .. } => Some(
            SpawnErrorView::DaemonDir { step: SetupStep::WriteMetadata, cause },
        ),
        SpawnStepView::Announce { .. } => None,
        SpawnStepView::OpenLog { .. } => Some(
            SpawnErrorView::DaemonDir { step: SetupStep::OpenLog, cause },
        ),
        SpawnStepView::Launch { .. } => Some(SpawnErrorView::Launch { cause }),
    }
}

impl SpawnStep {
    /// The error to report where this step failed because of `cause`.
    pub fn failure(&self, cause: &str) -> (error: Option<SpawnError>)
        ensures
            error.is_some() == step_failure(self@, cause@).is_some(),
            error matches Some(e) ==> step_failure(self@, cause@) == Some(e@),
    {
        match self {
            SpawnStep::CreateDir { .. } => Some(
                SpawnError::DaemonDir { step: SetupStep::CreateDir, cause: cause.to_owned() },
            ),
            SpawnStep::WriteFile { .. } => Some(
                SpawnError::DaemonDir { step: SetupStep::WriteMetadata, cause: cause.to_owned() },
            ),
            SpawnStep::Announce { .. } => None,
            SpawnStep::OpenLog { .. } => Some(
                SpawnError::DaemonDir { step: SetupStep::OpenLog, cause: cause.to_owned() },
            ),
            SpawnStep::Launch { .. } => Some(SpawnError::Launch { cause: cause.to_owned() }),
        }
    }
}

/// The command that runs the daemon for the project at `root`: the runtime
/// watches the script in development and runs it otherwise, and the script
/// is told that it is the daemon, and of which project.
pub open spec fn daemon_command(script: Seq<char>, root: Seq<char>, dev: bool) -> CommandView {
    CommandView {
        program: "bun"@,
        args: seq![
            if dev {
                "--watch"@
            } else {
                "run"@
            },
            script,
            "--daemonized"@,
            "--project-root"@,
            root,
        ],
    }
}

/// How the daemon of the project at `root` is started: its directory is
/// made, the record of the project is written into it, in development the
/// user is told, the log is opened, and the daemon is launched in the
/// project.
pub open spec fn spawn_steps(
    root: Seq<char>,
    paths: DaemonPathsView,
    script: Seq<char>,
    dev: bool,
) -> Seq<SpawnStepView> {
    let setup = seq![
        SpawnStepView::CreateDir { path: paths.dir },
        SpawnStepView::WriteFile {
            path: joined(paths.dir, "project.json"@),
            contents: metadata(root),
        },
    ];
    let notice = if dev {
        seq![SpawnStepView::Announce { text: "\x1b[33mStarting daemon in watch mode\x1b[0m"@ }]
    } else {
        Seq::empty()
    };
    let launch = seq![
        SpawnStepView::OpenLog { path: paths.log },
        SpawnStepView::Launch { command: daemon_command(script, root, dev), working_dir: root },
    ];
    setup + notice + launch
}

/// What to do to start the daemon of the project at `project_root`, in this
/// order, with the script that was found; the first step that fails ends
/// the start. Where no script was found that error comes back, and nothing
/// is to be done.
pub fn spawn(
    project_root: &str,
    paths: &DaemonPaths,
    script: Result<String, SpawnError>,
    dev: bool,
) -> (steps: Result<Vec<SpawnStep>, SpawnError>)
    ensures
        match script {
            Ok(path) => steps matches Ok(steps) && steps.deep_view() == spawn_steps(
                project_root@,
                paths@,
                path@,
                dev,
            ),
            Err(error) => steps matches Err(reported) && reported@ == error@,
        },
{
    let script = match script {
        Ok(path) => path,
        Err(error) => { return Err(error); },
    };
    let mut args: Vec<String> = Vec::new();
    args.push(if dev { "--watch".to_owned() } else { "run".to_owned() });
    args.push(script);
    args.push("--daemonized".to_owned());
    args.push("--project-root".to_owned());
    args.push(project_root.to_owned());
    let command = Command { program: "bun".to_owned(), args };
    assert(command@.args =~= daemon_command(script@, project_root@, dev).args);
    let mut steps: Vec<SpawnStep> = Vec::new();
    steps.push(SpawnStep::CreateDir { path: paths.dir.clone() });
    steps.push(
        SpawnStep::WriteFile {
            path: join(paths.dir.as_str(), "project.json"),
            contents: project_json(project_root),
        },
    );
    if dev {
        steps.push(
            SpawnStep::Announce { text: "\x1b[33mStarting daemon in watch mode\x1b[0m".to_owned() },
        );
    }
    steps.push(SpawnStep::OpenLog { path: paths.log.clone() });
    steps.push(SpawnStep::Launch { command, working_dir: project_root.to_owned() });
    assert(steps.deep_view() =~= spawn_steps(project_root@, paths@, script@, dev));
    Ok(steps)
}

/// How far the start of a daemon has come.
#[derive(Debug, PartialEq, Eq)]
pub enum SpawnProgress {
    /// Do the step with this index next.
    Next(usize),
    /// Every step is done: the daemon was launched.
    Started,
    /// A step failed. Nothing more is done.
    Failed(SpawnError),
}

/// What a `SpawnProgress` stands for.
pub enum SpawnProgressView {
    Next(int),
    Started,
    Failed(SpawnErrorView),
}

impl View for SpawnProgress {
    type V = SpawnProgressView;

    open spec fn view(&self) -> SpawnProgressView {
        match self {
            SpawnProgress::Next(index) => SpawnProgressView::Next(*index as int),
            SpawnProgress::Started => SpawnProgressView::Started,
            SpawnProgress::Failed(error) => SpawnProgressView::Failed(error@),
        }
    }
}

/// Where the start stands after the step `done` ended with `failure`, the
/// cause where it failed and nothing where it went well. A step that failed
/// ends the start with its error, and no later step is done; only a line
/// for the user is passed over when it cannot be written. Else the next
/// step follows, and after the last one the daemon is started.
pub open spec fn spawn_progress(
    steps: Seq<SpawnStepView>,
    done: int,
    failure: Option<Seq<char>>,
) -> SpawnProgressView {
    if 0 <= done < steps.len() && failure is Some && step_failure(steps[done], failure->0)
        is Some {
        SpawnProgressView::Failed(step_failure(steps[done], failure->0)->0)
    } else if 0 <= done && done + 1 < steps.len() {
        SpawnProgressView::Next(done + 1)
    } else {
        SpawnProgressView::Started
    }
}

/// The cause of a failure, where there is one.
pub open spec fn cause_of(outcome: Result<(), String>) -> Option<Seq<char>> {
    match outcome {
        Ok(_) => None,
        Err(cause) => Some(cause@),
    }
}

/// Where the start stands after the step `steps[done]` ended with
/// `outcome`.
pub fn after_spawn_step(steps: &Vec<SpawnStep>, done: usize, outcome: Result<(), String>) -> (progress:
    SpawnProgress)
    ensures
        progress@ == spawn_progress(steps.deep_view(), done as int, cause_of(outcome)),
{
    if done < steps.len() {
        match &outcome {
            Err(cause) => match steps[done].failure(cause.as_str()) {
                Some(error) => { return SpawnProgress::Failed(error); },
                None => {},
            },
            Ok(_) => {},
        }
        if done + 1 < steps.len() {
            return SpawnProgress::Next(done + 1);
        }
    }
    SpawnProgress::Started
}

/// Where a start ends that begins with the step `from`, where `failures[i]`
/// is what the step `i` ends with when it is done: the cause where it fails.
pub open spec fn spawn_outcome(
    steps: Seq<SpawnStepView>,
    failures: Seq<Option<Seq<char>>>,
    from: int,
) -> SpawnProgressView
    decreases steps.len() - from,
{
    if 0 <= from < steps.len() && from < failures.len() {
        match spawn_progress(steps, from, failures[from]) {
            SpawnProgressView::Next(_) => spawn_outcome(steps, failures, from + 1),
            end => end,
        }
    } else {
        SpawnProgressView::Started
    }
}

/// Whether the step `i` fails with an error.
pub open spec fn step_fails(
    steps: Seq<SpawnStepView>,
    failures: Seq<Option<Seq<char>>>,
    i: int,
) -> bool {
    0 <= i < steps.len() && i < failures.len() && failures[i] is Some && step_failure(
        steps[i],
        failures[i]->0,
    ) is Some
}

/// The first step that fails ends the start: the start fails with the error
/// of that step, whatever the steps after it would have done, and so none
/// of them is done. Where no step fails the daemon is started.
pub proof fn lemma_first_failure_ends_start(
    steps: Seq<SpawnStepView>,
    failures: Seq<Option<Seq<char>>>,
    from: int,
    failed: int,
)
    requires
        0 <= from <= failed,
        steps.len() == failures.len(),
        forall|i: int| from <= i < failed ==> !step_fails(steps, failures, i),
        failed < steps.len() ==> step_fails(steps, failures, failed),
        failed >= steps.len() ==> failed == steps.len(),
    ensures
        failed < steps.len() ==> spawn_outcome(steps, failures, from) == SpawnProgressView::Failed(
            step_failure(steps[failed], failures[failed]->0)->0,
        ),
        failed == steps.len() ==> spawn_outcome(steps, failures, from)
            == SpawnProgressView::Started,
    decreases steps.len() - from,
{
    if from < steps.len() {
        if from < failed {
            assert(!step_fails(steps, failures, from));
            lemma_first_failure_ends_start(steps, failures, from + 1, failed);
        }
    }
}

} // verus!
