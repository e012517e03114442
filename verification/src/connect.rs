//! Getting a connection to the daemon, as a machine: connect at once; where
//! that fails, start a daemon unless one runs; then try again a bounded
//! number of times, with a pause before each try.

use crate::addressing::DaemonPaths;
use crate::lifecycle::{alive, pid_on_record, probe_target, SpawnError, SpawnErrorView, spawn_error_message};
use crate::text::concat;
use vstd::prelude::*;

verus! {

/// How often a connection is tried after the first try has failed.
pub const MAX_CONNECT_ATTEMPTS: u32 = 20;

/// The pause before each of these tries, in milliseconds.
pub const CONNECT_RETRY_MS: u64 = 50;

/// Where the machine stands.
#[derive(Clone, Copy, Debug, PartialEq, Eq, Structural)]
pub enum ConnectState {
    /// The first try is under way.
    Connecting,
    /// The pid file is being read.
    ReadingPid,
    /// The process on record is being asked after.
    Probing { pid: i32 },
    /// A daemon is being started.
    Spawning,
    /// The try number `attempt` after the first one is under way.
    Retrying { attempt: u32 },
    /// There is a connection.
    Connected,
    /// There will be none.
    Failed,
}

impl ConnectState {
    /// Whether the state is one that the machine reaches: the tries after the
    /// first one are counted from 1 to `MAX_CONNECT_ATTEMPTS`, and the
    /// process asked after has an id above 0.
    pub open spec fn well_formed(self) -> bool {
        &&& self matches ConnectState::Retrying { attempt } ==> 1 <= attempt
            <= MAX_CONNECT_ATTEMPTS
        &&& self matches ConnectState::Probing { pid } ==> pid > 0
    }
}

/// Why there is no connection.
#[derive(Debug, PartialEq, Eq)]
pub enum ConnectError {
    /// No daemon could be started.
    Spawn(SpawnError),
    /// Every try failed; `cause` is what the last one failed with.
    Exhausted { attempts: u32, cause: String, socket: String },
}

/// What a `ConnectError` stands for.
pub enum ConnectErrorView {
    Spawn(SpawnErrorView),
    Exhausted { attempts: u32, cause: Seq<char>, socket: Seq<char> },
}

impl View for ConnectError {
    type V = ConnectErrorView;

    open spec fn view(&self) -> ConnectErrorView {
        match self {
            ConnectError::Spawn(error) => ConnectErrorView::Spawn(error@),
            ConnectError::Exhausted { attempts, cause, socket } => ConnectErrorView::Exhausted {
                attempts: *attempts,
                cause: cause@,
                socket: socket@,
            },
        }
    }
}

/// The decimal digits that write `n`.
pub open spec fn digits_of(n: nat) -> Seq<char>
    decreases n,
{
    if n < 10 {
        seq![(('0' as int) + n) as char]
    } else {
        digits_of(n / 10).push((('0' as int) + n % 10) as char)
    }
}

/// `n` in decimal.
pub fn decimal_text(n: u32) -> (text: String)
    ensures
        text@ == digits_of(n as nat),
    decreases n,
{
    let mut text = if n < 10 {
        String::new()
    } else {
        decimal_text(n / 10)
    };
    text.push((48u8 + (n % 10) as u8) as char);
    text
}

/// The report of a connection that could not be had.
pub open spec fn connect_error_message(error: ConnectErrorView) -> Seq<char> {
    match error {
        ConnectErrorView::Spawn(error) => spawn_error_message(error),
        ConnectErrorView::Exhausted { attempts, cause, socket } => "Failed to connect after "@
            + digits_of(attempts as nat) + " attempts: "@ + cause + ", "@ + socket,
    }
}

impl ConnectError {
    /// The report of the failure, for the user: for tries that ran out, their
    /// number, the cause of the last failure and the socket's path.
    pub fn message(&self) -> (text: String)
        ensures
            text@ == connect_error_message(self@),
    {
        match self {
            ConnectError::Spawn(error) => error.message(),
            ConnectError::Exhausted { attempts, cause, socket } => {
                let count = decimal_text(*attempts);
                let a = concat("Failed to connect after ", count.as_str());
                let b = concat(a.as_str(), " attempts: ");
                let c = concat(b.as_str(), cause.as_str());
                let d = concat(c.as_str(), ", ");
                concat(d.as_str(), socket.as_str())
            },
        }
    }
}

/// What happened, as the caller tells the machine.
#[derive(Debug, PartialEq, Eq)]
pub enum ConnectEvent {
    /// The try gave a connection.
    Connected,
    /// The try failed.
    Refused { cause: String },
    /// The pid file was read; `contents` is its text, where the file is there.
    PidFile { contents: Option<String> },
    /// The process was probed; `result` is what `probe_result` makes of it: 0
    /// where the process exists.
    Signalled { result: i32 },
    /// The daemon was started.
    Spawned,
    /// The daemon could not be started.
    SpawnFailed { error: SpawnError },
}

/// What a `ConnectEvent` stands for.
pub enum ConnectEventView {
    Connected,
    Refused { cause: Seq<char> },
    PidFile { contents: Option<Seq<char>> },
    Signalled { result: i32 },
    Spawned,
    SpawnFailed { error: SpawnErrorView },
}

impl View for ConnectEvent {
    type V = ConnectEventView;

    open spec fn view(&self) -> ConnectEventView {
        match self {
            ConnectEvent::Connected => ConnectEventView::Connected,
            ConnectEvent::Refused { cause } => ConnectEventView::Refused { cause: cause@ },
            ConnectEvent::PidFile { contents } => ConnectEventView::PidFile {
                contents: contents.deep_view(),
            },
            ConnectEvent::Signalled { result } => ConnectEventView::Signalled { result: *result },
            ConnectEvent::Spawned => ConnectEventView::Spawned,
            ConnectEvent::SpawnFailed { error } => ConnectEventView::SpawnFailed { error: error@ },
        }
    }
}

/// What the caller does next.
#[derive(Debug, PartialEq, Eq)]
pub enum ConnectAction {
    /// Connect to the socket now.
    Connect,
    /// Read the pid file.
    ReadPidFile,
    /// Send signal 0 to the process `pid`, which is above 0.
    Signal { pid: i32 },
    /// Remove the stale files, then start a daemon.
    CleanAndSpawn,
    /// Pause for `millis` milliseconds, then connect to the socket.
    WaitAndConnect { millis: u64 },
    /// Hand out the connection of the last try.
    Return,
    /// Give up with this error.
    Fail(ConnectError),
    /// Nothing: the event was not the one waited for.
    Ignore,
}

/// What a `ConnectAction` stands for.
pub enum ConnectActionView {
    Connect,
    ReadPidFile,
    Signal { pid: i32 },
    CleanAndSpawn,
    WaitAndConnect { millis: u64 },
    Return,
    Fail(ConnectErrorView),
    Ignore,
}

impl View for ConnectAction {
    type V = ConnectActionView;

    open spec fn view(&self) -> ConnectActionView {
        match self {
            ConnectAction::Connect => ConnectActionView::Connect,
            ConnectAction::ReadPidFile => ConnectActionView::ReadPidFile,
            ConnectAction::Signal { pid } => ConnectActionView::Signal { pid: *pid },
            ConnectAction::CleanAndSpawn => ConnectActionView::CleanAndSpawn,
            ConnectAction::WaitAndConnect { millis } => ConnectActionView::WaitAndConnect {
                millis: *millis,
            },
            ConnectAction::Return => ConnectActionView::Return,
            ConnectAction::Fail(error) => ConnectActionView::Fail(error@),
            ConnectAction::Ignore => ConnectActionView::Ignore,
        }
    }
}

/// One move of the machine.
#[derive(Debug, PartialEq, Eq)]
pub struct ConnectStep {
    pub state: ConnectState,
    pub action: ConnectAction,
}

/// What a `ConnectStep` stands for.
pub struct ConnectStepView {
    pub state: ConnectState,
    pub action: ConnectActionView,
}

impl View for ConnectStep {
    type V = ConnectStepView;

    open spec fn view(&self) -> ConnectStepView {
        ConnectStepView { state: self.state, action: self.action@ }
    }
}

/// The first of the tries after the first one, with its pause.
pub open spec fn first_retry() -> ConnectStepView {
    ConnectStepView {
        state: ConnectState::Retrying { attempt: 1 },
        action: ConnectActionView::WaitAndConnect { millis: CONNECT_RETRY_MS },
    }
}

/// The start of a daemon.
pub open spec fn start_daemon() -> ConnectStepView {
    ConnectStepView { state: ConnectState::Spawning, action: ConnectActionView::CleanAndSpawn }
}

/// The move of the machine on `event` in `state`, for the socket at
/// `socket`.
///
/// A first try that fails leads to the pid file. With a process on record
/// the process is asked after; where it runs the tries go on, and where it
/// does not, or none is on record, a daemon is started first. A daemon that
/// cannot be started ends it. A try that fails leads to the next one while
/// fewer than `MAX_CONNECT_ATTEMPTS` were made, and ends it otherwise. An
/// event that is not waited for changes nothing.
pub open spec fn next(state: ConnectState, event: ConnectEventView, socket: Seq<char>) -> ConnectStepView {
    match (state, event) {
        (ConnectState::Connecting, ConnectEventView::Connected)
        | (ConnectState::Retrying { .. }, ConnectEventView::Connected) => ConnectStepView {
            state: ConnectState::Connected,
            action: ConnectActionView::Return,
        },
        (ConnectState::Connecting, ConnectEventView::Refused { .. }) => ConnectStepView {
            state: ConnectState::ReadingPid,
            action: ConnectActionView::ReadPidFile,
        },
        (ConnectState::ReadingPid, ConnectEventView::PidFile { contents }) => match pid_on_record(
            contents,
        ) {
            Some(pid) => ConnectStepView {
                state: ConnectState::Probing { pid },
                action: ConnectActionView::Signal { pid },
            },
            None => start_daemon(),
        },
        (ConnectState::Probing { .. }, ConnectEventView::Signalled { result }) => if result == 0 {
            first_retry()
        } else {
            start_daemon()
        },
        (ConnectState::Spawning, ConnectEventView::Spawned) => first_retry(),
        (ConnectState::Spawning, ConnectEventView::SpawnFailed { error }) => ConnectStepView {
            state: ConnectState::Failed,
            action: ConnectActionView::Fail(ConnectErrorView::Spawn(error)),
        },
        (ConnectState::Retrying { attempt }, ConnectEventView::Refused { cause }) => if attempt
            < MAX_CONNECT_ATTEMPTS {
            ConnectStepView {
                state: ConnectState::Retrying { attempt: (attempt + 1) as u32 },
                action: ConnectActionView::WaitAndConnect { millis: CONNECT_RETRY_MS },
            }
        } else {
            ConnectStepView {
                state: ConnectState::Failed,
                action: ConnectActionView::Fail(
                    ConnectErrorView::Exhausted { attempts: MAX_CONNECT_ATTEMPTS, cause, socket },
                ),
            }
        },
        _ => ConnectStepView { state, action: ConnectActionView::Ignore },
    }
}

/// The start of the machine: the first try, at once.
pub fn begin_connect() -> (step: ConnectStep)
    ensures
        step@ == (ConnectStepView {
            state: ConnectState::Connecting,
            action: ConnectActionView::Connect,
        }),
        step.state.well_formed(),
{
    ConnectStep { state: ConnectState::Connecting, action: ConnectAction::Connect }
}

/// The move of the machine on `event` in `state`, for the daemon at `paths`.
pub fn connect(state: ConnectState, event: ConnectEvent, paths: &DaemonPaths) -> (step:
    ConnectStep)
    ensures
        step@ == next(state, event@, paths@.socket),
        state.well_formed() ==> step.state.well_formed(),
{
    let retry = ConnectStep {
        state: ConnectState::Retrying { attempt: 1 },
        action: ConnectAction::WaitAndConnect { millis: CONNECT_RETRY_MS },
    };
    let start = ConnectStep { state: ConnectState::Spawning, action: ConnectAction::CleanAndSpawn };
    match (state, event) {
        (ConnectState::Connecting, ConnectEvent::Connected) => ConnectStep {
            state: ConnectState::Connected,
            action: ConnectAction::Return,
        },
        (ConnectState::Retrying { .. }, ConnectEvent::Connected) => ConnectStep {
            state: ConnectState::Connected,
            action: ConnectAction::Return,
        },
        (ConnectState::Connecting, ConnectEvent::Refused { .. }) => ConnectStep {
            state: ConnectState::ReadingPid,
            action: ConnectAction::ReadPidFile,
        },
        (ConnectState::ReadingPid, ConnectEvent::PidFile { contents }) => {
            let target = match &contents {
                Some(text) => probe_target(Some(text.as_str())),
                None => probe_target(None),
            };
            match target {
                Some(pid) => ConnectStep {
                    state: ConnectState::Probing { pid },
                    action: ConnectAction::Signal { pid },
                },
                None => start,
            }
        },
        (ConnectState::Probing { .. }, ConnectEvent::Signalled { result }) => {
            if result == 0 {
                retry
            } else {
                start
            }
        },
        (ConnectState::Spawning, ConnectEvent::Spawned) => retry,
        (ConnectState::Spawning, ConnectEvent::SpawnFailed { error }) => ConnectStep {
            state: ConnectState::Failed,
            action: ConnectAction::Fail(ConnectError::Spawn(error)),
        },
        (ConnectState::Retrying { attempt }, ConnectEvent::Refused { cause }) => {
            if attempt < MAX_CONNECT_ATTEMPTS {
                ConnectStep {
                    state: ConnectState::Retrying { attempt: attempt + 1 },
                    action: ConnectAction::WaitAndConnect { millis: CONNECT_RETRY_MS },
                }
            } else {
                ConnectStep {
                    state: ConnectState::Failed,
                    action: ConnectAction::Fail(
                        ConnectError::Exhausted {
                            attempts: MAX_CONNECT_ATTEMPTS,
                            cause,
                            socket: paths.socket.clone(),
                        },
                    ),
                }
            }
        },
        (state, _) => ConnectStep { state, action: ConnectAction::Ignore },
    }
}

/// Where a series of events leaves the machine, and what it asked for on
/// the way.
pub struct Trace {
    pub state: ConnectState,
    pub actions: Seq<ConnectActionView>,
}

/// The moves of the machine on a series of events, one after the other.
pub open spec fn trace(state: ConnectState, events: Seq<ConnectEventView>, socket: Seq<char>) -> Trace
    decreases events.len(),
{
    if events.len() == 0 {
        Trace { state, actions: Seq::empty() }
    } else {
        let first = next(state, events[0], socket);
        let rest = trace(first.state, events.drop_first(), socket);
        Trace { state: rest.state, actions: seq![first.action] + rest.actions }
    }
}

/// How many of `actions` are a try after a pause.
pub open spec fn tries(actions: Seq<ConnectActionView>) -> nat
    decreases actions.len(),
{
    if actions.len() == 0 {
        0
    } else {
        (if actions[0] is WaitAndConnect {
            1nat
        } else {
            0nat
        }) + tries(actions.drop_first())
    }
}

/// How many of `actions` start a daemon.
pub open spec fn spawns(actions: Seq<ConnectActionView>) -> nat
    decreases actions.len(),
{
    if actions.len() == 0 {
        0
    } else {
        (if actions[0] is CleanAndSpawn {
            1nat
        } else {
            0nat
        }) + spawns(actions.drop_first())
    }
}

/// How many tries after a pause a machine in `state` may still ask for.
pub open spec fn tries_left(state: ConnectState) -> nat {
    match state {
        ConnectState::Retrying { attempt } => if attempt < MAX_CONNECT_ATTEMPTS {
            (MAX_CONNECT_ATTEMPTS - attempt) as nat
        } else {
            0
        },
        ConnectState::Connected | ConnectState::Failed => 0,
        _ => MAX_CONNECT_ATTEMPTS as nat,
    }
}

/// How many daemons a machine in `state` may still start.
pub open spec fn spawns_left(state: ConnectState) -> nat {
    match state {
        ConnectState::Connecting | ConnectState::ReadingPid | ConnectState::Probing { .. } => 1,
        _ => 0,
    }
}

/// The machine is bounded whatever happens: from its start it asks for at
/// most `MAX_CONNECT_ATTEMPTS` tries after a pause, and starts at most one
/// daemon.
pub proof fn lemma_bounded(state: ConnectState, events: Seq<ConnectEventView>, socket: Seq<char>)
    ensures
        tries(trace(state, events, socket).actions) <= tries_left(state),
        spawns(trace(state, events, socket).actions) <= spawns_left(state),
        state == ConnectState::Connecting ==> tries(trace(state, events, socket).actions)
            <= MAX_CONNECT_ATTEMPTS && spawns(trace(state, events, socket).actions) <= 1,
    decreases events.len(),
{
    if events.len() > 0 {
        let first = next(state, events[0], socket);
        let rest = trace(first.state, events.drop_first(), socket);
        lemma_bounded(first.state, events.drop_first(), socket);
        let actions = seq![first.action] + rest.actions;
        assert(actions.drop_first() == rest.actions);
        assert(actions[0] == first.action);
    }
}

/// Once there is a connection, or none to be had, nothing more is asked for.
pub proof fn lemma_settled(state: ConnectState, events: Seq<ConnectEventView>, socket: Seq<char>)
    requires
        state == ConnectState::Connected || state == ConnectState::Failed,
    ensures
        trace(state, events, socket).state == state,
        forall|i: int|
            0 <= i < trace(state, events, socket).actions.len() ==> trace(
                state,
                events,
                socket,
            ).actions[i] == ConnectActionView::Ignore,
        tries(trace(state, events, socket).actions) == 0,
        spawns(trace(state, events, socket).actions) == 0,
    decreases events.len(),
{
    lemma_bounded(state, events, socket);
    if events.len() > 0 {
        lemma_settled(state, events.drop_first(), socket);
    }
}

/// The moves on a series of events are the moves on its first part followed
/// by the moves on the rest, from where the first part ended.
pub proof fn lemma_trace_append(
    state: ConnectState,
    first: Seq<ConnectEventView>,
    rest: Seq<ConnectEventView>,
    socket: Seq<char>,
)
    ensures
        trace(state, first + rest, socket).state == trace(
            trace(state, first, socket).state,
            rest,
            socket,
        ).state,
        trace(state, first + rest, socket).actions == trace(state, first, socket).actions + trace(
            trace(state, first, socket).state,
            rest,
            socket,
        ).actions,
    decreases first.len(),
{
    if first.len() == 0 {
        assert(first + rest == rest);
        assert(Seq::<ConnectActionView>::empty() + trace(state, rest, socket).actions == trace(
            state,
            rest,
            socket,
        ).actions);
    } else {
        let head = next(state, first[0], socket);
        assert((first + rest)[0] == first[0]);
        assert((first + rest).drop_first() == first.drop_first() + rest);
        lemma_trace_append(head.state, first.drop_first(), rest, socket);
        let mid = trace(head.state, first.drop_first(), socket);
        let end = trace(mid.state, rest, socket);
        assert(seq![head.action] + (mid.actions + end.actions) == (seq![head.action] + mid.actions)
            + end.actions);
    }
}

/// With a daemon that listens already, the first try gives the connection:
/// it is handed out at once, and no daemon is started, whatever comes after.
pub proof fn lemma_fast_path(events: Seq<ConnectEventView>, socket: Seq<char>)
    ensures
        next(ConnectState::Connecting, ConnectEventView::Connected, socket) == (ConnectStepView {
            state: ConnectState::Connected,
            action: ConnectActionView::Return,
        }),
        trace(
            ConnectState::Connecting,
            seq![ConnectEventView::Connected] + events,
            socket,
        ).state == ConnectState::Connected,
        spawns(
            trace(ConnectState::Connecting, seq![ConnectEventView::Connected] + events, socket).actions,
        ) == 0,
        tries(
            trace(ConnectState::Connecting, seq![ConnectEventView::Connected] + events, socket).actions,
        ) == 0,
{
    let all = seq![ConnectEventView::Connected] + events;
    assert(all[0] == ConnectEventView::Connected);
    assert(all.drop_first() == events);
    lemma_settled(ConnectState::Connected, events, socket);
    let rest = trace(ConnectState::Connected, events, socket);
    let actions = seq![ConnectActionView::Return] + rest.actions;
    assert(actions.drop_first() == rest.actions);
    assert(trace(ConnectState::Connecting, all, socket).actions == actions);
}

/// One failed try for each cause, in order.
pub open spec fn refusals(causes: Seq<Seq<char>>) -> Seq<ConnectEventView> {
    Seq::new(causes.len(), |i: int| ConnectEventView::Refused { cause: causes[i] })
}

/// `count` tries after a pause.
pub open spec fn pauses(count: nat) -> Seq<ConnectActionView> {
    Seq::new(count, |i: int| ConnectActionView::WaitAndConnect { millis: CONNECT_RETRY_MS })
}

/// While tries are left, each failed try leads to the next one.
pub proof fn lemma_retries(attempt: u32, causes: Seq<Seq<char>>, socket: Seq<char>)
    requires
        attempt + causes.len() <= MAX_CONNECT_ATTEMPTS,
    ensures
        trace(ConnectState::Retrying { attempt }, refusals(causes), socket).state
            == (ConnectState::Retrying { attempt: (attempt + causes.len()) as u32 }),
        trace(ConnectState::Retrying { attempt }, refusals(causes), socket).actions == pauses(
            causes.len(),
        ),
    decreases causes.len(),
{
    let events = refusals(causes);
    if causes.len() > 0 {
        assert(events.drop_first() == refusals(causes.drop_first()));
        lemma_retries((attempt + 1) as u32, causes.drop_first(), socket);
        assert(seq![ConnectActionView::WaitAndConnect { millis: CONNECT_RETRY_MS }] + pauses(
            causes.drop_first().len(),
        ) == pauses(causes.len()));
    } else {
        assert(pauses(0) == Seq::<ConnectActionView>::empty());
    }
}

/// What the machine hears while it finds that no daemon runs: the first try
/// fails, the pid file is read, and the process on record, where there is
/// one, is asked after.
pub open spec fn finds_no_daemon(
    first_cause: Seq<char>,
    pid_file: Option<Seq<char>>,
    signal: i32,
) -> Seq<ConnectEventView> {
    let found = seq![
        ConnectEventView::Refused { cause: first_cause },
        ConnectEventView::PidFile { contents: pid_file },
    ];
    if pid_on_record(pid_file) is Some {
        found.push(ConnectEventView::Signalled { result: signal })
    } else {
        found
    }
}

/// What the machine asks for while it finds that no daemon runs, up to the
/// start of one.
pub open spec fn asks_and_spawns(pid_file: Option<Seq<char>>) -> Seq<ConnectActionView> {
    match pid_on_record(pid_file) {
        Some(pid) => seq![
            ConnectActionView::ReadPidFile,
            ConnectActionView::Signal { pid },
            ConnectActionView::CleanAndSpawn,
        ],
        None => seq![ConnectActionView::ReadPidFile, ConnectActionView::CleanAndSpawn],
    }
}

/// Without a listener and without a running daemon, the stale files are
/// removed and a daemon is started, once; then the tries begin, each after a
/// pause. While fewer than `MAX_CONNECT_ATTEMPTS` tries have failed, the
/// next one is asked for, and a try that succeeds gives the connection.
/// The try number `MAX_CONNECT_ATTEMPTS` that fails ends it with `Exhausted`,
/// which names that number, the last cause and the socket.
pub proof fn lemma_spawn_then_retry(
    first_cause: Seq<char>,
    pid_file: Option<Seq<char>>,
    signal: i32,
    causes: Seq<Seq<char>>,
    socket: Seq<char>,
)
    requires
        !alive(pid_file, Some(signal)),
        causes.len() < MAX_CONNECT_ATTEMPTS,
    ensures
        ({
            let events = finds_no_daemon(first_cause, pid_file, signal).push(
                ConnectEventView::Spawned,
            ) + refusals(causes);
            let reached = trace(ConnectState::Connecting, events, socket);
            &&& reached.state == ConnectState::Retrying { attempt: (causes.len() + 1) as u32 }
            &&& reached.actions == asks_and_spawns(pid_file) + pauses(causes.len() + 1)
            &&& spawns(reached.actions) == 1
            &&& next(reached.state, ConnectEventView::Connected, socket) == (ConnectStepView {
                state: ConnectState::Connected,
                action: ConnectActionView::Return,
            })
            &&& forall|cause: Seq<char>|
                causes.len() + 1 == MAX_CONNECT_ATTEMPTS ==> #[trigger] next(
                    reached.state,
                    ConnectEventView::Refused { cause },
                    socket,
                ) == (ConnectStepView {
                    state: ConnectState::Failed,
                    action: ConnectActionView::Fail(
                        ConnectErrorView::Exhausted {
                            attempts: MAX_CONNECT_ATTEMPTS,
                            cause,
                            socket,
                        },
                    ),
                })
        }),
{
    let found = finds_no_daemon(first_cause, pid_file, signal).push(ConnectEventView::Spawned);
    let events = found + refusals(causes);
    lemma_trace_append(ConnectState::Connecting, found, refusals(causes), socket);
    reveal_with_fuel(trace, 6);
    let start = trace(ConnectState::Connecting, found, socket);
    assert(start.state == ConnectState::Retrying { attempt: 1 });
    assert(start.actions == asks_and_spawns(pid_file).push(
        ConnectActionView::WaitAndConnect { millis: CONNECT_RETRY_MS },
    ));
    lemma_retries(1, causes, socket);
    assert(asks_and_spawns(pid_file).push(
        ConnectActionView::WaitAndConnect { millis: CONNECT_RETRY_MS },
    ) + pauses(causes.len()) == asks_and_spawns(pid_file) + pauses(causes.len() + 1));
    let reached = trace(ConnectState::Connecting, events, socket);
    lemma_bounded(ConnectState::Connecting, events, socket);
    assert(spawns(reached.actions) >= 1) by {
        lemma_spawns_found(asks_and_spawns(pid_file), pauses(causes.len() + 1));
    }
}

/// A series of actions that starts with a part that starts a daemon starts
/// one.
proof fn lemma_spawns_found(head: Seq<ConnectActionView>, tail: Seq<ConnectActionView>)
    requires
        exists|i: int| 0 <= i < head.len() && head[i] is CleanAndSpawn,
    ensures
        spawns(head + tail) >= 1,
    decreases head.len(),
{
    let all = head + tail;
    assert(all[0] == head[0]);
    if !(head[0] is CleanAndSpawn) {
        let i = choose|i: int| 0 <= i < head.len() && head[i] is CleanAndSpawn;
        assert(head.drop_first()[i - 1] == head[i]);
        assert(all.drop_first() == head.drop_first() + tail);
        lemma_spawns_found(head.drop_first(), tail);
    }
}

} // verus!
