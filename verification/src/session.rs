//! One session with the daemon, as a machine: each event that the caller
//! hands in gives the output to make, in order, and what to wait for next.

use crate::json::{json_parse, json_text, parse_json, write_json};
use crate::protocol::{
    decode, decode_message, input_message, input_tree, request_tree, without_line_end, Message,
    MessageView, Request, RequestKind,
};
use crate::text::{concat, trim, trimmed};
use vstd::prelude::*;

verus! {

/// The status that the process leaves with after a failure of its own: no
/// daemon could be started or reached, or the session failed.
pub const FAILURE_STATUS: i32 = 1;

/// Which of the caller's own reads and writes failed.
#[derive(Clone, Copy, Debug, PartialEq, Eq, Structural)]
pub enum IoFailure {
    /// Writing the request to the daemon.
    WriteRequest,
    /// Reading a message from the daemon.
    ReadMessage,
    /// Reading a line from the terminal.
    ReadInput,
    /// Writing the answer to a prompt to the daemon.
    WriteInput,
}

/// Why a session failed.
#[derive(Debug, PartialEq, Eq)]
pub enum SessionError {
    /// A line from the daemon is no JSON document.
    Parse(String),
    /// The daemon closed the stream before it sent a response.
    UnexpectedClose,
    /// A read or a write of the caller failed.
    LocalIo { failure: IoFailure, cause: String },
}

/// What a `SessionError` stands for.
pub enum SessionErrorView {
    Parse(Seq<char>),
    UnexpectedClose,
    LocalIo { failure: IoFailure, cause: Seq<char> },
}

impl View for SessionError {
    type V = SessionErrorView;

    open spec fn view(&self) -> SessionErrorView {
        match self {
            SessionError::Parse(cause) => SessionErrorView::Parse(cause@),
            SessionError::UnexpectedClose => SessionErrorView::UnexpectedClose,
            SessionError::LocalIo { failure, cause } => SessionErrorView::LocalIo {
                failure: *failure,
                cause: cause@,
            },
        }
    }
}

/// The words that introduce the cause of a failed read or write.
pub open spec fn failure_prefix(failure: IoFailure) -> Seq<char> {
    match failure {
        IoFailure::WriteRequest => "Error writing to socket: "@,
        IoFailure::ReadMessage => "Error reading from socket: "@,
        IoFailure::ReadInput => "Error reading input: "@,
        IoFailure::WriteInput => "Error writing input to socket: "@,
    }
}

/// The report of a failed session.
pub open spec fn error_message(error: SessionErrorView) -> Seq<char> {
    match error {
        SessionErrorView::Parse(cause) => "Error parsing message: "@ + cause,
        SessionErrorView::UnexpectedClose => "Daemon closed connection unexpectedly"@,
        SessionErrorView::LocalIo { failure, cause } => failure_prefix(failure) + cause,
    }
}

impl SessionError {
    /// The report of the failure, for the user.
    pub fn message(&self) -> (text: String)
        ensures
            text@ == error_message(self@),
    {
        match self {
            SessionError::Parse(cause) => concat("Error parsing message: ", cause.as_str()),
            SessionError::UnexpectedClose => "Daemon closed connection unexpectedly".to_owned(),
            SessionError::LocalIo { failure, cause } => {
                let prefix = match failure {
                    IoFailure::WriteRequest => "Error writing to socket: ",
                    IoFailure::ReadMessage => "Error reading from socket: ",
                    IoFailure::ReadInput => "Error reading input: ",
                    IoFailure::WriteInput => "Error writing input to socket: ",
                };
                concat(prefix, cause.as_str())
            },
        }
    }
}

/// Output that the caller makes for the session.
#[derive(Debug, PartialEq, Eq)]
pub enum Effect {
    /// Write the text to standard output and flush it.
    Print(String),
    /// Write the text to standard error.
    PrintError(String),
    /// Write the line and a line break to the daemon; `failure` is what a
    /// write that fails is reported as.
    Send { line: String, failure: IoFailure },
}

/// What an `Effect` stands for.
pub enum EffectView {
    Print(Seq<char>),
    PrintError(Seq<char>),
    Send { line: Seq<char>, failure: IoFailure },
}

impl DeepView for Effect {
    type V = EffectView;

    open spec fn deep_view(&self) -> EffectView {
        match self {
            Effect::Print(text) => EffectView::Print(text@),
            Effect::PrintError(text) => EffectView::PrintError(text@),
            Effect::Send { line, failure } => EffectView::Send { line: line@, failure: *failure },
        }
    }
}

impl View for Effect {
    type V = EffectView;

    open spec fn view(&self) -> EffectView {
        self.deep_view()
    }
}

/// Where a session stands, which is also what the caller does next.
#[derive(Debug, PartialEq, Eq)]
pub enum SessionState {
    /// Read the next line from the daemon.
    Listening,
    /// Read one line from the terminal.
    Prompting,
    /// The daemon has sent its response: leave with `status`.
    Finished { status: i32 },
    /// The session has failed: report the error and leave with
    /// `FAILURE_STATUS`.
    Failed(SessionError),
}

/// What a `SessionState` stands for.
pub enum SessionStateView {
    Listening,
    Prompting,
    Finished { status: i32 },
    Failed(SessionErrorView),
}

impl View for SessionState {
    type V = SessionStateView;

    open spec fn view(&self) -> SessionStateView {
        match self {
            SessionState::Listening => SessionStateView::Listening,
            SessionState::Prompting => SessionStateView::Prompting,
            SessionState::Finished { status } => SessionStateView::Finished { status: *status },
            SessionState::Failed(error) => SessionStateView::Failed(error@),
        }
    }
}

impl SessionStateView {
    /// Whether the session is over.
    pub open spec fn ended(self) -> bool {
        self is Finished || self is Failed
    }

    /// The status that the process leaves with, once the session is over.
    pub open spec fn exit_status(self) -> Option<i32> {
        match self {
            SessionStateView::Finished { status } => Some(status),
            SessionStateView::Failed(_) => Some(FAILURE_STATUS),
            _ => None,
        }
    }
}

impl SessionState {
    /// What a read that fails in this state is reported as; nothing is read
    /// once the session is over.
    pub fn read_failure(&self) -> (failure: Option<IoFailure>)
        ensures
            failure == match self@ {
                SessionStateView::Listening => Some(IoFailure::ReadMessage),
                SessionStateView::Prompting => Some(IoFailure::ReadInput),
                _ => None,
            },
    {
        match self {
            SessionState::Listening => Some(IoFailure::ReadMessage),
            SessionState::Prompting => Some(IoFailure::ReadInput),
            _ => None,
        }
    }

    /// The status that the process leaves with, once the session is over.
    pub fn exit_status(&self) -> (status: Option<i32>)
        ensures
            status == self@.exit_status(),
    {
        match self {
            SessionState::Finished { status } => Some(*status),
            SessionState::Failed(_) => Some(FAILURE_STATUS),
            _ => None,
        }
    }
}

/// What happened, as the caller tells the session.
#[derive(Debug, PartialEq, Eq)]
pub enum SessionEvent {
    /// The daemon sent a line.
    Line(String),
    /// The daemon closed the stream.
    Closed,
    /// The terminal gave a line; it is empty where the terminal is at its end.
    Input(String),
    /// A read or a write of the caller failed.
    Broken { failure: IoFailure, cause: String },
}

/// What a `SessionEvent` stands for.
pub enum SessionEventView {
    Line(Seq<char>),
    Closed,
    Input(Seq<char>),
    Broken { failure: IoFailure, cause: Seq<char> },
}

impl View for SessionEvent {
    type V = SessionEventView;

    open spec fn view(&self) -> SessionEventView {
        match self {
            SessionEvent::Line(line) => SessionEventView::Line(line@),
            SessionEvent::Closed => SessionEventView::Closed,
            SessionEvent::Input(line) => SessionEventView::Input(line@),
            SessionEvent::Broken { failure, cause } => SessionEventView::Broken {
                failure: *failure,
                cause: cause@,
            },
        }
    }
}

/// The answer of the session to one event.
#[derive(Debug, PartialEq, Eq)]
pub struct Reaction {
    /// Where the session stands after the event.
    pub state: SessionState,
    /// The output to make, in this order, before anything else is read.
    pub effects: Vec<Effect>,
}

/// What a `Reaction` stands for.
pub struct ReactionView {
    pub state: SessionStateView,
    pub effects: Seq<EffectView>,
}

impl View for Reaction {
    type V = ReactionView;

    open spec fn view(&self) -> ReactionView {
        ReactionView { state: self.state@, effects: self.effects.deep_view() }
    }
}

/// The text, printed, where there is one.
pub open spec fn print_if_any(text: Option<Seq<char>>) -> Seq<EffectView> {
    match text {
        Some(text) => seq![EffectView::Print(text)],
        None => Seq::empty(),
    }
}

/// The text, printed to standard error, where there is one.
pub open spec fn print_error_if_any(text: Option<Seq<char>>) -> Seq<EffectView> {
    match text {
        Some(text) => seq![EffectView::PrintError(text)],
        None => Seq::empty(),
    }
}

/// Each entry printed as a line of its own.
pub open spec fn print_lines(entries: Seq<Seq<char>>) -> Seq<EffectView> {
    Seq::new(entries.len(), |i: int| EffectView::Print(entries[i] + seq!['\n']))
}

/// The status that a response gives the process: its exit code cut to 32
/// bits, or 1 where it has none.
pub open spec fn status_of(exit_code: Option<i64>) -> i32 {
    match exit_code {
        Some(code) => code as i32,
        None => 1i32,
    }
}

/// What a session of the kind `kind` does with a message of the daemon.
pub open spec fn reaction_to(kind: RequestKind, message: MessageView) -> ReactionView {
    match message {
        MessageView::Prompt { message } => ReactionView {
            state: SessionStateView::Prompting,
            effects: print_if_any(message),
        },
        MessageView::Write { text } => ReactionView {
            state: SessionStateView::Listening,
            effects: print_if_any(text),
        },
        MessageView::Response(response) => match kind {
            RequestKind::Complete => ReactionView {
                state: SessionStateView::Finished { status: 0 },
                effects: match response.completion_output {
                    Some(output) => seq![EffectView::Print(output)],
                    None => match response.completions {
                        Some(entries) => print_lines(entries),
                        None => Seq::empty(),
                    },
                },
            },
            RequestKind::Run => ReactionView {
                state: SessionStateView::Finished { status: status_of(response.exit_code) },
                effects: print_if_any(response.stdout) + print_error_if_any(response.stderr),
            },
        },
        MessageView::Other => ReactionView {
            state: SessionStateView::Listening,
            effects: Seq::empty(),
        },
    }
}

/// The effects that print each entry as a line of its own.
fn lines_of(entries: &Vec<String>) -> (effects: Vec<Effect>)
    ensures
        effects.deep_view() == print_lines(entries.deep_view()),
{
    let mut effects: Vec<Effect> = Vec::new();
    let mut i: usize = 0;
    while i < entries.len()
        invariant
            i <= entries.len(),
            effects.len() == i,
            forall|j: int|
                0 <= j < i ==> (#[trigger] effects@[j]).deep_view() == EffectView::Print(
                    entries@[j]@ + seq!['\n'],
                ),
        decreases entries.len() - i,
    {
        effects.push(Effect::Print(concat(entries[i].as_str(), "\n")));
        proof {
            reveal_strlit("\n");
            assert("\n"@ =~= seq!['\n']);
        }
        i += 1;
    }
    assert(effects.deep_view() =~= print_lines(entries.deep_view()));
    effects
}

/// What a session of the kind `kind` does with a message of the daemon.
pub fn react(kind: RequestKind, message: &Message) -> (reaction: Reaction)
    ensures
        reaction@ == reaction_to(kind, message@),
{
    let mut effects: Vec<Effect> = Vec::new();
    let state = match message {
        Message::Prompt { message } => {
            match message {
                Some(text) => { effects.push(Effect::Print(text.clone())); },
                None => {},
            }
            SessionState::Prompting
        },
        Message::Write { text } => {
            match text {
                Some(text) => { effects.push(Effect::Print(text.clone())); },
                None => {},
            }
            SessionState::Listening
        },
        Message::Response(response) => match kind {
            RequestKind::Complete => {
                match &response.completion_output {
                    Some(output) => { effects.push(Effect::Print(output.clone())); },
                    None => match &response.completions {
                        Some(entries) => { effects = lines_of(entries); },
                        None => {},
                    },
                }
                SessionState::Finished { status: 0 }
            },
            RequestKind::Run => {
                match &response.stdout {
                    Some(text) => { effects.push(Effect::Print(text.clone())); },
                    None => {},
                }
                match &response.stderr {
                    Some(text) => { effects.push(Effect::PrintError(text.clone())); },
                    None => {},
                }
                let status: i32 = match response.exit_code {
                    Some(code) => #[verifier::truncate] (code as i32),
                    None => 1,
                };
                SessionState::Finished { status }
            },
        },
        Message::Other => SessionState::Listening,
    };
    let reaction = Reaction { state, effects };
    assert(reaction@.effects =~= reaction_to(kind, message@).effects);
    reaction
}

/// What a session does with a line of the daemon: the line is trimmed and
/// read as JSON; a document is answered as the message it carries, anything
/// else ends the session.
pub open spec fn reaction_to_line(kind: RequestKind, line: Seq<char>) -> ReactionView {
    match json_parse(trimmed(line)) {
        Ok(tree) => reaction_to(kind, decode(tree)),
        Err(cause) => ReactionView {
            state: SessionStateView::Failed(SessionErrorView::Parse(cause)),
            effects: Seq::empty(),
        },
    }
}

/// The session's answer to an event in a state. An event that the state does
/// not wait for changes nothing, and so does any event once the session is
/// over.
pub open spec fn step(
    kind: RequestKind,
    state: SessionStateView,
    event: SessionEventView,
) -> ReactionView {
    match (state, event) {
        (SessionStateView::Listening, SessionEventView::Line(line)) => reaction_to_line(kind, line),
        (SessionStateView::Listening, SessionEventView::Closed) => ReactionView {
            state: SessionStateView::Failed(SessionErrorView::UnexpectedClose),
            effects: Seq::empty(),
        },
        (SessionStateView::Prompting, SessionEventView::Input(line)) => ReactionView {
            state: SessionStateView::Listening,
            effects: seq![
                EffectView::Send {
                    line: json_text(input_tree(without_line_end(line))),
                    failure: IoFailure::WriteInput,
                },
            ],
        },
        (SessionStateView::Listening, SessionEventView::Broken { failure, cause })
        | (SessionStateView::Prompting, SessionEventView::Broken { failure, cause }) => ReactionView {
            state: SessionStateView::Failed(SessionErrorView::LocalIo { failure, cause }),
            effects: Seq::empty(),
        },
        _ => ReactionView { state, effects: Seq::empty() },
    }
}

/// The start of a session: the request goes to the daemon as one line, and
/// the session listens.
pub fn begin(request: &Request) -> (reaction: Reaction)
    ensures
        reaction@.state == SessionStateView::Listening,
        reaction@.effects == seq![
            EffectView::Send {
                line: json_text(request_tree(request@)),
                failure: IoFailure::WriteRequest,
            },
        ],
        !json_text(request_tree(request@)).contains('\n'),
{
    let mut effects: Vec<Effect> = Vec::new();
    effects.push(Effect::Send { line: request.encode(), failure: IoFailure::WriteRequest });
    let reaction = Reaction { state: SessionState::Listening, effects };
    assert(reaction@.effects =~= seq![
        EffectView::Send {
            line: json_text(request_tree(request@)),
            failure: IoFailure::WriteRequest,
        },
    ]);
    reaction
}

/// The session's answer to a line of the daemon.
pub fn on_line(kind: RequestKind, line: &str) -> (reaction: Reaction)
    ensures
        reaction@ == reaction_to_line(kind, line@),
{
    let text = trim(line);
    match parse_json(text.as_str()) {
        Ok(value) => {
            let message = decode_message(&value);
            react(kind, &message)
        },
        Err(cause) => {
            let reaction = Reaction {
                state: SessionState::Failed(SessionError::Parse(cause)),
                effects: Vec::new(),
            };
            assert(reaction@.effects =~= Seq::empty());
            reaction
        },
    }
}

/// The session's answer to `event` in `state`.
pub fn session_step(kind: RequestKind, state: SessionState, event: SessionEvent) -> (reaction:
    Reaction)
    ensures
        reaction@ == step(kind, state@, event@),
{
    match (state, event) {
        (SessionState::Listening, SessionEvent::Line(line)) => on_line(kind, line.as_str()),
        (SessionState::Listening, SessionEvent::Closed) => {
            let reaction = Reaction {
                state: SessionState::Failed(SessionError::UnexpectedClose),
                effects: Vec::new(),
            };
            assert(reaction@.effects =~= Seq::empty());
            reaction
        },
        (SessionState::Prompting, SessionEvent::Input(line)) => {
            let mut effects: Vec<Effect> = Vec::new();
            effects.push(
                Effect::Send {
                    line: write_json(&input_message(line.as_str())),
                    failure: IoFailure::WriteInput,
                },
            );
            let reaction = Reaction { state: SessionState::Listening, effects };
            assert(reaction@.effects =~= seq![
                EffectView::Send {
                    line: json_text(input_tree(without_line_end(line@))),
                    failure: IoFailure::WriteInput,
                },
            ]);
            reaction
        },
        (SessionState::Listening, SessionEvent::Broken { failure, cause }) => {
            let reaction = Reaction {
                state: SessionState::Failed(SessionError::LocalIo { failure, cause }),
                effects: Vec::new(),
            };
            assert(reaction@.effects =~= Seq::empty());
            reaction
        },
        (SessionState::Prompting, SessionEvent::Broken { failure, cause }) => {
            let reaction = Reaction {
                state: SessionState::Failed(SessionError::LocalIo { failure, cause }),
                effects: Vec::new(),
            };
            assert(reaction@.effects =~= Seq::empty());
            reaction
        },
        (state, _) => {
            let reaction = Reaction { state, effects: Vec::new() };
            assert(reaction@.effects =~= Seq::empty());
            reaction
        },
    }
}

/// The session's answer to a series of events, one after the other: where it
/// stands at the end, and all the output on the way, in order.
pub open spec fn run(
    kind: RequestKind,
    state: SessionStateView,
    events: Seq<SessionEventView>,
) -> ReactionView
    decreases events.len(),
{
    if events.len() == 0 {
        ReactionView { state, effects: Seq::empty() }
    } else {
        let first = step(kind, state, events[0]);
        let rest = run(kind, first.state, events.drop_first());
        ReactionView { state: rest.state, effects: first.effects + rest.effects }
    }
}

/// Whether `event` is a line of the daemon that carries a response.
pub open spec fn carries_response(event: SessionEventView) -> bool {
    event matches SessionEventView::Line(line) && json_parse(trimmed(line)) matches Ok(tree)
        && decode(tree) is Response
}

/// Events are answered in the order in which they come: the output for a
/// series of events is the output for its first part followed by the output
/// for the rest, which starts where the first part ended.
pub proof fn lemma_run_in_order(
    kind: RequestKind,
    state: SessionStateView,
    first: Seq<SessionEventView>,
    rest: Seq<SessionEventView>,
)
    ensures
        run(kind, state, first + rest).state == run(
            kind,
            run(kind, state, first).state,
            rest,
        ).state,
        run(kind, state, first + rest).effects == run(kind, state, first).effects + run(
            kind,
            run(kind, state, first).state,
            rest,
        ).effects,
    decreases first.len(),
{
    if first.len() == 0 {
        assert(first + rest == rest);
        assert(Seq::<EffectView>::empty() + run(kind, state, rest).effects == run(
            kind,
            state,
            rest,
        ).effects);
    } else {
        let head = step(kind, state, first[0]);
        assert((first + rest)[0] == first[0]);
        assert((first + rest).drop_first() == first.drop_first() + rest);
        lemma_run_in_order(kind, head.state, first.drop_first(), rest);
        let tail = run(kind, head.state, first.drop_first());
        let end = run(kind, tail.state, rest);
        assert(head.effects + (tail.effects + end.effects) == (head.effects + tail.effects)
            + end.effects);
    }
}

/// A session that is over stays as it is: whatever comes after changes
/// nothing and makes no output.
pub proof fn lemma_ended_is_final(
    kind: RequestKind,
    state: SessionStateView,
    events: Seq<SessionEventView>,
)
    requires
        state.ended(),
    ensures
        run(kind, state, events) == (ReactionView { state, effects: Seq::empty() }),
    decreases events.len(),
{
    if events.len() > 0 {
        lemma_ended_is_final(kind, state, events.drop_first());
        assert(Seq::<EffectView>::empty() + Seq::<EffectView>::empty() == Seq::<
            EffectView,
        >::empty());
    }
}

/// Where the daemon closes the stream while the session still listens, so
/// before any response was read, the session fails with `UnexpectedClose`,
/// the process leaves with status 1, and nothing is printed beyond what the
/// earlier messages asked for.
pub proof fn lemma_close_before_response(kind: RequestKind, events: Seq<SessionEventView>)
    requires
        run(kind, SessionStateView::Listening, events).state == SessionStateView::Listening,
    ensures
        run(kind, SessionStateView::Listening, events.push(SessionEventView::Closed)).state
            == SessionStateView::Failed(SessionErrorView::UnexpectedClose),
        run(
            kind,
            SessionStateView::Listening,
            events.push(SessionEventView::Closed),
        ).state.exit_status() == Some(1i32),
        run(kind, SessionStateView::Listening, events.push(SessionEventView::Closed)).effects
            == run(kind, SessionStateView::Listening, events).effects,
{
    let close = seq![SessionEventView::Closed];
    assert(events.push(SessionEventView::Closed) == events + close);
    lemma_run_in_order(kind, SessionStateView::Listening, events, close);
    let failed = SessionStateView::Failed(SessionErrorView::UnexpectedClose);
    assert(close.drop_first() == Seq::<SessionEventView>::empty());
    assert(run(kind, failed, close.drop_first()).effects == Seq::<EffectView>::empty());
    let last = run(kind, SessionStateView::Listening, close);
    assert(last.effects == Seq::<EffectView>::empty() + Seq::<EffectView>::empty());
    assert(last.effects == Seq::<EffectView>::empty());
    assert(run(kind, SessionStateView::Listening, events).effects + last.effects == run(
        kind,
        SessionStateView::Listening,
        events,
    ).effects);
}

/// Only a response ends a session well: a session that has finished has read
/// a line that carries one.
pub proof fn lemma_finished_by_response(
    kind: RequestKind,
    state: SessionStateView,
    events: Seq<SessionEventView>,
)
    requires
        !(state is Finished),
        run(kind, state, events).state is Finished,
    ensures
        exists|i: int| 0 <= i < events.len() && carries_response(#[trigger] events[i]),
    decreases events.len(),
{
    if events.len() > 0 {
        let head = step(kind, state, events[0]);
        if head.state is Finished {
            assert(carries_response(events[0]));
        } else {
            lemma_finished_by_response(kind, head.state, events.drop_first());
            let i = choose|i: int|
                0 <= i < events.drop_first().len() && carries_response(
                    #[trigger] events.drop_first()[i],
                );
            assert(events.drop_first()[i] == events[i + 1]);
            assert(carries_response(events[i + 1]));
        }
    }
}

} // verus!
