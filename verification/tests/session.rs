use max_cli::invocation::{
    direct_status, has_arg, plan_invocation, run_direct, should_use_color, Invocation,
};
use max_cli::json::JsonValue;
use max_cli::protocol::{
    decode_message, input_message, Message, Request, RequestKind, Response,
};
use max_cli::session::{
    begin, on_line, react, session_step, Effect, IoFailure, Reaction, SessionError, SessionEvent,
    SessionState, FAILURE_STATUS,
};

fn texts(items: &[&str]) -> Vec<String> {
    items.iter().map(|s| s.to_string()).collect()
}

fn text(s: &str) -> JsonValue {
    JsonValue::Text(s.to_string())
}

fn record(members: Vec<(&str, JsonValue)>) -> JsonValue {
    JsonValue::Record(members.into_iter().map(|(k, v)| (k.to_string(), v)).collect())
}

fn line(s: &str) -> SessionEvent {
    SessionEvent::Line(s.to_string())
}

fn print(s: &str) -> Effect {
    Effect::Print(s.to_string())
}

fn run(kind: RequestKind, events: Vec<SessionEvent>) -> (SessionState, Vec<Effect>) {
    let mut state = SessionState::Listening;
    let mut effects = Vec::new();
    for event in events {
        let Reaction { state: next, effects: more } = session_step(kind, state, event);
        state = next;
        effects.extend(more);
    }
    (state, effects)
}

#[test]
fn request_is_one_line_of_json() {
    let request = Request {
        kind: RequestKind::Run,
        argv: texts(&["build", "--fast"]),
        cwd: "/w".to_string(),
        shell: None,
        color: true,
    };
    assert_eq!(
        request.encode(),
        "{\"argv\":[\"build\",\"--fast\"],\"color\":true,\"cwd\":\"/w\",\"kind\":\"run\"}"
    );
}

#[test]
fn complete_request_names_the_shell() {
    let request = Request {
        kind: RequestKind::Complete,
        argv: vec![],
        cwd: "/w".to_string(),
        shell: Some("zsh".to_string()),
        color: false,
    };
    assert_eq!(
        request.encode(),
        "{\"argv\":[],\"color\":false,\"cwd\":\"/w\",\"kind\":\"complete\",\"shell\":\"zsh\"}"
    );
}

#[test]
fn request_with_a_line_break_in_an_argument_stays_one_line() {
    let request = Request {
        kind: RequestKind::Run,
        argv: texts(&["a\nb"]),
        cwd: "/w\n".to_string(),
        shell: None,
        color: false,
    };
    let encoded = request.encode();
    assert!(!encoded.contains('\n'));
    assert!(encoded.contains("a\\nb"));
}

#[test]
fn request_as_a_document() {
    let request = Request {
        kind: RequestKind::Complete,
        argv: texts(&["x"]),
        cwd: "/w".to_string(),
        shell: Some("fish".to_string()),
        color: true,
    };
    assert_eq!(
        request.to_json(),
        record(vec![
            ("kind", text("complete")),
            ("argv", JsonValue::List(vec![text("x")])),
            ("cwd", text("/w")),
            ("color", JsonValue::Bool(true)),
            ("shell", text("fish")),
        ])
    );
}

#[test]
fn session_begins_with_the_request() {
    let request = Request {
        kind: RequestKind::Run,
        argv: vec![],
        cwd: "/".to_string(),
        shell: None,
        color: false,
    };
    let start = begin(&request);
    assert_eq!(start.state, SessionState::Listening);
    assert_eq!(
        start.effects,
        vec![Effect::Send {
            line: "{\"argv\":[],\"color\":false,\"cwd\":\"/\",\"kind\":\"run\"}".to_string(),
            failure: IoFailure::WriteRequest,
        }]
    );
}

#[test]
fn input_message_strips_the_line_breaks_at_the_end() {
    assert_eq!(
        input_message("yes\n"),
        record(vec![("kind", text("input")), ("value", text("yes"))])
    );
    assert_eq!(
        input_message("yes\n\n"),
        record(vec![("kind", text("input")), ("value", text("yes"))])
    );
    assert_eq!(
        input_message("a\nb \r\n"),
        record(vec![("kind", text("input")), ("value", text("a\nb \r"))])
    );
    assert_eq!(input_message(""), record(vec![("kind", text("input")), ("value", text(""))]));
}

#[test]
fn messages_are_told_apart_by_their_kind() {
    assert_eq!(
        decode_message(&record(vec![("kind", text("prompt")), ("message", text("B? "))])),
        Message::Prompt { message: Some("B? ".to_string()) }
    );
    assert_eq!(
        decode_message(&record(vec![("kind", text("write")), ("text", text("A"))])),
        Message::Write { text: Some("A".to_string()) }
    );
    assert_eq!(
        decode_message(&record(vec![("kind", text("later")), ("text", text("A"))])),
        Message::Other
    );
    assert_eq!(decode_message(&record(vec![("text", text("A"))])), Message::Other);
    assert_eq!(decode_message(&JsonValue::Integer(3)), Message::Other);
    assert_eq!(decode_message(&record(vec![("kind", JsonValue::Integer(1))])), Message::Other);
}

#[test]
fn a_member_of_the_wrong_type_counts_as_missing() {
    assert_eq!(
        decode_message(&record(vec![("kind", text("write")), ("text", JsonValue::Integer(5))])),
        Message::Write { text: None }
    );
    assert_eq!(
        decode_message(&record(vec![("kind", text("prompt"))])),
        Message::Prompt { message: None }
    );
}

#[test]
fn response_carries_what_it_names() {
    let value = record(vec![
        ("kind", text("response")),
        ("stdout", text("out")),
        ("stderr", text("err")),
        ("exitCode", JsonValue::Integer(3)),
        ("completions", JsonValue::List(vec![text("x"), JsonValue::Null, text("y")])),
        ("completionOutput", text("foo\n")),
    ]);
    assert_eq!(
        decode_message(&value),
        Message::Response(Response {
            stdout: Some("out".to_string()),
            stderr: Some("err".to_string()),
            exit_code: Some(3),
            completions: Some(texts(&["x", "y"])),
            completion_output: Some("foo\n".to_string()),
        })
    );
    assert_eq!(
        decode_message(&record(vec![("kind", text("response")), ("exitCode", JsonValue::OtherNumber)])),
        Message::Response(Response {
            stdout: None,
            stderr: None,
            exit_code: None,
            completions: None,
            completion_output: None,
        })
    );
}

#[test]
fn protocol_ordering() {
    let mut state = SessionState::Listening;
    let mut log: Vec<Effect> = Vec::new();
    let script = vec![
        line("{\"kind\":\"write\",\"text\":\"A\"}\n"),
        line("{\"kind\":\"prompt\",\"message\":\"B? \"}\n"),
        SessionEvent::Input("yes\n".to_string()),
        line("{\"kind\":\"write\",\"text\":\"C\"}\n"),
        line("{\"kind\":\"response\",\"stdout\":\"D\",\"exitCode\":0}\n"),
    ];
    let waits = vec![
        SessionState::Listening,
        SessionState::Prompting,
        SessionState::Listening,
        SessionState::Listening,
        SessionState::Finished { status: 0 },
    ];
    for (event, expected) in script.into_iter().zip(waits) {
        let reaction = session_step(RequestKind::Run, state, event);
        state = reaction.state;
        assert_eq!(state, expected);
        log.extend(reaction.effects);
    }
    assert_eq!(
        log,
        vec![
            print("A"),
            print("B? "),
            Effect::Send {
                line: "{\"kind\":\"input\",\"value\":\"yes\"}".to_string(),
                failure: IoFailure::WriteInput,
            },
            print("C"),
            print("D"),
        ]
    );
    assert_eq!(state.exit_status(), Some(0));
}

#[test]
fn completion_output_is_printed_as_it_is() {
    let (state, effects) = run(
        RequestKind::Complete,
        vec![line("{\"kind\":\"response\",\"completionOutput\":\"foo\\nbar\\n\"}")],
    );
    assert_eq!(effects, vec![print("foo\nbar\n")]);
    assert_eq!(state, SessionState::Finished { status: 0 });
}

#[test]
fn completion_output_goes_before_completions() {
    let (_, effects) = run(
        RequestKind::Complete,
        vec![line(
            "{\"kind\":\"response\",\"completions\":[\"x\"],\"completionOutput\":\"only\",\"stdout\":\"no\"}",
        )],
    );
    assert_eq!(effects, vec![print("only")]);
}

#[test]
fn completions_are_printed_one_on_each_line() {
    let (state, effects) = run(
        RequestKind::Complete,
        vec![line("{\"kind\":\"response\",\"completions\":[\"x\",\"y\"]}")],
    );
    assert_eq!(effects, vec![print("x\n"), print("y\n")]);
    assert_eq!(state, SessionState::Finished { status: 0 });
}

#[test]
fn completion_without_either_prints_nothing() {
    let (state, effects) = run(
        RequestKind::Complete,
        vec![line("{\"kind\":\"response\",\"stdout\":\"ignored\",\"exitCode\":3}")],
    );
    assert_eq!(effects, vec![]);
    assert_eq!(state.exit_status(), Some(0));
}

#[test]
fn run_response_prints_both_streams_and_leaves_with_the_exit_code() {
    let (state, effects) = run(
        RequestKind::Run,
        vec![line("{\"kind\":\"response\",\"stdout\":\"out\",\"stderr\":\"err\",\"exitCode\":7}")],
    );
    assert_eq!(effects, vec![print("out"), Effect::PrintError("err".to_string())]);
    assert_eq!(state, SessionState::Finished { status: 7 });
}

#[test]
fn exit_code_is_one_where_the_response_has_none() {
    let (state, _) = run(RequestKind::Run, vec![line("{\"kind\":\"response\"}")]);
    assert_eq!(state.exit_status(), Some(1));
    let (state, _) = run(RequestKind::Run, vec![line("{\"kind\":\"response\",\"exitCode\":1.5}")]);
    assert_eq!(state.exit_status(), Some(1));
    let (state, _) =
        run(RequestKind::Run, vec![line("{\"kind\":\"response\",\"exitCode\":\"0\"}")]);
    assert_eq!(state.exit_status(), Some(1));
}

#[test]
fn exit_code_is_cut_to_32_bits() {
    let response = |code: i64| {
        Message::Response(Response {
            stdout: None,
            stderr: None,
            exit_code: Some(code),
            completions: None,
            completion_output: None,
        })
    };
    assert_eq!(react(RequestKind::Run, &response(-1)).state, SessionState::Finished { status: -1 });
    assert_eq!(
        react(RequestKind::Run, &response(4294967296 + 5)).state,
        SessionState::Finished { status: 5 }
    );
    assert_eq!(
        react(RequestKind::Run, &response(2147483648)).state,
        SessionState::Finished { status: -2147483648 }
    );
}

#[test]
fn unexpected_close() {
    let reaction = session_step(RequestKind::Run, SessionState::Listening, SessionEvent::Closed);
    assert_eq!(reaction.effects, vec![]);
    assert_eq!(reaction.state, SessionState::Failed(SessionError::UnexpectedClose));
    assert_eq!(reaction.state.exit_status(), Some(1));
    assert_eq!(
        SessionError::UnexpectedClose.message(),
        "Daemon closed connection unexpectedly"
    );
}

#[test]
fn close_after_writes_prints_only_the_writes() {
    let (state, effects) = run(
        RequestKind::Run,
        vec![line("{\"kind\":\"write\",\"text\":\"A\"}"), SessionEvent::Closed],
    );
    assert_eq!(effects, vec![print("A")]);
    assert_eq!(state, SessionState::Failed(SessionError::UnexpectedClose));
}

#[test]
fn a_line_that_is_no_json_ends_the_session() {
    let reaction = on_line(RequestKind::Run, "{\"kind\":");
    assert_eq!(reaction.effects, vec![]);
    assert_eq!(reaction.state.exit_status(), Some(1));
    match reaction.state {
        SessionState::Failed(SessionError::Parse(cause)) => {
            assert!(cause.contains("line 1"), "{}", cause);
            assert_eq!(
                SessionError::Parse(cause.clone()).message(),
                format!("Error parsing message: {}", cause)
            );
        }
        other => panic!("{:?}", other),
    }
    let empty = on_line(RequestKind::Run, "  \n");
    assert!(matches!(empty.state, SessionState::Failed(SessionError::Parse(_))));
}

#[test]
fn the_line_is_trimmed_before_it_is_read() {
    let reaction = on_line(RequestKind::Run, "\u{a0} {\"kind\":\"write\",\"text\":\"A\"} \r\n");
    assert_eq!(reaction.effects, vec![print("A")]);
    assert_eq!(reaction.state, SessionState::Listening);
}

#[test]
fn unknown_kinds_are_passed_over() {
    let (state, effects) = run(
        RequestKind::Run,
        vec![line("{\"kind\":\"progress\",\"text\":\"50%\"}"), line("[1,2]"), line("null")],
    );
    assert_eq!(effects, vec![]);
    assert_eq!(state, SessionState::Listening);
}

#[test]
fn a_prompt_without_a_message_still_asks() {
    let (state, effects) = run(RequestKind::Run, vec![line("{\"kind\":\"prompt\"}")]);
    assert_eq!(effects, vec![]);
    assert_eq!(state, SessionState::Prompting);
}

#[test]
fn input_at_the_end_of_the_terminal_is_empty() {
    let reaction =
        session_step(RequestKind::Run, SessionState::Prompting, SessionEvent::Input(String::new()));
    assert_eq!(
        reaction.effects,
        vec![Effect::Send {
            line: "{\"kind\":\"input\",\"value\":\"\"}".to_string(),
            failure: IoFailure::WriteInput,
        }]
    );
    assert_eq!(reaction.state, SessionState::Listening);
}

#[test]
fn input_is_escaped_on_the_wire() {
    let reaction = session_step(
        RequestKind::Run,
        SessionState::Prompting,
        SessionEvent::Input("a \"b\"\n c\\\n".to_string()),
    );
    assert_eq!(
        reaction.effects,
        vec![Effect::Send {
            line: "{\"kind\":\"input\",\"value\":\"a \\\"b\\\"\\n c\\\\\"}".to_string(),
            failure: IoFailure::WriteInput,
        }]
    );
}

#[test]
fn nothing_follows_the_response() {
    let (state, effects) = run(
        RequestKind::Run,
        vec![
            line("{\"kind\":\"response\",\"stdout\":\"D\",\"exitCode\":2}"),
            line("{\"kind\":\"write\",\"text\":\"late\"}"),
            SessionEvent::Closed,
            SessionEvent::Input("x".to_string()),
        ],
    );
    assert_eq!(effects, vec![print("D")]);
    assert_eq!(state, SessionState::Finished { status: 2 });
}

#[test]
fn events_that_are_not_waited_for_change_nothing() {
    let reaction =
        session_step(RequestKind::Run, SessionState::Listening, SessionEvent::Input("x".to_string()));
    assert_eq!(reaction.state, SessionState::Listening);
    assert_eq!(reaction.effects, vec![]);
    let reaction = session_step(RequestKind::Run, SessionState::Prompting, SessionEvent::Closed);
    assert_eq!(reaction.state, SessionState::Prompting);
    assert_eq!(reaction.effects, vec![]);
}

#[test]
fn a_failed_read_or_write_ends_the_session() {
    let cases = [
        (IoFailure::WriteRequest, "Error writing to socket: broken pipe"),
        (IoFailure::ReadMessage, "Error reading from socket: broken pipe"),
        (IoFailure::ReadInput, "Error reading input: broken pipe"),
        (IoFailure::WriteInput, "Error writing input to socket: broken pipe"),
    ];
    for (failure, message) in cases {
        let reaction = session_step(
            RequestKind::Run,
            SessionState::Listening,
            SessionEvent::Broken { failure, cause: "broken pipe".to_string() },
        );
        assert_eq!(reaction.effects, vec![]);
        assert_eq!(reaction.state.exit_status(), Some(1));
        match reaction.state {
            SessionState::Failed(error) => assert_eq!(error.message(), message),
            other => panic!("{:?}", other),
        }
    }
}

#[test]
fn a_failure_of_the_client_gives_status_one() {
    assert_eq!(FAILURE_STATUS, 1);
    let failed = SessionState::Failed(SessionError::Parse("x".to_string()));
    assert_eq!(failed.exit_status(), Some(1));
}

#[test]
fn a_failed_read_is_named_after_what_was_read() {
    assert_eq!(SessionState::Listening.read_failure(), Some(IoFailure::ReadMessage));
    assert_eq!(SessionState::Prompting.read_failure(), Some(IoFailure::ReadInput));
    assert_eq!(SessionState::Finished { status: 0 }.read_failure(), None);
}

#[test]
fn a_session_under_way_has_no_exit_status() {
    assert_eq!(SessionState::Listening.exit_status(), None);
    assert_eq!(SessionState::Prompting.exit_status(), None);
}

#[test]
fn color_flags_go_first() {
    assert!(!should_use_color(&texts(&["build", "--no-color", "--color"]), false, Some("1"), true));
    assert!(should_use_color(&texts(&["--color"]), true, Some("0"), false));
}

#[test]
fn color_follows_the_environment_then_the_terminal() {
    let none: Vec<String> = vec![];
    assert!(!should_use_color(&none, true, Some("1"), true));
    assert!(should_use_color(&none, false, Some("1"), false));
    assert!(should_use_color(&none, false, Some(""), false));
    assert!(!should_use_color(&none, false, Some("0"), false));
    assert!(should_use_color(&none, false, Some("0"), true));
    assert!(should_use_color(&none, false, None, true));
    assert!(!should_use_color(&none, false, None, false));
}

#[test]
fn has_arg_looks_for_the_whole_argument() {
    assert!(has_arg(&texts(&["a", "--color"]), "--color"));
    assert!(!has_arg(&texts(&["a", "--color=always"]), "--color"));
    assert!(!has_arg(&vec![], "--color"));
}

#[test]
fn direct_run_passes_the_arguments_on() {
    let command = run_direct("/opt/index.ts", &texts(&["init", "-y"]), None);
    assert_eq!(command.program, "bun");
    assert_eq!(command.args, vec!["run", "/opt/index.ts", "init", "-y"]);
    let command = run_direct("/opt/index.ts", &texts(&["daemon", "stop"]), Some("/work/app"));
    assert_eq!(
        command.args,
        vec!["run", "/opt/index.ts", "--project-root", "/work/app", "daemon", "stop"]
    );
}

#[test]
fn direct_run_leaves_with_the_status_of_the_program() {
    assert_eq!(direct_status(Some(0)), 0);
    assert_eq!(direct_status(Some(42)), 42);
    assert_eq!(direct_status(None), 1);
}

#[test]
fn the_daemon_subcommand_never_goes_to_the_daemon() {
    let plan = plan_invocation(texts(&["daemon", "stop"]), "/w", Some("/w".to_string()), true);
    assert_eq!(
        plan,
        Invocation::Direct { args: texts(&["daemon", "stop"]), project_root: Some("/w".to_string()) }
    );
}

#[test]
fn outside_a_project_the_program_is_run_itself() {
    let plan = plan_invocation(texts(&["init"]), "/w", None, false);
    assert_eq!(plan, Invocation::Direct { args: texts(&["init"]), project_root: None });
    let plan = plan_invocation(vec![], "/w", None, false);
    assert_eq!(plan, Invocation::Direct { args: vec![], project_root: None });
}

#[test]
fn a_command_in_a_project_is_a_run_request() {
    let plan = plan_invocation(texts(&["build", "x"]), "/w/sub", Some("/w".to_string()), true);
    assert_eq!(
        plan,
        Invocation::Daemon {
            request: Request {
                kind: RequestKind::Run,
                argv: texts(&["build", "x"]),
                cwd: "/w/sub".to_string(),
                shell: None,
                color: true,
            },
            root: "/w".to_string(),
        }
    );
}

#[test]
fn completion_takes_the_shell_from_the_arguments() {
    let plan =
        plan_invocation(texts(&["__complete", "zsh", "bu"]), "/w", Some("/w".to_string()), false);
    assert_eq!(
        plan,
        Invocation::Daemon {
            request: Request {
                kind: RequestKind::Complete,
                argv: texts(&["bu"]),
                cwd: "/w".to_string(),
                shell: Some("zsh".to_string()),
                color: false,
            },
            root: "/w".to_string(),
        }
    );
    let plan = plan_invocation(texts(&["__complete"]), "/w", Some("/w".to_string()), false);
    assert_eq!(
        plan,
        Invocation::Daemon {
            request: Request {
                kind: RequestKind::Complete,
                argv: vec![],
                cwd: "/w".to_string(),
                shell: None,
                color: false,
            },
            root: "/w".to_string(),
        }
    );
}
