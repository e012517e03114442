//! The messages of a session: the request that opens it, what the daemon
//! sends, and the reply to a prompt. Each is one line of JSON.

use crate::json::{
    as_integer, as_list, as_text, json_text, member, text_items, texts_among, write_json, JsonTree,
    JsonValue,
};
use crate::text::{same_text, to_chars, text_of};
use vstd::prelude::*;

verus! {

/// What a request asks of the daemon.
#[derive(Clone, Copy, Debug, PartialEq, Eq, Structural)]
pub enum RequestKind {
    /// Run a command.
    Run,
    /// List completions for a command line.
    Complete,
}

impl RequestKind {
    /// The name of the kind on the wire.
    pub open spec fn name(self) -> Seq<char> {
        match self {
            RequestKind::Run => "run"@,
            RequestKind::Complete => "complete"@,
        }
    }
}

/// The request that opens a session.
#[derive(Debug, PartialEq, Eq)]
pub struct Request {
    pub kind: RequestKind,
    pub argv: Vec<String>,
    pub cwd: String,
    /// The shell to complete for; only a `Complete` request has one.
    pub shell: Option<String>,
    pub color: bool,
}

/// What a `Request` stands for.
pub struct RequestView {
    pub kind: RequestKind,
    pub argv: Seq<Seq<char>>,
    pub cwd: Seq<char>,
    pub shell: Option<Seq<char>>,
    pub color: bool,
}

impl View for Request {
    type V = RequestView;

    open spec fn view(&self) -> RequestView {
        RequestView {
            kind: self.kind,
            argv: self.argv.deep_view(),
            cwd: self.cwd@,
            shell: self.shell.deep_view(),
            color: self.color,
        }
    }
}

/// The JSON object that carries a request: `kind`, `argv`, `cwd` and
/// `color`, and `shell` where the request has one.
pub open spec fn request_tree(request: RequestView) -> JsonTree {
    let members = seq![
        ("kind"@, JsonTree::Text(request.kind.name())),
        ("argv"@, JsonTree::List(text_items(request.argv))),
        ("cwd"@, JsonTree::Text(request.cwd)),
        ("color"@, JsonTree::Bool(request.color)),
    ];
    JsonTree::Record(
        match request.shell {
            Some(shell) => members.push(("shell"@, JsonTree::Text(shell))),
            None => members,
        },
    )
}

impl Request {
    /// Whether the request is one that this crate builds: only a `Complete`
    /// request names a shell.
    pub open spec fn well_formed(&self) -> bool {
        self.kind == RequestKind::Run ==> self.shell is None
    }

    /// The request as a JSON document.
    pub fn to_json(&self) -> (value: JsonValue)
        ensures
            value@ == request_tree(self@),
    {
        let kind = match self.kind {
            RequestKind::Run => JsonValue::text("run"),
            RequestKind::Complete => JsonValue::text("complete"),
        };
        let mut members: Vec<(String, JsonValue)> = Vec::new();
        members.push(("kind".to_owned(), kind));
        members.push(("argv".to_owned(), JsonValue::text_list(&self.argv)));
        members.push(("cwd".to_owned(), JsonValue::text(self.cwd.as_str())));
        members.push(("color".to_owned(), JsonValue::Bool(self.color)));
        match &self.shell {
            Some(shell) => {
                members.push(("shell".to_owned(), JsonValue::text(shell.as_str())));
            },
            None => {},
        }
        let value = JsonValue::record(members);
        assert(value@->Record_0 =~= request_tree(self@)->Record_0);
        value
    }

    /// The line that carries the request, without its line break.
    pub fn encode(&self) -> (line: String)
        ensures
            line@ == json_text(request_tree(self@)),
            !line@.contains('\n'),
    {
        write_json(&self.to_json())
    }
}

/// `s` without the line breaks it ends with.
pub open spec fn without_line_end(s: Seq<char>) -> Seq<char>
    decreases s.len(),
{
    if s.len() > 0 && s.last() == '\n' {
        without_line_end(s.drop_last())
    } else {
        s
    }
}

/// The JSON object that answers a prompt with `value`.
pub open spec fn input_tree(value: Seq<char>) -> JsonTree {
    JsonTree::Record(seq![("kind"@, JsonTree::Text("input"@)), ("value"@, JsonTree::Text(value))])
}

/// The answer to a prompt as a JSON document: the line that was read, without
/// the line breaks at its end.
pub fn input_message(line: &str) -> (value: JsonValue)
    ensures
        value@ == input_tree(without_line_end(line@)),
{
    let chars = to_chars(line);
    let mut end: usize = chars.len();
    assert(chars@.take(end as int) == chars@);
    while end > 0 && chars[end - 1] == '\n'
        invariant
            end <= chars.len(),
            without_line_end(chars@) == without_line_end(chars@.take(end as int)),
        decreases end,
    {
        assert(chars@.take(end as int).drop_last() == chars@.take(end - 1));
        end -= 1;
    }
    let answer = text_of(&chars, 0, end);
    let mut members: Vec<(String, JsonValue)> = Vec::new();
    members.push(("kind".to_owned(), JsonValue::text("input")));
    members.push(("value".to_owned(), JsonValue::text(answer.as_str())));
    let value = JsonValue::record(members);
    assert(value@->Record_0 =~= input_tree(without_line_end(line@))->Record_0);
    value
}

/// The final message of a session.
#[derive(Debug, PartialEq, Eq)]
pub struct Response {
    pub stdout: Option<String>,
    pub stderr: Option<String>,
    pub exit_code: Option<i64>,
    pub completions: Option<Vec<String>>,
    pub completion_output: Option<String>,
}

/// What a `Response` stands for.
pub struct ResponseView {
    pub stdout: Option<Seq<char>>,
    pub stderr: Option<Seq<char>>,
    pub exit_code: Option<i64>,
    pub completions: Option<Seq<Seq<char>>>,
    pub completion_output: Option<Seq<char>>,
}

impl View for Response {
    type V = ResponseView;

    open spec fn view(&self) -> ResponseView {
        ResponseView {
            stdout: self.stdout.deep_view(),
            stderr: self.stderr.deep_view(),
            exit_code: self.exit_code,
            completions: self.completions.deep_view(),
            completion_output: self.completion_output.deep_view(),
        }
    }
}

/// A message from the daemon.
#[derive(Debug, PartialEq, Eq)]
pub enum Message {
    /// The daemon asks for one line of input.
    Prompt { message: Option<String> },
    /// The daemon has output to show at once.
    Write { text: Option<String> },
    /// The daemon is done.
    Response(Response),
    /// A message of a kind that this client does not know.
    Other,
}

/// What a `Message` stands for.
pub enum MessageView {
    Prompt { message: Option<Seq<char>> },
    Write { text: Option<Seq<char>> },
    Response(ResponseView),
    Other,
}

impl View for Message {
    type V = MessageView;

    open spec fn view(&self) -> MessageView {
        match self {
            Message::Prompt { message } => MessageView::Prompt { message: message.deep_view() },
            Message::Write { text } => MessageView::Write { text: text.deep_view() },
            Message::Response(response) => MessageView::Response(response@),
            Message::Other => MessageView::Other,
        }
    }
}

/// The text of the member `name`, where it is a string.
pub open spec fn text_member(tree: JsonTree, name: Seq<char>) -> Option<Seq<char>> {
    as_text(member(tree, name))
}

/// The response that a document carries.
pub open spec fn decode_response(tree: JsonTree) -> ResponseView {
    ResponseView {
        stdout: text_member(tree, "stdout"@),
        stderr: text_member(tree, "stderr"@),
        exit_code: as_integer(member(tree, "exitCode"@)),
        completions: match as_list(member(tree, "completions"@)) {
            Some(items) => Some(texts_among(items)),
            None => None,
        },
        completion_output: text_member(tree, "completionOutput"@),
    }
}

/// The message that a document carries. Its member `kind` decides; a
/// document without one, or with one that is not known, is `Other`.
pub open spec fn decode(tree: JsonTree) -> MessageView {
    let kind = text_member(tree, "kind"@);
    if kind == Some("prompt"@) {
        MessageView::Prompt { message: text_member(tree, "message"@) }
    } else if kind == Some("write"@) {
        MessageView::Write { text: text_member(tree, "text"@) }
    } else if kind == Some("response"@) {
        MessageView::Response(decode_response(tree))
    } else {
        MessageView::Other
    }
}

/// The text of the member `name` of `value`, where it is a string.
fn read_text(value: &JsonValue, name: &str) -> (text: Option<String>)
    ensures
        text.deep_view() == text_member(value@, name@),
{
    match value.member(name) {
        Some(found) => match found.as_text() {
            Some(s) => Some(s.clone()),
            None => None,
        },
        None => None,
    }
}

/// The message that `value` carries.
pub fn decode_message(value: &JsonValue) -> (message: Message)
    ensures
        message@ == decode(value@),
{
    let kind = match read_text(value, "kind") {
        Some(kind) => kind,
        None => { return Message::Other; },
    };
    if same_text(kind.as_str(), "prompt") {
        Message::Prompt { message: read_text(value, "message") }
    } else if same_text(kind.as_str(), "write") {
        Message::Write { text: read_text(value, "text") }
    } else if same_text(kind.as_str(), "response") {
        let exit_code = match value.member("exitCode") {
            Some(found) => found.as_integer(),
            None => None,
        };
        let completions = match value.member("completions") {
            Some(found) => found.texts(),
            None => None,
        };
        Message::Response(
            Response {
                stdout: read_text(value, "stdout"),
                stderr: read_text(value, "stderr"),
                exit_code,
                completions,
                completion_output: read_text(value, "completionOutput"),
            },
        )
    } else {
        Message::Other
    }
}

} // verus!
