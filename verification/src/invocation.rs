//! What one invocation of the client does: whether it goes to the daemon or
//! runs the program itself, with which request, and in which colours.

use crate::protocol::{Request, RequestKind, RequestView};
use crate::text::{push_text, same_text};
use vstd::prelude::*;

verus! {

/// A program to run, with its arguments.
#[derive(Debug, PartialEq, Eq)]
pub struct Command {
    pub program: String,
    pub args: Vec<String>,
}

/// What a `Command` stands for.
pub struct CommandView {
    pub program: Seq<char>,
    pub args: Seq<Seq<char>>,
}

impl View for Command {
    type V = CommandView;

    open spec fn view(&self) -> CommandView {
        CommandView { program: self.program@, args: self.args.deep_view() }
    }
}

/// Whether one of `args` is `flag`.
pub fn has_arg(args: &Vec<String>, flag: &str) -> (found: bool)
    ensures
        found == args.deep_view().contains(flag@),
{
    let mut i: usize = 0;
    while i < args.len()
        invariant
            i <= args.len(),
            forall|j: int| 0 <= j < i ==> args.deep_view()[j] != flag@,
        decreases args.len() - i,
    {
        if same_text(args[i].as_str(), flag) {
            assert(args.deep_view()[i as int] == flag@);
            return true;
        }
        i += 1;
    }
    false
}

/// Whether output is coloured: `--no-color` and `--color` among the
/// arguments decide first, in this order; then a set `NO_COLOR` says no; then
/// a `FORCE_COLOR` other than `0` says yes; else it is coloured on a terminal
/// only.
pub open spec fn use_color(
    args: Seq<Seq<char>>,
    no_color: bool,
    force_color: Option<Seq<char>>,
    terminal: bool,
) -> bool {
    if args.contains("--no-color"@) {
        false
    } else if args.contains("--color"@) {
        true
    } else if no_color {
        false
    } else if force_color matches Some(value) && value != "0"@ {
        true
    } else {
        terminal
    }
}

/// Whether output is coloured. `no_color` says whether the variable
/// `NO_COLOR` is set, `force_color` is the value of `FORCE_COLOR` where it is
/// set, and `terminal` says whether standard output is a terminal.
pub fn should_use_color(
    args: &Vec<String>,
    no_color: bool,
    force_color: Option<&str>,
    terminal: bool,
) -> (color: bool)
    ensures
        color == use_color(args.deep_view(), no_color, force_color.deep_view(), terminal),
{
    if has_arg(args, "--no-color") {
        return false;
    }
    if has_arg(args, "--color") {
        return true;
    }
    if no_color {
        return false;
    }
    match force_color {
        Some(value) => {
            if !same_text(value, "0") {
                return true;
            }
        },
        None => {},
    }
    terminal
}

/// The arguments of the runtime for running the program itself: `run`, the
/// script, the project root where there is one, then the user's arguments.
pub open spec fn direct_args(
    script: Seq<char>,
    args: Seq<Seq<char>>,
    project_root: Option<Seq<char>>,
) -> Seq<Seq<char>> {
    let head = seq!["run"@, script];
    let root = match project_root {
        Some(root) => seq!["--project-root"@, root],
        None => Seq::empty(),
    };
    head + root + args
}

/// The command that runs the program itself, without the daemon.
pub fn run_direct(script: &str, args: &Vec<String>, project_root: Option<&str>) -> (command:
    Command)
    ensures
        command@.program == "bun"@,
        command@.args == direct_args(script@, args.deep_view(), project_root.deep_view()),
{
    let mut all: Vec<String> = Vec::new();
    all.push("run".to_owned());
    all.push(script.to_owned());
    match project_root {
        Some(root) => {
            all.push("--project-root".to_owned());
            all.push(root.to_owned());
        },
        None => {},
    }
    let ghost head = all.deep_view();
    assert(head =~= direct_args(script@, Seq::empty(), project_root.deep_view()));
    let mut i: usize = 0;
    while i < args.len()
        invariant
            i <= args.len(),
            all.deep_view() =~= head + args.deep_view().take(i as int),
        decreases args.len() - i,
    {
        assert(args.deep_view().take(i + 1) =~= args.deep_view().take(i as int).push(args@[i as int]@));
        push_text(&mut all, args[i].clone());
        i += 1;
    }
    assert(args.deep_view().take(i as int) =~= args.deep_view());
    let command = Command { program: "bun".to_owned(), args: all };
    assert(command@.args =~= direct_args(script@, args.deep_view(), project_root.deep_view()));
    command
}

/// The status that the process leaves with after running the program itself:
/// that of the program, or 1 where it has none.
pub fn direct_status(code: Option<i32>) -> (status: i32)
    ensures
        status == match code {
            Some(code) => code,
            None => 1i32,
        },
{
    match code {
        Some(code) => code,
        None => 1,
    }
}

/// What an invocation does.
#[derive(Debug, PartialEq, Eq)]
pub enum Invocation {
    /// Run the program itself with these arguments.
    Direct { args: Vec<String>, project_root: Option<String> },
    /// Send the request to the daemon of the project.
    Daemon { request: Request, root: String },
}

/// What an `Invocation` stands for.
pub enum InvocationView {
    Direct { args: Seq<Seq<char>>, project_root: Option<Seq<char>> },
    Daemon { request: RequestView, root: Seq<char> },
}

impl View for Invocation {
    type V = InvocationView;

    open spec fn view(&self) -> InvocationView {
        match self {
            Invocation::Direct { args, project_root } => InvocationView::Direct {
                args: args.deep_view(),
                project_root: project_root.deep_view(),
            },
            Invocation::Daemon { request, root } => InvocationView::Daemon {
                request: request@,
                root: root@,
            },
        }
    }
}

/// What an invocation with the arguments `args` does. The subcommand
/// `daemon` never goes to the daemon, and outside a project nothing does.
/// Else `__complete` asks for completions, for the shell named after it
/// where one is, and anything else is run.
pub open spec fn invocation_for(
    args: Seq<Seq<char>>,
    cwd: Seq<char>,
    project_root: Option<Seq<char>>,
    color: bool,
) -> InvocationView {
    if args.len() > 0 && args[0] == "daemon"@ {
        InvocationView::Direct { args, project_root }
    } else {
        match project_root {
            None => InvocationView::Direct { args, project_root: None },
            Some(root) => {
                let request = if args.len() > 0 && args[0] == "__complete"@ {
                    RequestView {
                        kind: RequestKind::Complete,
                        argv: args.skip(if args.len() > 1 { 2int } else { 1int }),
                        cwd,
                        shell: if args.len() > 1 {
                            Some(args[1])
                        } else {
                            None
                        },
                        color,
                    }
                } else {
                    RequestView {
                        kind: RequestKind::Run,
                        argv: args,
                        cwd,
                        shell: None,
                        color,
                    }
                };
                InvocationView::Daemon { request, root }
            },
        }
    }
}

/// The arguments from the one at `from` on.
fn args_from(args: &Vec<String>, from: usize) -> (rest: Vec<String>)
    requires
        from <= args.len(),
    ensures
        rest.deep_view() == args.deep_view().skip(from as int),
{
    let mut rest: Vec<String> = Vec::new();
    let mut i: usize = from;
    while i < args.len()
        invariant
            from <= i <= args.len(),
            rest.deep_view() =~= args.deep_view().subrange(from as int, i as int),
        decreases args.len() - i,
    {
        assert(args.deep_view().subrange(from as int, i + 1) =~= args.deep_view().subrange(
            from as int,
            i as int,
        ).push(args@[i as int]@));
        push_text(&mut rest, args[i].clone());
        i += 1;
    }
    assert(args.deep_view().subrange(from as int, i as int) =~= args.deep_view().skip(
        from as int,
    ));
    rest
}

/// What an invocation with the arguments `args` does, in the directory `cwd`
/// and the project `project_root`, where there is one.
pub fn plan_invocation(
    args: Vec<String>,
    cwd: &str,
    project_root: Option<String>,
    color: bool,
) -> (invocation: Invocation)
    ensures
        invocation@ == invocation_for(args.deep_view(), cwd@, project_root.deep_view(), color),
        invocation matches Invocation::Daemon { request, .. } ==> request.well_formed(),
{
    if args.len() > 0 && same_text(args[0].as_str(), "daemon") {
        return Invocation::Direct { args, project_root };
    }
    let root = match project_root {
        Some(root) => root,
        None => { return Invocation::Direct { args, project_root: None }; },
    };
    let request = if args.len() > 0 && same_text(args[0].as_str(), "__complete") {
        if args.len() > 1 {
            Request {
                kind: RequestKind::Complete,
                argv: args_from(&args, 2),
                cwd: cwd.to_owned(),
                shell: Some(args[1].clone()),
                color,
            }
        } else {
            Request {
                kind: RequestKind::Complete,
                argv: args_from(&args, 1),
                cwd: cwd.to_owned(),
                shell: None,
                color,
            }
        }
    } else {
        Request { kind: RequestKind::Run, argv: args, cwd: cwd.to_owned(), shell: None, color }
    };
    Invocation::Daemon { request, root }
}

} // verus!
