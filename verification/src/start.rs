//! Starting the application: directly, with elevation, or through its
//! scheduled task.

use vstd::prelude::*;
use vstd::string::*;
use crate::command::{CommandLine, CommandLineView};
use crate::error::{ErrorKind, ErrorView, HostError};
use crate::install::names_of;

verus! {

/// How the target is started.
#[derive(Clone, Copy, Debug, PartialEq, Eq, Structural)]
pub enum StartMode {
    /// As an ordinary process.
    Direct,
    /// As a process with elevated privilege.
    Elevated,
    /// By running the scheduled task of that name.
    Task,
}

/// The characters that end a single-quoted text of the shell: the
/// apostrophe and the four typographic single quotes.
pub open spec fn is_quote(c: char) -> bool {
    c == '\'' || c == '\u{2018}' || c == '\u{2019}' || c == '\u{201a}' || c == '\u{201b}'
}

/// A text as it stands between single quotes: every quote doubled, every
/// other character as it is.
pub open spec fn quoted_body(s: Seq<char>) -> Seq<char>
    decreases s.len(),
{
    if s.len() == 0 {
        Seq::<char>::empty()
    } else if is_quote(s.last()) {
        quoted_body(s.drop_last()) + seq![s.last(), s.last()]
    } else {
        quoted_body(s.drop_last()) + seq![s.last()]
    }
}

/// A text as a single-quoted literal of the shell, which reads it back as
/// exactly that text.
pub open spec fn quoted(s: Seq<char>) -> Seq<char> {
    "'"@ + quoted_body(s) + "'"@
}

/// Computes `quoted`.
pub fn quote(s: &str) -> (r: String)
    ensures
        r@ == quoted(s@),
{
    let n: usize = s.unicode_len();
    let mut out: String = String::from_str("'");
    let mut i: usize = 0;
    assert(s@.take(0) =~= Seq::<char>::empty());
    assert(out@ =~= "'"@ + quoted_body(s@.take(0)));
    while i < n
        invariant
            i <= n,
            n == s@.len(),
            out@ == "'"@ + quoted_body(s@.take(i as int)),
        decreases n - i,
    {
        let c: char = s.get_char(i);
        let one: &str = s.substring_char(i, i + 1);
        proof {
            assert(s@.take(i + 1).drop_last() =~= s@.take(i as int));
            assert(s@.take(i + 1).last() == c);
            assert(one@ =~= seq![c]);
        }
        let ghost before = out@;
        out.append(one);
        if c == '\'' || c == '\u{2018}' || c == '\u{2019}' || c == '\u{201a}' || c == '\u{201b}' {
            out.append(one);
            assert(out@ =~= before + seq![c, c]);
        }
        assert(out@ =~= "'"@ + quoted_body(s@.take(i + 1)));
        i = i + 1;
    }
    assert(s@.take(n as int) =~= s@);
    out.append("'");
    out
}

/// The arguments as a list of the shell: each a literal of its own, a
/// comma between each two.
pub open spec fn argument_list(args: Seq<Seq<char>>) -> Seq<char>
    decreases args.len(),
{
    if args.len() == 0 {
        Seq::<char>::empty()
    } else if args.len() == 1 {
        quoted(args[0])
    } else {
        argument_list(args.drop_last()) + ","@ + quoted(args.last())
    }
}

/// Computes `argument_list`.
pub fn quote_args(args: &Vec<String>) -> (r: String)
    ensures
        r@ == argument_list(names_of(args@)),
{
    let ghost all = names_of(args@);
    let mut out: String = String::new();
    let mut i: usize = 0;
    assert(all.take(0) =~= Seq::<Seq<char>>::empty());
    while i < args.len()
        invariant
            i <= args.len(),
            all == names_of(args@),
            out@ == argument_list(all.take(i as int)),
        decreases args.len() - i,
    {
        proof {
            assert(all.take(i + 1).drop_last() =~= all.take(i as int));
            assert(all.take(i + 1).last() == args@[i as int]@);
            assert(all.take(i + 1)[0] == all[0]);
        }
        let item: String = quote(args[i].as_str());
        if i > 0 {
            out.append(",");
        } else {
            assert(out@ =~= Seq::<char>::empty());
            assert(out@ + item@ =~= item@);
        }
        out.append(item.as_str());
        i = i + 1;
    }
    assert(all.take(args.len() as int) =~= all);
    out
}

/// The script that starts `target`: the target as a literal, then the
/// argument list where there are arguments, then the request for elevation
/// where `elevated` holds.
pub open spec fn start_script(target: Seq<char>, args: Seq<Seq<char>>, elevated: bool) -> Seq<
    char,
> {
    "Start-Process -FilePath "@ + quoted(target) + (if args.len() > 0 {
        " -ArgumentList "@ + argument_list(args)
    } else {
        Seq::<char>::empty()
    }) + (if elevated {
        " -Verb RunAs"@
    } else {
        Seq::<char>::empty()
    })
}

/// The command that runs the start script.
pub open spec fn start_line(target: Seq<char>, args: Seq<Seq<char>>, elevated: bool) -> CommandLineView {
    CommandLineView {
        program: "powershell"@,
        args: seq!["-Command"@, start_script(target, args, elevated)],
    }
}

fn start_command(target: &str, args: &Vec<String>, elevated: bool) -> (c: CommandLine)
    ensures
        c@ == start_line(target@, names_of(args@), elevated),
{
    let mut script: String = String::from_str("Start-Process -FilePath ");
    script.append(quote(target).as_str());
    let ghost head = script@;
    if args.len() > 0 {
        script.append(" -ArgumentList ");
        script.append(quote_args(args).as_str());
    } else {
        assert(script@ =~= head + Seq::<char>::empty());
    }
    let ghost middle = script@;
    if elevated {
        script.append(" -Verb RunAs");
    } else {
        assert(script@ =~= middle + Seq::<char>::empty());
    }
    assert(script@ =~= start_script(target@, names_of(args@), elevated));
    let mut line: Vec<String> = Vec::new();
    line.push(String::from_str("-Command"));
    line.push(script);
    assert(names_of(line@) =~= seq!["-Command"@, start_script(target@, names_of(args@), elevated)]);
    CommandLine { program: String::from_str("powershell"), args: line }
}

/// Builds the command that starts `target` as an ordinary process.
pub fn start_direct_process(target: &str, args: &Vec<String>) -> (c: CommandLine)
    ensures
        c@ == start_line(target@, names_of(args@), false),
{
    start_command(target, args, false)
}

/// Builds the command that starts `target` with elevated privilege.
pub fn start_elevated_process(target: &str, args: &Vec<String>) -> (c: CommandLine)
    ensures
        c@ == start_line(target@, names_of(args@), true),
{
    start_command(target, args, true)
}

/// The command that runs the scheduled task called `name` at once.
pub open spec fn run_task_line(name: Seq<char>) -> CommandLineView {
    CommandLineView { program: "schtasks"@, args: seq!["/Run"@, "/TN"@, name] }
}

/// Builds the command that runs the scheduled task `task_name`.
pub fn start_task_scheduler(task_name: &str) -> (c: CommandLine)
    ensures
        c@ == run_task_line(task_name@),
{
    let mut args: Vec<String> = Vec::new();
    args.push(String::from_str("/Run"));
    args.push(String::from_str("/TN"));
    args.push(String::from_str(task_name));
    assert(names_of(args@) =~= seq!["/Run"@, "/TN"@, task_name@]);
    CommandLine { program: String::from_str("schtasks"), args }
}

/// A request to start the application.
#[derive(Debug)]
pub struct StartRequest {
    pub mode: StartMode,
    /// Path of the program, or name of the task in `StartMode::Task`.
    pub target: String,
    pub args: Vec<String>,
    /// Seconds to wait before the start; zero skips the wait.
    pub delay: u64,
    /// Whether the output of an elevated process is kept.
    pub verbose: bool,
}

/// A request as plain values.
pub struct StartRequestView {
    pub mode: StartMode,
    pub target: Seq<char>,
    pub args: Seq<Seq<char>>,
    pub delay: u64,
    pub verbose: bool,
}

impl View for StartRequest {
    type V = StartRequestView;

    open spec fn view(&self) -> StartRequestView {
        StartRequestView {
            mode: self.mode,
            target: self.target@,
            args: names_of(self.args@),
            delay: self.delay,
            verbose: self.verbose,
        }
    }
}

/// Where a start stands.
#[derive(Clone, Copy, Debug, PartialEq, Eq, Structural)]
pub enum StartStage {
    Start,
    Delaying,
    Launching,
    Done,
    Failed,
}

/// What the caller reports after carrying out a step.
#[derive(Debug)]
pub enum StartEvent {
    Begin,
    DelayElapsed,
    CommandFinished { success: bool, output: String },
}

/// An event as plain values.
pub enum StartEventView {
    Begin,
    DelayElapsed,
    CommandFinished { success: bool, output: Seq<char> },
}

impl View for StartEvent {
    type V = StartEventView;

    open spec fn view(&self) -> StartEventView {
        match self {
            StartEvent::Begin => StartEventView::Begin,
            StartEvent::DelayElapsed => StartEventView::DelayElapsed,
            StartEvent::CommandFinished { success, output } => StartEventView::CommandFinished {
                success: *success,
                output: output@,
            },
        }
    }
}

/// What the caller is asked to do next.
#[derive(Debug)]
pub enum StartStep {
    /// Sleep for `seconds`.
    Wait { seconds: u64 },
    /// Run `command` and wait for it to end.
    Run { command: CommandLine },
    /// Start `command` and let it go, without waiting for it; its output
    /// and error output are thrown away where `discard_output` holds.
    Spawn { command: CommandLine, discard_output: bool },
    /// Report success; `started` says whether the process is known to run.
    Finish { started: bool },
    /// Report `error`.
    Fail { error: HostError },
}

/// A step as plain values.
pub enum StartStepView {
    Wait { seconds: u64 },
    Run { command: CommandLineView },
    Spawn { command: CommandLineView, discard_output: bool },
    Finish { started: bool },
    Fail { error: ErrorView },
}

impl View for StartStep {
    type V = StartStepView;

    open spec fn view(&self) -> StartStepView {
        match self {
            StartStep::Wait { seconds } => StartStepView::Wait { seconds: *seconds },
            StartStep::Run { command } => StartStepView::Run { command: command@ },
            StartStep::Spawn { command, discard_output } => StartStepView::Spawn {
                command: command@,
                discard_output: *discard_output,
            },
            StartStep::Finish { started } => StartStepView::Finish { started: *started },
            StartStep::Fail { error } => StartStepView::Fail { error: error@ },
        }
    }
}

/// The step that starts the target in the requested mode. An elevated
/// process is let go, and its output is kept only for a verbose request.
pub open spec fn launch_step(req: StartRequestView) -> (StartStage, StartStepView) {
    match req.mode {
        StartMode::Direct => (
            StartStage::Launching,
            StartStepView::Run { command: start_line(req.target, req.args, false) },
        ),
        StartMode::Elevated => (
            StartStage::Launching,
            StartStepView::Spawn {
                command: start_line(req.target, req.args, true),
                discard_output: !req.verbose,
            },
        ),
        StartMode::Task => (
            StartStage::Launching,
            StartStepView::Run { command: run_task_line(req.target) },
        ),
    }
}

/// What follows the attempt to start. Only a scheduled task that did not
/// run is a failure; a process that did not start is reported and the
/// command still succeeds.
pub open spec fn step_after_launch(req: StartRequestView, success: bool, output: Seq<char>) -> (
    StartStage,
    StartStepView,
) {
    if !success && req.mode == StartMode::Task {
        (
            StartStage::Failed,
            StartStepView::Fail {
                error: ErrorView {
                    kind: ErrorKind::OsOperationFailed,
                    message: "the scheduled task could not be started: "@ + output,
                },
            },
        )
    } else {
        (StartStage::Done, StartStepView::Finish { started: success })
    }
}

/// The failure reported where an event does not answer the last step.
pub open spec fn unexpected_start_event() -> (StartStage, StartStepView) {
    (
        StartStage::Failed,
        StartStepView::Fail {
            error: ErrorView {
                kind: ErrorKind::InvalidInput,
                message: "the event does not answer the last step"@,
            },
        },
    )
}

/// The start as a transition function: the delay, unless it is zero, then
/// the launch, then its outcome.
pub open spec fn start_step(req: StartRequestView, stage: StartStage, event: StartEventView) -> (
    StartStage,
    StartStepView,
) {
    match (stage, event) {
        (StartStage::Start, StartEventView::Begin) => if req.delay > 0 {
            (StartStage::Delaying, StartStepView::Wait { seconds: req.delay })
        } else {
            launch_step(req)
        },
        (StartStage::Delaying, StartEventView::DelayElapsed) => launch_step(req),
        (StartStage::Launching, StartEventView::CommandFinished { success, output }) => step_after_launch(
            req,
            success,
            output,
        ),
        _ => unexpected_start_event(),
    }
}

fn launch(request: &StartRequest) -> (r: (StartStage, StartStep))
    ensures
        (r.0, r.1@) == launch_step(request@),
{
    match request.mode {
        StartMode::Direct => (
            StartStage::Launching,
            StartStep::Run { command: start_direct_process(request.target.as_str(), &request.args) },
        ),
        StartMode::Elevated => (
            StartStage::Launching,
            StartStep::Spawn {
                command: start_elevated_process(request.target.as_str(), &request.args),
                discard_output: !request.verbose,
            },
        ),
        StartMode::Task => (
            StartStage::Launching,
            StartStep::Run { command: start_task_scheduler(request.target.as_str()) },
        ),
    }
}

fn reject_start_event() -> (r: (StartStage, StartStep))
    ensures
        (r.0, r.1@) == unexpected_start_event(),
{
    (
        StartStage::Failed,
        StartStep::Fail {
            error: HostError::new(
                ErrorKind::InvalidInput,
                "the event does not answer the last step",
            ),
        },
    )
}

/// Decides the next step of a start. Begin with `StartStage::Start` and
/// `StartEvent::Begin`, carry out each step, and hand back the stage that
/// came with it together with the event that reports its outcome, until the
/// step is `Finish` or `Fail`.
pub fn handle_start_command(request: &StartRequest, stage: StartStage, event: StartEvent) -> (r: (
    StartStage,
    StartStep,
))
    ensures
        (r.0, r.1@) == start_step(request@, stage, event@),
{
    match stage {
        StartStage::Start => match event {
            StartEvent::Begin => {
                if request.delay > 0 {
                    (StartStage::Delaying, StartStep::Wait { seconds: request.delay })
                } else {
                    launch(request)
                }
            },
            _ => reject_start_event(),
        },
        StartStage::Delaying => match event {
            StartEvent::DelayElapsed => launch(request),
            _ => reject_start_event(),
        },
        StartStage::Launching => match event {
            StartEvent::CommandFinished { success, output } => {
                if !success && request.mode == StartMode::Task {
                    let mut message: String = String::from_str(
                        "the scheduled task could not be started: ",
                    );
                    message.append(output.as_str());
                    (
                        StartStage::Failed,
                        StartStep::Fail {
                            error: HostError { kind: ErrorKind::OsOperationFailed, message },
                        },
                    )
                } else {
                    (StartStage::Done, StartStep::Finish { started: success })
                }
            },
            _ => reject_start_event(),
        },
        _ => reject_start_event(),
    }
}

/// Only a scheduled task that did not run fails a start: a process that
/// could not be started, plainly or elevated, still ends the command in
/// success, and a task that did not run ends it in a failure that carries
/// the scheduler's text.
pub proof fn lemma_only_task_start_can_fail(req: StartRequestView, success: bool, output: Seq<char>)
    ensures
        req.mode != StartMode::Task ==> step_after_launch(req, success, output).0
            == StartStage::Done,
        success ==> step_after_launch(req, success, output).0 == StartStage::Done,
        req.mode == StartMode::Task && !success ==> step_after_launch(req, success, output).0
            == StartStage::Failed,
{
}

} // verus!
