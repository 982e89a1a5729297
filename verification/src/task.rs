//! The scheduled task that starts the application: the commands that query,
//! register, delete and list tasks, and the decisions between them.

use vstd::prelude::*;
use vstd::string::*;
use crate::command::{CommandLine, CommandLineView};
use crate::descriptor::{TaskDescriptor, TaskDescriptorView};
use crate::error::{ErrorKind, ErrorView, HostError};
use crate::identity::{get_current_user_sid, identity_command, identity_line, identity_of};
use crate::install::names_of;
use crate::path::{parent, parent_of};

verus! {

/// What to do with a scheduled task.
#[derive(Clone, Copy, Debug, PartialEq, Eq, Structural)]
pub enum TaskAction {
    /// Report whether the task exists.
    Check,
    /// Register the task.
    Create,
    /// Remove the task.
    Delete,
    /// List every task.
    List,
}

/// The command that asks the scheduler for the task called `name`.
pub open spec fn query_line(name: Seq<char>) -> CommandLineView {
    CommandLineView { program: "schtasks"@, args: seq!["/Query"@, "/TN"@, name] }
}

/// Builds the command that asks the scheduler whether `task_name` exists;
/// it succeeds exactly where the task is registered.
pub fn check_task_exists(task_name: &str) -> (c: CommandLine)
    ensures
        c@ == query_line(task_name@),
{
    let mut args: Vec<String> = Vec::new();
    args.push(String::from_str("/Query"));
    args.push(String::from_str("/TN"));
    args.push(String::from_str(task_name));
    assert(names_of(args@) =~= seq!["/Query"@, "/TN"@, task_name@]);
    CommandLine { program: String::from_str("schtasks"), args }
}

/// The command that removes the task called `name` without asking.
pub open spec fn delete_line(name: Seq<char>) -> CommandLineView {
    CommandLineView { program: "schtasks"@, args: seq!["/Delete"@, "/TN"@, name, "/F"@] }
}

/// Builds the command that removes `task_name`.
pub fn delete_task(task_name: &str) -> (c: CommandLine)
    ensures
        c@ == delete_line(task_name@),
{
    let mut args: Vec<String> = Vec::new();
    args.push(String::from_str("/Delete"));
    args.push(String::from_str("/TN"));
    args.push(String::from_str(task_name));
    args.push(String::from_str("/F"));
    assert(names_of(args@) =~= seq!["/Delete"@, "/TN"@, task_name@, "/F"@]);
    CommandLine { program: String::from_str("schtasks"), args }
}

/// The command that lists every task as a table.
pub open spec fn list_line() -> CommandLineView {
    CommandLineView { program: "schtasks"@, args: seq!["/Query"@, "/FO"@, "TABLE"@] }
}

/// Builds the command that lists every task.
pub fn list_tasks() -> (c: CommandLine)
    ensures
        c@ == list_line(),
{
    let mut args: Vec<String> = Vec::new();
    args.push(String::from_str("/Query"));
    args.push(String::from_str("/FO"));
    args.push(String::from_str("TABLE"));
    assert(names_of(args@) =~= seq!["/Query"@, "/FO"@, "TABLE"@]);
    CommandLine { program: String::from_str("schtasks"), args }
}

/// The command that registers the task called `name` from the descriptor
/// file at `path`, replacing a registration of the same name.
pub open spec fn register_line(name: Seq<char>, path: Seq<char>) -> CommandLineView {
    CommandLineView {
        program: "schtasks"@,
        args: seq!["/Create"@, "/XML"@, path, "/TN"@, name, "/F"@],
    }
}

/// Builds the command that registers `task_name` from the file at
/// `descriptor_path`.
pub fn register_task(task_name: &str, descriptor_path: &str) -> (c: CommandLine)
    ensures
        c@ == register_line(task_name@, descriptor_path@),
{
    let mut args: Vec<String> = Vec::new();
    args.push(String::from_str("/Create"));
    args.push(String::from_str("/XML"));
    args.push(String::from_str(descriptor_path));
    args.push(String::from_str("/TN"));
    args.push(String::from_str(task_name));
    args.push(String::from_str("/F"));
    assert(names_of(args@) =~= seq![
        "/Create"@,
        "/XML"@,
        descriptor_path@,
        "/TN"@,
        task_name@,
        "/F"@,
    ]);
    CommandLine { program: String::from_str("schtasks"), args }
}

/// A request to manage one task.
#[derive(Debug)]
pub struct TaskRequest {
    pub action: TaskAction,
    /// Name of the task in the scheduler.
    pub name: String,
    /// Program the task starts; needed to create a task.
    pub program: Option<String>,
    /// Directory the program runs in; that of the program where absent.
    pub working_dir: Option<String>,
    /// Text shown with the task.
    pub description: String,
    /// Requested run level; `highest` asks for the highest available.
    pub run_level: String,
    /// Whether an existing registration is replaced.
    pub force: bool,
}

/// A request as plain values.
pub struct TaskRequestView {
    pub action: TaskAction,
    pub name: Seq<char>,
    pub program: Option<Seq<char>>,
    pub working_dir: Option<Seq<char>>,
    pub description: Seq<char>,
    pub run_level: Seq<char>,
    pub force: bool,
}

impl View for TaskRequest {
    type V = TaskRequestView;

    open spec fn view(&self) -> TaskRequestView {
        TaskRequestView {
            action: self.action,
            name: self.name@,
            program: match self.program {
                Some(p) => Some(p@),
                None => None,
            },
            working_dir: match self.working_dir {
                Some(w) => Some(w@),
                None => None,
            },
            description: self.description@,
            run_level: self.run_level@,
            force: self.force,
        }
    }
}

/// Where the management of a task stands, with what the next decision
/// needs of what was reported so far.
#[derive(Clone, Debug, PartialEq, Eq)]
pub enum TaskStage {
    Start,
    CheckingProgram,
    Querying,
    Identifying,
    Writing,
    /// The scheduler registers from the file at `descriptor_path`.
    Registering { descriptor_path: String },
    /// The descriptor file is removed; the registration ended as recorded.
    Removing { success: bool, output: String },
    Deleting,
    Listing,
    Done,
    Failed,
}

/// A stage as plain values.
pub enum TaskStageView {
    Start,
    CheckingProgram,
    Querying,
    Identifying,
    Writing,
    Registering { descriptor_path: Seq<char> },
    Removing { success: bool, output: Seq<char> },
    Deleting,
    Listing,
    Done,
    Failed,
}

impl View for TaskStage {
    type V = TaskStageView;

    open spec fn view(&self) -> TaskStageView {
        match self {
            TaskStage::Start => TaskStageView::Start,
            TaskStage::CheckingProgram => TaskStageView::CheckingProgram,
            TaskStage::Querying => TaskStageView::Querying,
            TaskStage::Identifying => TaskStageView::Identifying,
            TaskStage::Writing => TaskStageView::Writing,
            TaskStage::Registering { descriptor_path } => TaskStageView::Registering {
                descriptor_path: descriptor_path@,
            },
            TaskStage::Removing { success, output } => TaskStageView::Removing {
                success: *success,
                output: output@,
            },
            TaskStage::Deleting => TaskStageView::Deleting,
            TaskStage::Listing => TaskStageView::Listing,
            TaskStage::Done => TaskStageView::Done,
            TaskStage::Failed => TaskStageView::Failed,
        }
    }
}

/// What the caller reports after carrying out a step.
#[derive(Debug)]
pub enum TaskEvent {
    Begin,
    ProgramChecked { present: bool },
    Queried { registered: bool },
    /// How the identity lookup ended and what it printed.
    Identified { success: bool, answer: String },
    /// The descriptor stands in a file that this run created at `path`.
    DescriptorWritten { path: String },
    /// No file could be created for the descriptor.
    DescriptorNotWritten { output: String },
    CommandFinished { success: bool, output: String },
    /// The descriptor file was removed, or could not be.
    DescriptorRemoved,
}

/// An event as plain values.
pub enum TaskEventView {
    Begin,
    ProgramChecked { present: bool },
    Queried { registered: bool },
    Identified { success: bool, answer: Seq<char> },
    DescriptorWritten { path: Seq<char> },
    DescriptorNotWritten { output: Seq<char> },
    CommandFinished { success: bool, output: Seq<char> },
    DescriptorRemoved,
}

impl View for TaskEvent {
    type V = TaskEventView;

    open spec fn view(&self) -> TaskEventView {
        match self {
            TaskEvent::Begin => TaskEventView::Begin,
            TaskEvent::ProgramChecked { present } => TaskEventView::ProgramChecked {
                present: *present,
            },
            TaskEvent::Queried { registered } => TaskEventView::Queried { registered: *registered },
            TaskEvent::Identified { success, answer } => TaskEventView::Identified {
                success: *success,
                answer: answer@,
            },
            TaskEvent::DescriptorWritten { path } => TaskEventView::DescriptorWritten { path: path@ },
            TaskEvent::DescriptorNotWritten { output } => TaskEventView::DescriptorNotWritten {
                output: output@,
            },
            TaskEvent::CommandFinished { success, output } => TaskEventView::CommandFinished {
                success: *success,
                output: output@,
            },
            TaskEvent::DescriptorRemoved => TaskEventView::DescriptorRemoved,
        }
    }
}

/// How the management of a task ended.
#[derive(Clone, Copy, Debug, PartialEq, Eq, Structural)]
pub enum TaskOutcome {
    /// The task is registered.
    Exists,
    /// The task is not registered.
    Absent,
    /// The task was registered already and was left as it is.
    AlreadyExists,
    /// The task was registered now.
    Created,
    /// There was no task to delete.
    AlreadyAbsent,
    /// The task was deleted.
    Deleted,
}

/// What the caller is asked to do next.
#[derive(Debug)]
pub enum TaskStep {
    /// Report whether a file exists at `path`.
    CheckProgram { path: String },
    /// Run `command` and report whether it succeeded.
    Query { command: CommandLine },
    /// Run `command`, the identity lookup, and report how it ended and what
    /// it printed.
    Identify { command: CommandLine },
    /// Create a file that did not exist before, write the document of
    /// `descriptor` to it, and report its path.
    WriteDescriptor { descriptor: TaskDescriptor },
    /// Run `command` and report how it ended, with its error output.
    Register { command: CommandLine },
    /// Remove the file at `path` and report that this was tried.
    RemoveDescriptor { path: String },
    /// Run `command` and report how it ended, with its output on success and
    /// its error output on failure.
    Run { command: CommandLine },
    /// Report `outcome`; nothing is left to do.
    Finish { outcome: TaskOutcome },
    /// Show `report`; nothing is left to do.
    Show { report: String },
    /// Report `error`; nothing is left to do.
    Fail { error: HostError },
}

/// A step as plain values.
pub enum TaskStepView {
    CheckProgram { path: Seq<char> },
    Query { command: CommandLineView },
    Identify { command: CommandLineView },
    WriteDescriptor { descriptor: TaskDescriptorView },
    Register { command: CommandLineView },
    RemoveDescriptor { path: Seq<char> },
    Run { command: CommandLineView },
    Finish { outcome: TaskOutcome },
    Show { report: Seq<char> },
    Fail { error: ErrorView },
}

impl View for TaskStep {
    type V = TaskStepView;

    open spec fn view(&self) -> TaskStepView {
        match self {
            TaskStep::CheckProgram { path } => TaskStepView::CheckProgram { path: path@ },
            TaskStep::Query { command } => TaskStepView::Query { command: command@ },
            TaskStep::Identify { command } => TaskStepView::Identify { command: command@ },
            TaskStep::WriteDescriptor { descriptor } => TaskStepView::WriteDescriptor {
                descriptor: descriptor@,
            },
            TaskStep::Register { command } => TaskStepView::Register { command: command@ },
            TaskStep::RemoveDescriptor { path } => TaskStepView::RemoveDescriptor { path: path@ },
            TaskStep::Run { command } => TaskStepView::Run { command: command@ },
            TaskStep::Finish { outcome } => TaskStepView::Finish { outcome: *outcome },
            TaskStep::Show { report } => TaskStepView::Show { report: report@ },
            TaskStep::Fail { error } => TaskStepView::Fail { error: error@ },
        }
    }
}

/// The failure of a step with the given kind and message.
pub open spec fn failure(kind: ErrorKind, message: Seq<char>) -> (TaskStageView, TaskStepView) {
    (TaskStageView::Failed, TaskStepView::Fail { error: ErrorView { kind, message } })
}

/// The end of a run with the given outcome.
pub open spec fn finished(outcome: TaskOutcome) -> (TaskStageView, TaskStepView) {
    (TaskStageView::Done, TaskStepView::Finish { outcome })
}

/// The failure reported where an event does not answer the last step.
pub open spec fn unexpected_task_event() -> (TaskStageView, TaskStepView) {
    failure(ErrorKind::InvalidInput, "the event does not answer the last step"@)
}

/// The failure reported where a task is to be created without a program.
pub open spec fn program_not_given() -> (TaskStageView, TaskStepView) {
    failure(ErrorKind::InvalidInput, "a task cannot be created without a program"@)
}

/// The failure reported where the program's directory cannot be derived.
pub open spec fn directory_unknown() -> (TaskStageView, TaskStepView) {
    failure(ErrorKind::Unresolvable, "the directory of the program cannot be derived"@)
}

/// The directory a task runs in: the one requested, else the directory
/// that holds the program.
pub open spec fn working_dir_of(req: TaskRequestView) -> Option<Seq<char>> {
    match req.working_dir {
        Some(w) => Some(w),
        None => match req.program {
            Some(p) => parent_of(p),
            None => None,
        },
    }
}

/// The first step of each action.
pub open spec fn first_step(req: TaskRequestView) -> (TaskStageView, TaskStepView) {
    match req.action {
        TaskAction::List => (TaskStageView::Listing, TaskStepView::Run { command: list_line() }),
        TaskAction::Create => match req.program {
            Some(p) => (TaskStageView::CheckingProgram, TaskStepView::CheckProgram { path: p }),
            None => program_not_given(),
        },
        _ => (TaskStageView::Querying, TaskStepView::Query { command: query_line(req.name) }),
    }
}

/// What follows the check for the program of a new task. A missing program
/// is invalid input, and the failure names it.
pub open spec fn step_after_program(req: TaskRequestView, present: bool) -> (
    TaskStageView,
    TaskStepView,
) {
    match req.program {
        None => program_not_given(),
        Some(p) => if !present {
            failure(ErrorKind::InvalidInput, "the program does not exist: "@ + p)
        } else if working_dir_of(req) is None {
            directory_unknown()
        } else {
            (TaskStageView::Querying, TaskStepView::Query { command: query_line(req.name) })
        },
    }
}

/// What creating a task comes to once the scheduler has said whether the
/// task is registered: nothing where it is and `force` is off, else the
/// lookup of the identity the task is to run as.
pub open spec fn create_step(req: TaskRequestView, registered: bool) -> (
    TaskStageView,
    TaskStepView,
) {
    if registered && !req.force {
        finished(TaskOutcome::AlreadyExists)
    } else {
        (TaskStageView::Identifying, TaskStepView::Identify { command: identity_line() })
    }
}

/// The descriptor of the task a request creates, run as `user_sid`: name,
/// program, description and run level are those of the request, the
/// working directory is the one requested or that of the program.
pub open spec fn descriptor_of(req: TaskRequestView, user_sid: Seq<char>) -> Option<
    TaskDescriptorView,
> {
    match (req.program, working_dir_of(req)) {
        (Some(program), Some(working_dir)) => Some(
            TaskDescriptorView {
                name: req.name,
                program,
                working_dir,
                description: req.description,
                run_level: req.run_level,
                user_sid,
            },
        ),
        _ => None,
    }
}

/// What follows the identity lookup: the descriptor is written, run as the
/// identity found or as the fallback.
pub open spec fn step_after_identity(req: TaskRequestView, success: bool, answer: Seq<char>) -> (
    TaskStageView,
    TaskStepView,
) {
    match descriptor_of(req, identity_of(success, answer)) {
        Some(descriptor) => (TaskStageView::Writing, TaskStepView::WriteDescriptor { descriptor }),
        None => if req.program is None {
            program_not_given()
        } else {
            directory_unknown()
        },
    }
}

/// What follows the scheduler's answer on whether the task is registered.
pub open spec fn step_after_query(req: TaskRequestView, registered: bool) -> (
    TaskStageView,
    TaskStepView,
) {
    match req.action {
        TaskAction::Check => finished(
            if registered {
                TaskOutcome::Exists
            } else {
                TaskOutcome::Absent
            },
        ),
        TaskAction::Create => create_step(req, registered),
        TaskAction::Delete => if registered {
            (TaskStageView::Deleting, TaskStepView::Run { command: delete_line(req.name) })
        } else {
            finished(TaskOutcome::AlreadyAbsent)
        },
        TaskAction::List => unexpected_task_event(),
    }
}

/// How a command that changes the scheduler ended: `outcome` on success,
/// else a failure whose message is `prefix` and the scheduler's own text.
pub open spec fn command_result(
    success: bool,
    outcome: TaskOutcome,
    prefix: Seq<char>,
    output: Seq<char>,
) -> (TaskStageView, TaskStepView) {
    if success {
        finished(outcome)
    } else {
        failure(ErrorKind::OsOperationFailed, prefix + output)
    }
}

/// The management of a task as a transition function.
pub open spec fn task_step(req: TaskRequestView, stage: TaskStageView, event: TaskEventView) -> (
    TaskStageView,
    TaskStepView,
) {
    match (stage, event) {
        (TaskStageView::Start, TaskEventView::Begin) => first_step(req),
        (TaskStageView::CheckingProgram, TaskEventView::ProgramChecked { present }) => step_after_program(
            req,
            present,
        ),
        (TaskStageView::Querying, TaskEventView::Queried { registered }) => step_after_query(
            req,
            registered,
        ),
        (TaskStageView::Identifying, TaskEventView::Identified { success, answer }) => step_after_identity(
            req,
            success,
            answer,
        ),
        (TaskStageView::Writing, TaskEventView::DescriptorWritten { path }) => (
            TaskStageView::Registering { descriptor_path: path },
            TaskStepView::Register { command: register_line(req.name, path) },
        ),
        (TaskStageView::Writing, TaskEventView::DescriptorNotWritten { output }) => failure(
            ErrorKind::OsOperationFailed,
            "the task descriptor could not be written: "@ + output,
        ),
        (
            TaskStageView::Registering { descriptor_path },
            TaskEventView::CommandFinished { success, output },
        ) => (
            TaskStageView::Removing { success, output },
            TaskStepView::RemoveDescriptor { path: descriptor_path },
        ),
        (TaskStageView::Removing { success, output }, TaskEventView::DescriptorRemoved) => command_result(
            success,
            TaskOutcome::Created,
            "the scheduled task could not be created: "@,
            output,
        ),
        (TaskStageView::Deleting, TaskEventView::CommandFinished { success, output }) => command_result(
            success,
            TaskOutcome::Deleted,
            "the scheduled task could not be deleted: "@,
            output,
        ),
        (TaskStageView::Listing, TaskEventView::CommandFinished { success, output }) => if success {
            (TaskStageView::Done, TaskStepView::Show { report: output })
        } else {
            failure(
                ErrorKind::OsOperationFailed,
                "the scheduled tasks could not be listed: "@ + output,
            )
        },
        _ => unexpected_task_event(),
    }
}

fn fail_with(kind: ErrorKind, message: &str) -> (r: (TaskStage, TaskStep))
    ensures
        (r.0@, r.1@) == failure(kind, message@),
{
    (TaskStage::Failed, TaskStep::Fail { error: HostError::new(kind, message) })
}

fn fail_naming(kind: ErrorKind, prefix: &str, text: &str) -> (r: (TaskStage, TaskStep))
    ensures
        (r.0@, r.1@) == failure(kind, prefix@ + text@),
{
    let mut message: String = String::from_str(prefix);
    message.append(text);
    (TaskStage::Failed, TaskStep::Fail { error: HostError { kind, message } })
}

fn reject_task_event() -> (r: (TaskStage, TaskStep))
    ensures
        (r.0@, r.1@) == unexpected_task_event(),
{
    fail_with(ErrorKind::InvalidInput, "the event does not answer the last step")
}

fn reject_missing_program() -> (r: (TaskStage, TaskStep))
    ensures
        (r.0@, r.1@) == program_not_given(),
{
    fail_with(ErrorKind::InvalidInput, "a task cannot be created without a program")
}

fn reject_unknown_directory() -> (r: (TaskStage, TaskStep))
    ensures
        (r.0@, r.1@) == directory_unknown(),
{
    fail_with(ErrorKind::Unresolvable, "the directory of the program cannot be derived")
}

fn finish_with(outcome: TaskOutcome) -> (r: (TaskStage, TaskStep))
    ensures
        (r.0@, r.1@) == finished(outcome),
{
    (TaskStage::Done, TaskStep::Finish { outcome })
}

fn end_command(success: bool, outcome: TaskOutcome, prefix: &str, output: &str) -> (r: (
    TaskStage,
    TaskStep,
))
    ensures
        (r.0@, r.1@) == command_result(success, outcome, prefix@, output@),
{
    if success {
        finish_with(outcome)
    } else {
        fail_naming(ErrorKind::OsOperationFailed, prefix, output)
    }
}

fn working_dir(request: &TaskRequest) -> (r: Option<String>)
    ensures
        match r {
            Some(d) => working_dir_of(request@) == Some(d@),
            None => working_dir_of(request@) is None,
        },
{
    match &request.working_dir {
        Some(w) => Some(w.clone()),
        None => match &request.program {
            Some(p) => parent(p.as_str()),
            None => None,
        },
    }
}

fn begin_task(request: &TaskRequest) -> (r: (TaskStage, TaskStep))
    ensures
        (r.0@, r.1@) == first_step(request@),
{
    match request.action {
        TaskAction::List => (TaskStage::Listing, TaskStep::Run { command: list_tasks() }),
        TaskAction::Create => match &request.program {
            Some(p) => (TaskStage::CheckingProgram, TaskStep::CheckProgram { path: p.clone() }),
            None => reject_missing_program(),
        },
        _ => (
            TaskStage::Querying,
            TaskStep::Query { command: check_task_exists(request.name.as_str()) },
        ),
    }
}

fn continue_after_program(request: &TaskRequest, present: bool) -> (r: (TaskStage, TaskStep))
    ensures
        (r.0@, r.1@) == step_after_program(request@, present),
{
    match &request.program {
        None => reject_missing_program(),
        Some(p) => {
            if !present {
                fail_naming(ErrorKind::InvalidInput, "the program does not exist: ", p.as_str())
            } else {
                match working_dir(request) {
                    None => reject_unknown_directory(),
                    Some(_) => (
                        TaskStage::Querying,
                        TaskStep::Query { command: check_task_exists(request.name.as_str()) },
                    ),
                }
            }
        },
    }
}

/// Decides how a task is created once the scheduler has said whether it is
/// registered.
pub fn create_task(request: &TaskRequest, registered: bool) -> (r: (TaskStage, TaskStep))
    ensures
        (r.0@, r.1@) == create_step(request@, registered),
{
    if registered && !request.force {
        finish_with(TaskOutcome::AlreadyExists)
    } else {
        (TaskStage::Identifying, TaskStep::Identify { command: identity_command() })
    }
}

/// Builds the descriptor of the task that `request` creates, run as
/// `user_sid`.
pub fn describe_task(request: &TaskRequest, user_sid: String) -> (r: Option<TaskDescriptor>)
    ensures
        match r {
            Some(d) => descriptor_of(request@, user_sid@) == Some(d@),
            None => descriptor_of(request@, user_sid@) is None,
        },
{
    match &request.program {
        None => None,
        Some(program) => match working_dir(request) {
            None => None,
            Some(dir) => Some(
                TaskDescriptor {
                    name: request.name.clone(),
                    program: program.clone(),
                    working_dir: dir,
                    description: request.description.clone(),
                    run_level: request.run_level.clone(),
                    user_sid,
                },
            ),
        },
    }
}

fn continue_after_identity(request: &TaskRequest, success: bool, answer: &str) -> (r: (
    TaskStage,
    TaskStep,
))
    ensures
        (r.0@, r.1@) == step_after_identity(request@, success, answer@),
{
    let sid: String = get_current_user_sid(success, answer);
    match describe_task(request, sid) {
        Some(descriptor) => (TaskStage::Writing, TaskStep::WriteDescriptor { descriptor }),
        None => {
            if request.program.is_none() {
                reject_missing_program()
            } else {
                reject_unknown_directory()
            }
        },
    }
}

fn continue_after_query(request: &TaskRequest, registered: bool) -> (r: (TaskStage, TaskStep))
    ensures
        (r.0@, r.1@) == step_after_query(request@, registered),
{
    match request.action {
        TaskAction::Check => {
            if registered {
                finish_with(TaskOutcome::Exists)
            } else {
                finish_with(TaskOutcome::Absent)
            }
        },
        TaskAction::Create => create_task(request, registered),
        TaskAction::Delete => {
            if registered {
                (TaskStage::Deleting, TaskStep::Run { command: delete_task(request.name.as_str()) })
            } else {
                finish_with(TaskOutcome::AlreadyAbsent)
            }
        },
        TaskAction::List => reject_task_event(),
    }
}

/// Decides the next step of the management of a task. Begin with
/// `TaskStage::Start` and `TaskEvent::Begin`, carry out each step, and hand
/// back the stage that came with it together with the event that reports
/// its outcome, until the step is `Finish`, `Show` or `Fail`.
pub fn handle_task_command(request: &TaskRequest, stage: TaskStage, event: TaskEvent) -> (r: (
    TaskStage,
    TaskStep,
))
    ensures
        (r.0@, r.1@) == task_step(request@, stage@, event@),
{
    match stage {
        TaskStage::Start => match event {
            TaskEvent::Begin => begin_task(request),
            _ => reject_task_event(),
        },
        TaskStage::CheckingProgram => match event {
            TaskEvent::ProgramChecked { present } => continue_after_program(request, present),
            _ => reject_task_event(),
        },
        TaskStage::Querying => match event {
            TaskEvent::Queried { registered } => continue_after_query(request, registered),
            _ => reject_task_event(),
        },
        TaskStage::Identifying => match event {
            TaskEvent::Identified { success, answer } => continue_after_identity(
                request,
                success,
                answer.as_str(),
            ),
            _ => reject_task_event(),
        },
        TaskStage::Writing => match event {
            TaskEvent::DescriptorWritten { path } => {
                let command = register_task(request.name.as_str(), path.as_str());
                (TaskStage::Registering { descriptor_path: path }, TaskStep::Register { command })
            },
            TaskEvent::DescriptorNotWritten { output } => fail_naming(
                ErrorKind::OsOperationFailed,
                "the task descriptor could not be written: ",
                output.as_str(),
            ),
            _ => reject_task_event(),
        },
        TaskStage::Registering { descriptor_path } => match event {
            TaskEvent::CommandFinished { success, output } => (
                TaskStage::Removing { success, output },
                TaskStep::RemoveDescriptor { path: descriptor_path },
            ),
            _ => reject_task_event(),
        },
        TaskStage::Removing { success, output } => match event {
            TaskEvent::DescriptorRemoved => end_command(
                success,
                TaskOutcome::Created,
                "the scheduled task could not be created: ",
                output.as_str(),
            ),
            _ => reject_task_event(),
        },
        TaskStage::Deleting => match event {
            TaskEvent::CommandFinished { success, output } => end_command(
                success,
                TaskOutcome::Deleted,
                "the scheduled task could not be deleted: ",
                output.as_str(),
            ),
            _ => reject_task_event(),
        },
        TaskStage::Listing => match event {
            TaskEvent::CommandFinished { success, output } => {
                if success {
                    (TaskStage::Done, TaskStep::Show { report: output })
                } else {
                    fail_naming(
                        ErrorKind::OsOperationFailed,
                        "the scheduled tasks could not be listed: ",
                        output.as_str(),
                    )
                }
            },
            _ => reject_task_event(),
        },
        _ => reject_task_event(),
    }
}

/// The event that reports whether the task is registered.
pub open spec fn registration_known(registered: bool) -> TaskEventView {
    TaskEventView::Queried { registered }
}

/// Creating a task that is registered already, without `force`, changes
/// nothing: the scheduler is asked for no registration, no file is written
/// and the run ends in success.
pub proof fn lemma_create_is_idempotent(req: TaskRequestView)
    requires
        req.action == TaskAction::Create,
        !req.force,
    ensures
        task_step(req, TaskStageView::Querying, registration_known(true)) == finished(
            TaskOutcome::AlreadyExists,
        ),
{
}

/// Deleting a task that is not registered changes nothing and ends in
/// success.
pub proof fn lemma_delete_is_idempotent(req: TaskRequestView)
    requires
        req.action == TaskAction::Delete,
    ensures
        task_step(req, TaskStageView::Querying, registration_known(false)) == finished(
            TaskOutcome::AlreadyAbsent,
        ),
{
}

/// The stage in which the scheduler registers from the file at `path`.
pub open spec fn registering_from(path: Seq<char>) -> TaskStageView {
    TaskStageView::Registering { descriptor_path: path }
}

/// The event that reports how a command ended.
pub open spec fn command_finished(success: bool, output: Seq<char>) -> TaskEventView {
    TaskEventView::CommandFinished { success, output }
}

/// The step that removes the file at `path`.
pub open spec fn removal_of(path: Seq<char>) -> TaskStepView {
    TaskStepView::RemoveDescriptor { path }
}

/// The descriptor file is removed however the registration ended: the step
/// after the registration is the removal of the very file that was
/// written, and only after it does the run end, in success or in the
/// failure that carries the scheduler's text.
pub proof fn lemma_descriptor_is_removed(
    req: TaskRequestView,
    path: Seq<char>,
    success: bool,
    output: Seq<char>,
)
    ensures
        task_step(req, registering_from(path), command_finished(success, output)).1 == removal_of(
            path,
        ),
        task_step(
            req,
            task_step(req, registering_from(path), command_finished(success, output)).0,
            TaskEventView::DescriptorRemoved,
        ) == command_result(
            success,
            TaskOutcome::Created,
            "the scheduled task could not be created: "@,
            output,
        ),
{
}

/// The file the scheduler registers from is the one the caller reported,
/// whatever the task is called.
pub proof fn lemma_registration_uses_reported_file(req: TaskRequestView, path: Seq<char>)
    ensures
        task_step(req, TaskStageView::Writing, (TaskEventView::DescriptorWritten { path: path }))
            == (
            registering_from(path),
            (TaskStepView::Register { command: register_line(req.name, path) }),
        ),
{
}

} // verus!
