//! The self-update: stop the running application, wait, replace the
//! installed files from an archive, start the application again. The
//! library decides each step; the caller carries it out and reports back.

use vstd::prelude::*;
use vstd::string::*;
use crate::archive::{archive_contents, read_archive};
use crate::entry::target_of;
use crate::command::{close_process, close_process_line, CommandLine, CommandLineView};
use crate::error::{ErrorKind, ErrorView, HostError};
use crate::extract::{
    all_safe, apply_ops, entry_views, is_directory_entry, lemma_extracted_file_holds_entry,
    op_views, plan_extraction, plan_ops, unsafe_entry, EntryView, FileOp, FileTree,
};
use crate::install::{
    executable_of, installed_executable, invalid_archive, layout_of, names_of, prune_targets,
    removable, resolve_layout, separator_of, unresolvable_root,
};
use crate::path::{has_zip_extension, Separator};

verus! {

/// What the caller asks for.
#[derive(Debug)]
pub struct UpdateRequest {
    /// Path of the update archive.
    pub archive: String,
    /// Seconds to wait before any file is touched; zero skips the wait.
    pub wait_time: u64,
    /// Whether the installation root is pruned before extraction.
    pub clean: bool,
    /// Image name of the process to terminate first, if any.
    pub process_name: Option<String>,
    /// Whether the application is started again afterwards.
    pub auto_start: bool,
}

/// A request as plain values.
pub struct UpdateRequestView {
    pub archive: Seq<char>,
    pub wait_time: u64,
    pub clean: bool,
    pub process_name: Option<Seq<char>>,
    pub auto_start: bool,
}

impl View for UpdateRequest {
    type V = UpdateRequestView;

    open spec fn view(&self) -> UpdateRequestView {
        UpdateRequestView {
            archive: self.archive@,
            wait_time: self.wait_time,
            clean: self.clean,
            process_name: match self.process_name {
                Some(n) => Some(n@),
                None => None,
            },
            auto_start: self.auto_start,
        }
    }
}

/// Where an update stands: what the caller was last asked to do.
#[derive(Clone, Copy, Debug, PartialEq, Eq, Structural)]
pub enum UpdateStage {
    /// Nothing was asked yet.
    Start,
    /// Checking that the archive exists.
    Validating,
    /// Terminating the running process.
    Stopping,
    /// Sleeping so that file handles are released.
    Waiting,
    /// Replacing the installed files.
    Extracting,
    /// Checking that the installed executable exists.
    Locating,
    /// Starting the installed executable.
    Launching,
    /// The update succeeded.
    Done,
    /// The update failed.
    Failed,
}

/// What the caller reports after carrying out an action.
#[derive(Debug)]
pub enum UpdateEvent {
    Begin,
    ArchiveChecked { present: bool },
    ProcessStopped { success: bool },
    WaitElapsed,
    Extracted,
    ExtractionFailed { error: HostError },
    ExecutableChecked { present: bool },
    LaunchAttempted { success: bool },
}

/// An event as plain values.
pub enum UpdateEventView {
    Begin,
    ArchiveChecked { present: bool },
    ProcessStopped { success: bool },
    WaitElapsed,
    Extracted,
    ExtractionFailed { error: ErrorView },
    ExecutableChecked { present: bool },
    LaunchAttempted { success: bool },
}

impl View for UpdateEvent {
    type V = UpdateEventView;

    open spec fn view(&self) -> UpdateEventView {
        match self {
            UpdateEvent::Begin => UpdateEventView::Begin,
            UpdateEvent::ArchiveChecked { present } => UpdateEventView::ArchiveChecked {
                present: *present,
            },
            UpdateEvent::ProcessStopped { success } => UpdateEventView::ProcessStopped {
                success: *success,
            },
            UpdateEvent::WaitElapsed => UpdateEventView::WaitElapsed,
            UpdateEvent::Extracted => UpdateEventView::Extracted,
            UpdateEvent::ExtractionFailed { error } => UpdateEventView::ExtractionFailed {
                error: error@,
            },
            UpdateEvent::ExecutableChecked { present } => UpdateEventView::ExecutableChecked {
                present: *present,
            },
            UpdateEvent::LaunchAttempted { success } => UpdateEventView::LaunchAttempted {
                success: *success,
            },
        }
    }
}

/// What the caller is asked to do next.
#[derive(Debug)]
pub enum UpdateAction {
    /// Report whether a file exists at `path`.
    CheckArchive { path: String },
    /// Run `command`, which kills the process, and report how it ended.
    StopProcess { command: CommandLine },
    /// Sleep for `seconds`.
    Wait { seconds: u64 },
    /// Extract `archive` over its installation root, pruning first if `clean`.
    Extract { archive: String, clean: bool },
    /// Report whether a file exists at `path`.
    CheckExecutable { path: String },
    /// Start `path` as a detached process and report whether it started.
    Launch { path: String },
    /// Report success; nothing is left to do.
    Finish,
    /// Report `error`; nothing is left to do.
    Fail { error: HostError },
}

/// An action as plain values.
pub enum UpdateActionView {
    CheckArchive { path: Seq<char> },
    StopProcess { command: CommandLineView },
    Wait { seconds: u64 },
    Extract { archive: Seq<char>, clean: bool },
    CheckExecutable { path: Seq<char> },
    Launch { path: Seq<char> },
    Finish,
    Fail { error: ErrorView },
}

impl View for UpdateAction {
    type V = UpdateActionView;

    open spec fn view(&self) -> UpdateActionView {
        match self {
            UpdateAction::CheckArchive { path } => UpdateActionView::CheckArchive { path: path@ },
            UpdateAction::StopProcess { command } => UpdateActionView::StopProcess {
                command: command@,
            },
            UpdateAction::Wait { seconds } => UpdateActionView::Wait { seconds: *seconds },
            UpdateAction::Extract { archive, clean } => UpdateActionView::Extract {
                archive: archive@,
                clean: *clean,
            },
            UpdateAction::CheckExecutable { path } => UpdateActionView::CheckExecutable {
                path: path@,
            },
            UpdateAction::Launch { path } => UpdateActionView::Launch { path: path@ },
            UpdateAction::Finish => UpdateActionView::Finish,
            UpdateAction::Fail { error } => UpdateActionView::Fail { error: error@ },
        }
    }
}

/// The failure reported where no archive exists at `path`: it names the
/// path.
pub open spec fn missing_archive(path: Seq<char>) -> ErrorView {
    ErrorView { kind: ErrorKind::NotFound, message: "the archive does not exist: "@ + path }
}

/// The failure reported where an event does not answer the last action.
pub open spec fn unexpected_event() -> ErrorView {
    ErrorView { kind: ErrorKind::InvalidInput, message: "the event does not answer the last action"@ }
}

/// The step that extracts.
pub open spec fn extract_step(req: UpdateRequestView) -> (UpdateStage, UpdateActionView) {
    (UpdateStage::Extracting, UpdateActionView::Extract { archive: req.archive, clean: req.clean })
}

/// What follows once the process is out of the way: the wait, unless it is
/// zero, then the extraction.
pub open spec fn step_after_stop(req: UpdateRequestView) -> (UpdateStage, UpdateActionView) {
    if req.wait_time > 0 {
        (UpdateStage::Waiting, UpdateActionView::Wait { seconds: req.wait_time })
    } else {
        extract_step(req)
    }
}

/// What follows once the archive is known to exist.
pub open spec fn step_after_validation(req: UpdateRequestView) -> (UpdateStage, UpdateActionView) {
    match req.process_name {
        Some(name) => (
            UpdateStage::Stopping,
            UpdateActionView::StopProcess { command: close_process_line(name) },
        ),
        None => step_after_stop(req),
    }
}

/// What follows a complete extraction.
pub open spec fn step_after_extraction(req: UpdateRequestView) -> (UpdateStage, UpdateActionView) {
    if req.auto_start {
        match executable_of(req.archive) {
            Some(path) => (UpdateStage::Locating, UpdateActionView::CheckExecutable { path }),
            None => (UpdateStage::Failed, UpdateActionView::Fail { error: unresolvable_root() }),
        }
    } else {
        (UpdateStage::Done, UpdateActionView::Finish)
    }
}

/// What follows the check for the installed executable.
pub open spec fn step_after_location(req: UpdateRequestView, present: bool) -> (
    UpdateStage,
    UpdateActionView,
) {
    if present {
        match executable_of(req.archive) {
            Some(path) => (UpdateStage::Launching, UpdateActionView::Launch { path }),
            None => (UpdateStage::Failed, UpdateActionView::Fail { error: unresolvable_root() }),
        }
    } else {
        (UpdateStage::Done, UpdateActionView::Finish)
    }
}

/// The update as a transition function: the stage and the event that
/// answers its action give the next stage and the next action.
pub open spec fn update_step(req: UpdateRequestView, stage: UpdateStage, event: UpdateEventView) -> (
    UpdateStage,
    UpdateActionView,
) {
    match (stage, event) {
        (UpdateStage::Start, UpdateEventView::Begin) => (
            UpdateStage::Validating,
            UpdateActionView::CheckArchive { path: req.archive },
        ),
        (UpdateStage::Validating, UpdateEventView::ArchiveChecked { present }) => if present {
            step_after_validation(req)
        } else {
            (UpdateStage::Failed, UpdateActionView::Fail { error: missing_archive(req.archive) })
        },
        (UpdateStage::Stopping, UpdateEventView::ProcessStopped { success }) => step_after_stop(
            req,
        ),
        (UpdateStage::Waiting, UpdateEventView::WaitElapsed) => extract_step(req),
        (UpdateStage::Extracting, UpdateEventView::Extracted) => step_after_extraction(req),
        (UpdateStage::Extracting, UpdateEventView::ExtractionFailed { error }) => (
            UpdateStage::Failed,
            UpdateActionView::Fail { error },
        ),
        (UpdateStage::Locating, UpdateEventView::ExecutableChecked { present }) => step_after_location(
            req,
            present,
        ),
        (UpdateStage::Launching, UpdateEventView::LaunchAttempted { success }) => (
            UpdateStage::Done,
            UpdateActionView::Finish,
        ),
        _ => (UpdateStage::Failed, UpdateActionView::Fail { error: unexpected_event() }),
    }
}

fn fail_unresolvable() -> (r: (UpdateStage, UpdateAction))
    ensures
        r.0 == UpdateStage::Failed,
        r.1@ == (UpdateActionView::Fail { error: unresolvable_root() }),
{
    (
        UpdateStage::Failed,
        UpdateAction::Fail {
            error: HostError::new(
                ErrorKind::Unresolvable,
                "the installation directory cannot be derived from the archive path",
            ),
        },
    )
}

fn begin_extraction(request: &UpdateRequest) -> (r: (UpdateStage, UpdateAction))
    ensures
        (r.0, r.1@) == extract_step(request@),
{
    (
        UpdateStage::Extracting,
        UpdateAction::Extract { archive: request.archive.clone(), clean: request.clean },
    )
}

fn continue_after_stop(request: &UpdateRequest) -> (r: (UpdateStage, UpdateAction))
    ensures
        (r.0, r.1@) == step_after_stop(request@),
{
    if request.wait_time > 0 {
        (UpdateStage::Waiting, UpdateAction::Wait { seconds: request.wait_time })
    } else {
        begin_extraction(request)
    }
}

fn continue_after_validation(request: &UpdateRequest) -> (r: (UpdateStage, UpdateAction))
    ensures
        (r.0, r.1@) == step_after_validation(request@),
{
    match &request.process_name {
        Some(name) => (
            UpdateStage::Stopping,
            UpdateAction::StopProcess { command: close_process(name.as_str()) },
        ),
        None => continue_after_stop(request),
    }
}

fn continue_after_extraction(request: &UpdateRequest) -> (r: (UpdateStage, UpdateAction))
    ensures
        (r.0, r.1@) == step_after_extraction(request@),
{
    if request.auto_start {
        match installed_executable(request.archive.as_str()) {
            Some(path) => (UpdateStage::Locating, UpdateAction::CheckExecutable { path }),
            None => fail_unresolvable(),
        }
    } else {
        (UpdateStage::Done, UpdateAction::Finish)
    }
}

fn continue_after_location(request: &UpdateRequest, present: bool) -> (r: (
    UpdateStage,
    UpdateAction,
))
    ensures
        (r.0, r.1@) == step_after_location(request@, present),
{
    if present {
        match installed_executable(request.archive.as_str()) {
            Some(path) => (UpdateStage::Launching, UpdateAction::Launch { path }),
            None => fail_unresolvable(),
        }
    } else {
        (UpdateStage::Done, UpdateAction::Finish)
    }
}

fn reject_event() -> (r: (UpdateStage, UpdateAction))
    ensures
        r.0 == UpdateStage::Failed,
        r.1@ == (UpdateActionView::Fail { error: unexpected_event() }),
{
    (
        UpdateStage::Failed,
        UpdateAction::Fail {
            error: HostError::new(
                ErrorKind::InvalidInput,
                "the event does not answer the last action",
            ),
        },
    )
}

/// Decides the next step of an update. Begin with `UpdateStage::Start` and
/// `UpdateEvent::Begin`, carry out each action, and hand back the stage that
/// came with it together with the event that reports its outcome, until the
/// action is `Finish` or `Fail`.
pub fn handle_update_command(request: &UpdateRequest, stage: UpdateStage, event: UpdateEvent) -> (r:
    (UpdateStage, UpdateAction))
    ensures
        (r.0, r.1@) == update_step(request@, stage, event@),
{
    match stage {
        UpdateStage::Start => match event {
            UpdateEvent::Begin => (
                UpdateStage::Validating,
                UpdateAction::CheckArchive { path: request.archive.clone() },
            ),
            _ => reject_event(),
        },
        UpdateStage::Validating => match event {
            UpdateEvent::ArchiveChecked { present } => {
                if present {
                    continue_after_validation(request)
                } else {
                    let mut message: String = String::from_str("the archive does not exist: ");
                    message.append(request.archive.as_str());
                    (
                        UpdateStage::Failed,
                        UpdateAction::Fail {
                            error: HostError { kind: ErrorKind::NotFound, message },
                        },
                    )
                }
            },
            _ => reject_event(),
        },
        UpdateStage::Stopping => match event {
            UpdateEvent::ProcessStopped { success } => continue_after_stop(request),
            _ => reject_event(),
        },
        UpdateStage::Waiting => match event {
            UpdateEvent::WaitElapsed => begin_extraction(request),
            _ => reject_event(),
        },
        UpdateStage::Extracting => match event {
            UpdateEvent::Extracted => continue_after_extraction(request),
            UpdateEvent::ExtractionFailed { error } => (
                UpdateStage::Failed,
                UpdateAction::Fail { error },
            ),
            _ => reject_event(),
        },
        UpdateStage::Locating => match event {
            UpdateEvent::ExecutableChecked { present } => continue_after_location(request, present),
            _ => reject_event(),
        },
        UpdateStage::Launching => match event {
            UpdateEvent::LaunchAttempted { success } => (UpdateStage::Done, UpdateAction::Finish),
            _ => reject_event(),
        },
        _ => reject_event(),
    }
}

/// An update whose archive is missing fails at once, with `NotFound`, and
/// asks for nothing else: no process is stopped and no file is touched.
pub proof fn lemma_missing_archive_fails_first(req: UpdateRequestView)
    ensures
        update_step(req, UpdateStage::Start, UpdateEventView::Begin) == (
            UpdateStage::Validating,
            UpdateActionView::CheckArchive { path: req.archive },
        ),
        update_step(
            req,
            UpdateStage::Validating,
            UpdateEventView::ArchiveChecked { present: false },
        ) == (UpdateStage::Failed, UpdateActionView::Fail { error: missing_archive(req.archive) }),
        missing_archive(req.archive).kind == ErrorKind::NotFound,
{
}

/// Nothing follows a failure or a success: whatever is reported in the stage
/// `Failed` or `Done`, the answer is a failure and never an action on files
/// or processes.
pub proof fn lemma_final_stages_stay(req: UpdateRequestView, stage: UpdateStage, event: UpdateEventView)
    requires
        stage == UpdateStage::Failed || stage == UpdateStage::Done,
    ensures
        update_step(req, stage, event).0 == UpdateStage::Failed,
        update_step(req, stage, event).1 is Fail,
{
}

/// The event that reports an existing archive, in the stage that asked.
pub open spec fn archive_found(stage: UpdateStage, event: UpdateEventView) -> bool {
    stage == UpdateStage::Validating && event == (UpdateEventView::ArchiveChecked { present: true })
}

/// The event that ends the attempt to stop the process, in its stage.
pub open spec fn stop_attempted(stage: UpdateStage, event: UpdateEventView) -> bool {
    stage == UpdateStage::Stopping && event is ProcessStopped
}

/// The event that ends the wait, in its stage.
pub open spec fn wait_over(stage: UpdateStage, event: UpdateEventView) -> bool {
    stage == UpdateStage::Waiting && event is WaitElapsed
}

/// Whether the action asks for an extraction.
pub open spec fn asks_extraction(action: UpdateActionView) -> bool {
    action is Extract
}

/// Files are touched only after the archive was found: a step asks for an
/// extraction only in answer to a positive archive check, to the end of the
/// process stop or to the end of the wait, and the latter two stages are
/// entered only in that same way.
pub proof fn lemma_extraction_needs_archive(
    req: UpdateRequestView,
    stage: UpdateStage,
    event: UpdateEventView,
)
    ensures
        asks_extraction(update_step(req, stage, event).1) ==> archive_found(stage, event)
            || stop_attempted(stage, event) || wait_over(stage, event),
        update_step(req, stage, event).0 == UpdateStage::Stopping ==> archive_found(stage, event),
        update_step(req, stage, event).0 == UpdateStage::Waiting ==> archive_found(stage, event)
            || stop_attempted(stage, event),
{
}

/// The actions asked for, one after another, while `events` are reported
/// from `stage` on.
pub open spec fn actions_of(req: UpdateRequestView, stage: UpdateStage, events: Seq<UpdateEventView>) -> Seq<
    UpdateActionView,
>
    decreases events.len(),
{
    if events.len() == 0 {
        Seq::<UpdateActionView>::empty()
    } else {
        let next = update_step(req, stage, events[0]);
        seq![next.1] + actions_of(req, next.0, events.drop_first())
    }
}

/// Whether the event reports that the archive exists.
pub open spec fn reports_archive(event: UpdateEventView) -> bool {
    event == (UpdateEventView::ArchiveChecked { present: true })
}

/// An action that touches neither a file nor a process.
pub open spec fn touches_nothing(action: UpdateActionView) -> bool {
    action is CheckArchive || action is Fail
}

/// A stage in which the archive has not been found yet.
pub open spec fn before_archive(stage: UpdateStage) -> bool {
    stage == UpdateStage::Start || stage == UpdateStage::Validating || stage == UpdateStage::Failed
}

/// While the archive is not reported to exist, whatever else is reported
/// and in whatever order, the update asks only for the archive check and
/// for the report of a failure: no process is stopped, no file is removed
/// or written, nothing is started.
pub proof fn lemma_nothing_happens_without_archive(
    req: UpdateRequestView,
    stage: UpdateStage,
    events: Seq<UpdateEventView>,
)
    requires
        before_archive(stage),
        forall|i: int| 0 <= i < events.len() ==> !reports_archive(#[trigger] events[i]),
    ensures
        forall|k: int|
            0 <= k < actions_of(req, stage, events).len() ==> touches_nothing(
                #[trigger] actions_of(req, stage, events)[k],
            ),
    decreases events.len(),
{
    if events.len() > 0 {
        let next = update_step(req, stage, events[0]);
        let rest = events.drop_first();
        assert(!reports_archive(events[0]));
        assert(before_archive(next.0));
        assert(touches_nothing(next.1));
        assert forall|i: int| 0 <= i < rest.len() implies !reports_archive(#[trigger] rest[i]) by {
            assert(rest[i] == events[i + 1]);
        }
        lemma_nothing_happens_without_archive(req, next.0, rest);
        let tail = actions_of(req, next.0, rest);
        assert forall|k: int| 0 <= k < actions_of(req, stage, events).len() implies touches_nothing(
            #[trigger] actions_of(req, stage, events)[k],
        ) by {
            if k > 0 {
                assert(actions_of(req, stage, events)[k] == tail[k - 1]);
            }
        }
    }
}

/// The event that reports how the attempt to stop the process ended.
pub open spec fn process_stopped(success: bool) -> UpdateEventView {
    UpdateEventView::ProcessStopped { success }
}

/// The event that reports how the attempt to start the application ended.
pub open spec fn launch_attempted(success: bool) -> UpdateEventView {
    UpdateEventView::LaunchAttempted { success }
}

/// A process that could not be terminated does not stop the update: the
/// step after the attempt is the same whether it succeeded or not, and it is
/// the wait or the extraction, never a failure.
pub proof fn lemma_stop_failure_is_tolerated(req: UpdateRequestView, success: bool)
    ensures
        update_step(req, UpdateStage::Stopping, process_stopped(success)) == step_after_stop(req),
        step_after_stop(req).0 == UpdateStage::Waiting || step_after_stop(req).0
            == UpdateStage::Extracting,
        req.wait_time == 0 ==> step_after_stop(req) == extract_step(req),
{
}

/// A failed relaunch does not undo the update: the step after the attempt is
/// `Finish` either way.
pub proof fn lemma_relaunch_failure_is_tolerated(req: UpdateRequestView, success: bool)
    ensures
        update_step(req, UpdateStage::Launching, launch_attempted(success)) == (
            UpdateStage::Done,
            UpdateActionView::Finish,
        ),
{
}

/// What an extraction does to the installation: the root, the children of
/// the root to remove first, and the steps that write the archive's entries.
#[derive(Debug)]
pub struct ExtractionPlan {
    pub root: String,
    pub removals: Vec<String>,
    pub ops: Vec<FileOp>,
}

/// The removals of a plan: with `clear_dir` every child that is not
/// preserved, else none.
pub open spec fn planned_removals(children: Seq<Seq<char>>, clear_dir: bool) -> Seq<Seq<char>> {
    if clear_dir {
        removable(children)
    } else {
        Seq::<Seq<char>>::empty()
    }
}

/// Plans the extraction of the archive at `zip_path` into its grandparent
/// directory. `present` says whether the file exists, `bytes` is what it
/// holds and `children` names what the grandparent directory holds now.
/// Nothing is planned unless everything can be: the path is checked first,
/// then the layout, then the archive, then every entry name.
pub fn unzip_file_to_parent_dir(
    zip_path: &str,
    present: bool,
    bytes: Vec<u8>,
    children: &Vec<String>,
    clear_dir: bool,
) -> (r: Result<ExtractionPlan, HostError>)
    ensures
        match r {
            Ok(plan) => {
                &&& present
                &&& has_zip_extension(zip_path@)
                &&& layout_of(zip_path@) is Some
                &&& plan.root@ == layout_of(zip_path@).unwrap().1
                &&& names_of(plan.removals@) == planned_removals(names_of(children@), clear_dir)
                &&& archive_contents(bytes@) is Some
                &&& all_safe(archive_contents(bytes@).unwrap())
                &&& op_views(plan.ops@) == plan_ops(
                    archive_contents(bytes@).unwrap(),
                    plan.root@,
                    separator_of(zip_path@),
                )
            },
            Err(e) => if !present || !has_zip_extension(zip_path@) {
                e@ == invalid_archive()
            } else if layout_of(zip_path@) is None {
                e@ == unresolvable_root()
            } else if archive_contents(bytes@) is None {
                e.kind == ErrorKind::OsOperationFailed
            } else {
                e@ == unsafe_entry() && !all_safe(archive_contents(bytes@).unwrap())
            },
        },
{
    let layout = match resolve_layout(zip_path, present) {
        Ok(l) => l,
        Err(e) => {
            return Err(e);
        },
    };
    let entries = match read_archive(bytes) {
        Ok(v) => v,
        Err(e) => {
            return Err(e);
        },
    };
    let ops = match plan_extraction(&entries, layout.root.as_str(), layout.separator) {
        Ok(ops) => ops,
        Err(e) => {
            return Err(e);
        },
    };
    let removals: Vec<String> = if clear_dir {
        prune_targets(children)
    } else {
        Vec::new()
    };
    assert(names_of(removals@) =~= planned_removals(names_of(children@), clear_dir));
    Ok(ExtractionPlan { root: layout.root, removals, ops })
}

/// One move of an extraction that is carried out step by step.
#[derive(Debug)]
pub enum ExtractionStep {
    /// Remove the child of the root named by `removals[index]`.
    Remove { index: usize },
    /// Carry out `ops[index]`.
    Apply { index: usize },
    /// Every step was carried out; the extraction succeeded.
    Finished,
    /// A step failed; the extraction ends here, with what was written so
    /// far left in place and nothing further touched.
    Failed { error: HostError },
}

/// A move as plain values.
pub enum ExtractionStepView {
    Remove { index: int },
    Apply { index: int },
    Finished,
    Failed { error: ErrorView },
}

impl View for ExtractionStep {
    type V = ExtractionStepView;

    open spec fn view(&self) -> ExtractionStepView {
        match self {
            ExtractionStep::Remove { index } => ExtractionStepView::Remove { index: *index as int },
            ExtractionStep::Apply { index } => ExtractionStepView::Apply { index: *index as int },
            ExtractionStep::Finished => ExtractionStepView::Finished,
            ExtractionStep::Failed { error } => ExtractionStepView::Failed { error: error@ },
        }
    }
}

/// The failure of an extraction: the text of the step that failed, as it
/// is.
pub open spec fn extraction_failure(text: Seq<char>) -> ExtractionStepView {
    ExtractionStepView::Failed {
        error: ErrorView { kind: ErrorKind::OsOperationFailed, message: text },
    }
}

/// The move that follows `done` steps of a plan with `removals` removals
/// and `ops` writing steps, where `failure` holds the error text of the
/// step carried out last, if it failed. Removals come first, then the
/// writing steps, each once and in order; a failure ends the extraction.
pub open spec fn extraction_step_of(removals: int, ops: int, done: int, failure: Option<Seq<char>>) -> ExtractionStepView {
    match failure {
        Some(text) => extraction_failure(text),
        None => if done < removals {
            ExtractionStepView::Remove { index: done }
        } else if done - removals < ops {
            ExtractionStepView::Apply { index: done - removals }
        } else {
            ExtractionStepView::Finished
        },
    }
}

/// The error text of a step as a sequence, if there is one.
pub open spec fn failure_text(failure: Option<String>) -> Option<Seq<char>> {
    match failure {
        Some(text) => Some(text@),
        None => None,
    }
}

/// Decides the next move of an extraction after `done` steps of `plan`
/// were carried out; `failure` is the error text of the last of them, if
/// it failed.
pub fn extraction_step(plan: &ExtractionPlan, done: usize, failure: Option<String>) -> (r:
    ExtractionStep)
    ensures
        r@ == extraction_step_of(
            plan.removals@.len() as int,
            plan.ops@.len() as int,
            done as int,
            failure_text(failure),
        ),
{
    match failure {
        Some(message) => ExtractionStep::Failed {
            error: HostError { kind: ErrorKind::OsOperationFailed, message },
        },
        None => {
            if done < plan.removals.len() {
                ExtractionStep::Remove { index: done }
            } else if done - plan.removals.len() < plan.ops.len() {
                ExtractionStep::Apply { index: done - plan.removals.len() }
            } else {
                ExtractionStep::Finished
            }
        },
    }
}

/// A failed step ends the extraction at once: whatever was done and
/// whatever is left, the next move is the failure with the step's own
/// text, so no later entry is written and nothing written is undone.
pub proof fn lemma_failed_step_ends_extraction(removals: int, ops: int, done: int, text: Seq<char>)
    ensures
        extraction_step_of(removals, ops, done, Some(text)) == extraction_failure(text),
        extraction_failure(text) == (ExtractionStepView::Failed {
            error: (ErrorView { kind: ErrorKind::OsOperationFailed, message: text }),
        }),
{
}

/// The writing steps of `entries` start with those of any of its first
/// entries: what was written before entry `m` is what an archive of the
/// first `m` entries alone would have written.
pub proof fn lemma_plan_of_first_entries(
    entries: Seq<EntryView>,
    root: Seq<char>,
    sep: Separator,
    m: int,
)
    requires
        0 <= m <= entries.len(),
    ensures
        plan_ops(entries.take(m), root, sep).len() <= plan_ops(entries, root, sep).len(),
        plan_ops(entries, root, sep).take(plan_ops(entries.take(m), root, sep).len() as int)
            == plan_ops(entries.take(m), root, sep),
    decreases entries.len(),
{
    let whole = plan_ops(entries, root, sep);
    if m == entries.len() {
        assert(entries.take(m) =~= entries);
        assert(whole.take(whole.len() as int) =~= whole);
    } else {
        let head = entries.drop_last();
        assert(head.take(m) =~= entries.take(m));
        lemma_plan_of_first_entries(head, root, sep, m);
        let first = plan_ops(head, root, sep);
        let part = plan_ops(entries.take(m), root, sep);
        assert(whole.take(part.len() as int) =~= first.take(part.len() as int));
    }
}

/// An extraction that fails at entry `m` keeps what it wrote before: the
/// tree then holds every earlier file entry that no file entry between it
/// and `m` replaces, with exactly its bytes. Nothing is rolled back.
pub proof fn lemma_failure_keeps_earlier_entries(
    t: FileTree,
    entries: Seq<EntryView>,
    root: Seq<char>,
    sep: Separator,
    m: int,
    i: int,
)
    requires
        0 <= i < m <= entries.len(),
        !is_directory_entry(entries[i]),
        forall|j: int|
            i < j < m && !is_directory_entry(entries[j]) ==> target_of(
                root,
                sep,
                (#[trigger] entries[j]).name,
            ) != target_of(root, sep, entries[i].name),
    ensures
        ({
            let done = plan_ops(entries.take(m), root, sep).len() as int;
            let left = apply_ops(t, plan_ops(entries, root, sep).take(done));
            let target = target_of(root, sep, entries[i].name);
            left.files.contains_key(target) && left.files[target] == entries[i].content
        }),
{
    let first = entries.take(m);
    lemma_plan_of_first_entries(entries, root, sep, m);
    assert(first[i] == entries[i]);
    assert forall|j: int| i < j < first.len() && !is_directory_entry(first[j]) implies target_of(
        root,
        sep,
        (#[trigger] first[j]).name,
    ) != target_of(root, sep, first[i].name) by {
        assert(first[j] == entries[j]);
    }
    lemma_extracted_file_holds_entry(t, first, root, sep, i);
}

} // verus!
