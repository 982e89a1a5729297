//! The descriptor from which the scheduler registers a task: an XML
//! document with a fixed frame, into which each value is written escaped.

use vstd::prelude::*;
use vstd::string::*;
use crate::path::same_text;

verus! {

/// How one character is written inside the document.
pub open spec fn escaped_char(c: char) -> Seq<char> {
    if c == '&' {
        "&amp;"@
    } else if c == '<' {
        "&lt;"@
    } else if c == '>' {
        "&gt;"@
    } else if c == '"' {
        "&quot;"@
    } else if c == '\'' {
        "&apos;"@
    } else {
        seq![c]
    }
}

/// A text with every character escaped, in order.
pub open spec fn escaped(s: Seq<char>) -> Seq<char>
    decreases s.len(),
{
    if s.len() == 0 {
        Seq::<char>::empty()
    } else {
        escaped(s.drop_last()) + escaped_char(s.last())
    }
}

/// Computes `escaped`.
pub fn escape_xml(s: &str) -> (r: String)
    ensures
        r@ == escaped(s@),
{
    let n: usize = s.unicode_len();
    let mut out: String = String::new();
    let mut i: usize = 0;
    assert(s@.take(0) =~= Seq::<char>::empty());
    while i < n
        invariant
            i <= n,
            n == s@.len(),
            out@ == escaped(s@.take(i as int)),
        decreases n - i,
    {
        let c: char = s.get_char(i);
        proof {
            assert(s@.take(i + 1).drop_last() =~= s@.take(i as int));
            assert(s@.take(i + 1).last() == c);
        }
        if c == '&' {
            out.append("&amp;");
        } else if c == '<' {
            out.append("&lt;");
        } else if c == '>' {
            out.append("&gt;");
        } else if c == '"' {
            out.append("&quot;");
        } else if c == '\'' {
            out.append("&apos;");
        } else {
            out.append(s.substring_char(i, i + 1));
            assert(s@.subrange(i as int, i + 1) =~= seq![c]);
        }
        i = i + 1;
    }
    assert(s@.take(n as int) =~= s@);
    out
}

/// The privilege level written for a requested run level: `highest` asks
/// for the highest available, anything else for the least.
pub open spec fn run_level_text(run_level: Seq<char>) -> Seq<char> {
    if run_level == "highest"@ {
        "HighestAvailable"@
    } else {
        "LeastPrivilege"@
    }
}

/// Computes `run_level_text`.
pub fn run_level_value(run_level: &str) -> (r: &'static str)
    ensures
        r@ == run_level_text(run_level@),
{
    if same_text(run_level, "highest") {
        "HighestAvailable"
    } else {
        "LeastPrivilege"
    }
}

/// The descriptor of a task: the fixed frame with the creation time, the
/// description, the task name as a path, the identity, the privilege level,
/// the program and the working directory written into it.
pub open spec fn task_xml(
    created: Seq<char>,
    description: Seq<char>,
    task_name: Seq<char>,
    user_sid: Seq<char>,
    run_level: Seq<char>,
    program: Seq<char>,
    working_dir: Seq<char>,
) -> Seq<char> {
    "<?xml version=\"1.0\" encoding=\"UTF-16\"?>\n<Task version=\"1.2\" xmlns=\"http://schemas.microsoft.com/windows/2004/02/mit/task\">\n  <RegistrationInfo>\n    <Date>"@
        + escaped(created)
        + "</Date>\n    <Author>stranslate - zggsong</Author>\n    <Description>"@
        + escaped(description) + "</Description>\n    <URI>\\"@ + escaped(task_name)
        + "</URI>\n  </RegistrationInfo>\n  <Triggers />\n  <Principals>\n    <Principal id=\"Author\">\n      <UserId>"@
        + escaped(user_sid)
        + "</UserId>\n      <LogonType>InteractiveToken</LogonType>\n      <RunLevel>"@
        + run_level_text(run_level)
        + "</RunLevel>\n    </Principal>\n  </Principals>\n  <Settings>\n    <MultipleInstancesPolicy>IgnoreNew</MultipleInstancesPolicy>\n    <DisallowStartIfOnBatteries>false</DisallowStartIfOnBatteries>\n    <StopIfGoingOnBatteries>false</StopIfGoingOnBatteries>\n    <AllowHardTerminate>true</AllowHardTerminate>\n    <StartWhenAvailable>false</StartWhenAvailable>\n    <RunOnlyIfNetworkAvailable>false</RunOnlyIfNetworkAvailable>\n    <IdleSettings>\n      <StopOnIdleEnd>true</StopOnIdleEnd>\n      <RestartOnIdle>false</RestartOnIdle>\n    </IdleSettings>\n    <AllowStartOnDemand>true</AllowStartOnDemand>\n    <Enabled>true</Enabled>\n    <Hidden>false</Hidden>\n    <RunOnlyIfIdle>false</RunOnlyIfIdle>\n    <WakeToRun>false</WakeToRun>\n    <ExecutionTimeLimit>PT72H</ExecutionTimeLimit>\n    <Priority>4</Priority>\n  </Settings>\n  <Actions Context=\"Author\">\n    <Exec>\n      <Command>"@
        + escaped(program) + "</Command>\n      <WorkingDirectory>"@ + escaped(working_dir)
        + "</WorkingDirectory>\n    </Exec>\n  </Actions>\n</Task>"@
}

/// Writes the descriptor for the given creation time.
pub fn render_task_xml(
    created: &str,
    description: &str,
    task_name: &str,
    user_sid: &str,
    run_level: &str,
    program: &str,
    working_dir: &str,
) -> (r: String)
    ensures
        r@ == task_xml(
            created@,
            description@,
            task_name@,
            user_sid@,
            run_level@,
            program@,
            working_dir@,
        ),
{
    let mut out: String = String::from_str(
        "<?xml version=\"1.0\" encoding=\"UTF-16\"?>\n<Task version=\"1.2\" xmlns=\"http://schemas.microsoft.com/windows/2004/02/mit/task\">\n  <RegistrationInfo>\n    <Date>",
    );
    out.append(escape_xml(created).as_str());
    out.append("</Date>\n    <Author>stranslate - zggsong</Author>\n    <Description>");
    out.append(escape_xml(description).as_str());
    out.append("</Description>\n    <URI>\\");
    out.append(escape_xml(task_name).as_str());
    out.append(
        "</URI>\n  </RegistrationInfo>\n  <Triggers />\n  <Principals>\n    <Principal id=\"Author\">\n      <UserId>",
    );
    out.append(escape_xml(user_sid).as_str());
    out.append("</UserId>\n      <LogonType>InteractiveToken</LogonType>\n      <RunLevel>");
    out.append(run_level_value(run_level));
    out.append(
        "</RunLevel>\n    </Principal>\n  </Principals>\n  <Settings>\n    <MultipleInstancesPolicy>IgnoreNew</MultipleInstancesPolicy>\n    <DisallowStartIfOnBatteries>false</DisallowStartIfOnBatteries>\n    <StopIfGoingOnBatteries>false</StopIfGoingOnBatteries>\n    <AllowHardTerminate>true</AllowHardTerminate>\n    <StartWhenAvailable>false</StartWhenAvailable>\n    <RunOnlyIfNetworkAvailable>false</RunOnlyIfNetworkAvailable>\n    <IdleSettings>\n      <StopOnIdleEnd>true</StopOnIdleEnd>\n      <RestartOnIdle>false</RestartOnIdle>\n    </IdleSettings>\n    <AllowStartOnDemand>true</AllowStartOnDemand>\n    <Enabled>true</Enabled>\n    <Hidden>false</Hidden>\n    <RunOnlyIfIdle>false</RunOnlyIfIdle>\n    <WakeToRun>false</WakeToRun>\n    <ExecutionTimeLimit>PT72H</ExecutionTimeLimit>\n    <Priority>4</Priority>\n  </Settings>\n  <Actions Context=\"Author\">\n    <Exec>\n      <Command>",
    );
    out.append(escape_xml(program).as_str());
    out.append("</Command>\n      <WorkingDirectory>");
    out.append(escape_xml(working_dir).as_str());
    out.append("</WorkingDirectory>\n    </Exec>\n  </Actions>\n</Task>");
    out
}

/// What a scheduled task is registered with.
#[derive(Debug)]
pub struct TaskDescriptor {
    /// Name of the task in the scheduler.
    pub name: String,
    /// Program the task starts.
    pub program: String,
    /// Directory the program runs in.
    pub working_dir: String,
    /// Text shown with the task.
    pub description: String,
    /// Requested run level; `highest` asks for the highest available.
    pub run_level: String,
    /// Identity the task runs as.
    pub user_sid: String,
}

/// A descriptor as plain values.
pub struct TaskDescriptorView {
    pub name: Seq<char>,
    pub program: Seq<char>,
    pub working_dir: Seq<char>,
    pub description: Seq<char>,
    pub run_level: Seq<char>,
    pub user_sid: Seq<char>,
}

impl View for TaskDescriptor {
    type V = TaskDescriptorView;

    open spec fn view(&self) -> TaskDescriptorView {
        TaskDescriptorView {
            name: self.name@,
            program: self.program@,
            working_dir: self.working_dir@,
            description: self.description@,
            run_level: self.run_level@,
            user_sid: self.user_sid@,
        }
    }
}

/// The document for a descriptor and a creation time.
pub open spec fn document(d: TaskDescriptorView, created: Seq<char>) -> Seq<char> {
    task_xml(created, d.description, d.name, d.user_sid, d.run_level, d.program, d.working_dir)
}

impl TaskDescriptor {
    /// Writes the document for the given creation time.
    pub fn render(&self, created: &str) -> (r: String)
        ensures
            r@ == document(self@, created@),
    {
        render_task_xml(
            created,
            self.description.as_str(),
            self.name.as_str(),
            self.user_sid.as_str(),
            self.run_level.as_str(),
            self.program.as_str(),
            self.working_dir.as_str(),
        )
    }
}

/// Reads the local clock through `chrono::Local::now` and formats it with
/// `%Y-%m-%dT%H:%M:%S`. The text depends on the moment and on the machine's
/// time zone, so nothing is claimed of it. The call presumes a clock that
/// stands after 1970 and a machine that knows its time zone.
#[verifier::external_body]
fn local_timestamp() -> (s: String) {
    chrono::Local::now().format("%Y-%m-%dT%H:%M:%S").to_string()
}

/// Writes the document of a task created now. The creation time is
/// whatever the clock gives; everything else is fixed by the descriptor.
pub fn generate_task_xml(descriptor: &TaskDescriptor) -> (r: String)
    ensures
        exists|created: Seq<char>| r@ == #[trigger] document(descriptor@, created),
{
    let created: String = local_timestamp();
    descriptor.render(created.as_str())
}

} // verus!
