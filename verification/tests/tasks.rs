use stranslate_host::descriptor::{
    escape_xml, generate_task_xml, render_task_xml, run_level_value, TaskDescriptor,
};
use stranslate_host::error::ErrorKind;
use stranslate_host::identity::{
    find_comma, get_current_user_sid, identity_command, is_blank_char, parse_user_sid, strip,
};
use stranslate_host::start::{
    handle_start_command, quote, quote_args, start_direct_process, start_elevated_process,
    start_task_scheduler, StartEvent, StartMode, StartRequest, StartStage, StartStep,
};
use stranslate_host::task::{
    check_task_exists, create_task, delete_task, describe_task, handle_task_command, list_tasks,
    register_task, TaskAction, TaskEvent, TaskOutcome, TaskRequest, TaskStage, TaskStep,
};

fn create_request(force: bool) -> TaskRequest {
    TaskRequest {
        action: TaskAction::Create,
        name: "T1".to_string(),
        program: Some("C:\\x\\a.exe".to_string()),
        working_dir: None,
        description: "d".to_string(),
        run_level: "limited".to_string(),
        force,
    }
}

fn named(action: TaskAction) -> TaskRequest {
    TaskRequest {
        action,
        name: "T1".to_string(),
        program: None,
        working_dir: None,
        description: String::new(),
        run_level: "highest".to_string(),
        force: false,
    }
}

fn descriptor() -> TaskDescriptor {
    TaskDescriptor {
        name: "T1".to_string(),
        program: "C:\\x\\a.exe".to_string(),
        working_dir: "C:\\x".to_string(),
        description: "a \"quoted\" text".to_string(),
        run_level: "limited".to_string(),
        user_sid: "S-1-5-18".to_string(),
    }
}

#[test]
fn scheduler_commands() {
    let q = check_task_exists("T1");
    assert_eq!(q.program, "schtasks");
    assert_eq!(q.args, vec!["/Query", "/TN", "T1"]);
    let d = delete_task("T1");
    assert_eq!(d.program, "schtasks");
    assert_eq!(d.args, vec!["/Delete", "/TN", "T1", "/F"]);
    let l = list_tasks();
    assert_eq!(l.program, "schtasks");
    assert_eq!(l.args, vec!["/Query", "/FO", "TABLE"]);
    let r = register_task("T1", "C:\\Temp\\task_77.xml");
    assert_eq!(r.program, "schtasks");
    assert_eq!(r.args, vec!["/Create", "/XML", "C:\\Temp\\task_77.xml", "/TN", "T1", "/F"]);
}

#[test]
fn identity_falls_back_to_administrators() {
    let answer = "\"desktop\\user\",\"S-1-5-21-1-2-3-1001\"\r\n";
    assert_eq!(get_current_user_sid(true, answer), "S-1-5-21-1-2-3-1001");
    assert_eq!(get_current_user_sid(false, answer), "S-1-5-32-544");
    assert_eq!(get_current_user_sid(true, "no comma here"), "S-1-5-32-544");
    assert_eq!(get_current_user_sid(false, ""), "S-1-5-32-544");
}

#[test]
fn identity_is_the_second_field() {
    assert_eq!(parse_user_sid("a,b,c"), Some("b".to_string()));
    assert_eq!(parse_user_sid("a, \"\"S-1-5-18\"\" \n"), Some("S-1-5-18".to_string()));
    assert_eq!(parse_user_sid("a,\" x \",c"), Some(" x ".to_string()));
    assert_eq!(parse_user_sid("a,"), Some(String::new()));
    assert_eq!(parse_user_sid("a"), None);
    assert_eq!(parse_user_sid(""), None);
}

#[test]
fn strip_removes_both_ends_only() {
    assert_eq!(strip("  a b \t\r\n", false), "a b");
    assert_eq!(strip("\u{3000}x\u{a0}", false), "x");
    assert_eq!(strip("   ", false), "");
    assert_eq!(strip("\"\"a\"b\"", true), "a\"b");
    assert_eq!(strip(" \"a\" ", true), " \"a\" ");
    assert!(is_blank_char(' ', false));
    assert!(!is_blank_char(' ', true));
    assert!(is_blank_char('"', true));
    assert!(!is_blank_char('x', false));
}

#[test]
fn find_comma_scans_from_the_start_index() {
    assert_eq!(find_comma("a,b,c", 0), 1);
    assert_eq!(find_comma("a,b,c", 2), 3);
    assert_eq!(find_comma("a,b,c", 4), 5);
    assert_eq!(find_comma("abc", 3), 3);
    assert_eq!(find_comma("abc", 7), 3);
}

#[test]
fn identity_lookup_command() {
    let c = identity_command();
    assert_eq!(c.program, "whoami");
    assert_eq!(c.args, vec!["/user", "/fo", "csv", "/nh"]);
}

#[test]
fn run_level_maps_to_privilege() {
    assert_eq!(run_level_value("highest"), "HighestAvailable");
    assert_eq!(run_level_value("limited"), "LeastPrivilege");
    assert_eq!(run_level_value("Highest"), "LeastPrivilege");
    assert_eq!(run_level_value(""), "LeastPrivilege");
}

#[test]
fn escape_xml_replaces_the_five_characters() {
    assert_eq!(escape_xml("a<b>&\"c'"), "a&lt;b&gt;&amp;&quot;c&apos;");
    assert_eq!(escape_xml("plain text"), "plain text");
    assert_eq!(escape_xml(""), "");
}

#[test]
fn descriptor_has_the_fixed_frame() {
    let xml = render_task_xml(
        "2024-01-02T03:04:05",
        "Tom & Jerry",
        "T1",
        "S-1-5-32-544",
        "highest",
        "C:\\x\\a.exe",
        "C:\\x",
    );
    let expected = "<?xml version=\"1.0\" encoding=\"UTF-16\"?>\n\
<Task version=\"1.2\" xmlns=\"http://schemas.microsoft.com/windows/2004/02/mit/task\">\n  \
<RegistrationInfo>\n    <Date>2024-01-02T03:04:05</Date>\n    \
<Author>stranslate - zggsong</Author>\n    <Description>Tom &amp; Jerry</Description>\n    \
<URI>\\T1</URI>\n  </RegistrationInfo>\n  <Triggers />\n  <Principals>\n    \
<Principal id=\"Author\">\n      <UserId>S-1-5-32-544</UserId>\n      \
<LogonType>InteractiveToken</LogonType>\n      <RunLevel>HighestAvailable</RunLevel>\n    \
</Principal>\n  </Principals>\n  <Settings>\n    \
<MultipleInstancesPolicy>IgnoreNew</MultipleInstancesPolicy>\n    \
<DisallowStartIfOnBatteries>false</DisallowStartIfOnBatteries>\n    \
<StopIfGoingOnBatteries>false</StopIfGoingOnBatteries>\n    \
<AllowHardTerminate>true</AllowHardTerminate>\n    \
<StartWhenAvailable>false</StartWhenAvailable>\n    \
<RunOnlyIfNetworkAvailable>false</RunOnlyIfNetworkAvailable>\n    <IdleSettings>\n      \
<StopOnIdleEnd>true</StopOnIdleEnd>\n      <RestartOnIdle>false</RestartOnIdle>\n    \
</IdleSettings>\n    <AllowStartOnDemand>true</AllowStartOnDemand>\n    \
<Enabled>true</Enabled>\n    <Hidden>false</Hidden>\n    <RunOnlyIfIdle>false</RunOnlyIfIdle>\n    \
<WakeToRun>false</WakeToRun>\n    <ExecutionTimeLimit>PT72H</ExecutionTimeLimit>\n    \
<Priority>4</Priority>\n  </Settings>\n  <Actions Context=\"Author\">\n    <Exec>\n      \
<Command>C:\\x\\a.exe</Command>\n      <WorkingDirectory>C:\\x</WorkingDirectory>\n    \
</Exec>\n  </Actions>\n</Task>";
    assert_eq!(xml, expected);
}

#[test]
fn generated_descriptor_carries_a_timestamp_of_now() {
    let d = descriptor();
    let xml = generate_task_xml(&d);
    let start = xml.find("<Date>").unwrap() + "<Date>".len();
    let end = xml.find("</Date>").unwrap();
    let stamp = &xml[start..end];
    assert_eq!(stamp.len(), 19);
    assert_eq!(&stamp[4..5], "-");
    assert_eq!(&stamp[10..11], "T");
    assert!(stamp[0..4].chars().all(|c| c.is_ascii_digit()));
    assert_eq!(xml, d.render(stamp));
    assert!(xml.contains("<RunLevel>LeastPrivilege</RunLevel>"));
}

#[test]
fn descriptor_renders_its_fields() {
    let d = descriptor();
    let xml = d.render("2024-01-02T03:04:05");
    assert_eq!(
        xml,
        render_task_xml(
            "2024-01-02T03:04:05",
            "a \"quoted\" text",
            "T1",
            "S-1-5-18",
            "limited",
            "C:\\x\\a.exe",
            "C:\\x"
        )
    );
    assert!(xml.contains("<Description>a &quot;quoted&quot; text</Description>"));
    assert!(xml.contains("<URI>\\T1</URI>"));
    assert!(xml.contains("<UserId>S-1-5-18</UserId>"));
    assert!(xml.contains("<Command>C:\\x\\a.exe</Command>"));
    assert!(xml.contains("<WorkingDirectory>C:\\x</WorkingDirectory>"));
}

#[test]
fn create_checks_the_program_first() {
    let req = create_request(true);
    let (stage, step) = handle_task_command(&req, TaskStage::Start, TaskEvent::Begin);
    assert_eq!(stage, TaskStage::CheckingProgram);
    assert!(matches!(step, TaskStep::CheckProgram { path } if path == "C:\\x\\a.exe"));
    let (stage, step) =
        handle_task_command(&req, stage, TaskEvent::ProgramChecked { present: false });
    assert_eq!(stage, TaskStage::Failed);
    match step {
        TaskStep::Fail { error } => {
            assert_eq!(error.kind, ErrorKind::InvalidInput);
            assert_eq!(error.message, "the program does not exist: C:\\x\\a.exe");
        }
        other => panic!("unexpected step {:?}", other),
    }
}

#[test]
fn create_without_program_is_invalid() {
    let req = named(TaskAction::Create);
    let (stage, step) = handle_task_command(&req, TaskStage::Start, TaskEvent::Begin);
    assert_eq!(stage, TaskStage::Failed);
    assert!(matches!(step, TaskStep::Fail { error } if error.kind == ErrorKind::InvalidInput));
}

#[test]
fn create_twice_is_a_no_op_the_second_time() {
    let req = create_request(false);
    let (stage, step) = handle_task_command(
        &req,
        TaskStage::CheckingProgram,
        TaskEvent::ProgramChecked { present: true },
    );
    assert_eq!(stage, TaskStage::Querying);
    assert!(matches!(step, TaskStep::Query { command } if command.args == vec!["/Query", "/TN", "T1"]));

    let (stage, step) =
        handle_task_command(&req, TaskStage::Querying, TaskEvent::Queried { registered: false });
    assert_eq!(stage, TaskStage::Identifying);
    assert!(matches!(step, TaskStep::Identify { command } if command.program == "whoami"));

    let (stage, step) = handle_task_command(
        &req,
        stage,
        TaskEvent::Identified { success: true, answer: "\"pc\\me\",\"S-1-5-21-9\"\r\n".to_string() },
    );
    assert_eq!(stage, TaskStage::Writing);
    match step {
        TaskStep::WriteDescriptor { descriptor } => {
            assert_eq!(descriptor.name, "T1");
            assert_eq!(descriptor.program, "C:\\x\\a.exe");
            assert_eq!(descriptor.working_dir, "C:\\x");
            assert_eq!(descriptor.description, "d");
            assert_eq!(descriptor.run_level, "limited");
            assert_eq!(descriptor.user_sid, "S-1-5-21-9");
        }
        other => panic!("unexpected step {:?}", other),
    }

    let fresh = "C:\\Temp\\task_4711_1.xml".to_string();
    let (stage, step) =
        handle_task_command(&req, stage, TaskEvent::DescriptorWritten { path: fresh.clone() });
    assert_eq!(stage, TaskStage::Registering { descriptor_path: fresh.clone() });
    match step {
        TaskStep::Register { command } => {
            assert_eq!(command.program, "schtasks");
            assert_eq!(
                command.args,
                vec!["/Create", "/XML", "C:\\Temp\\task_4711_1.xml", "/TN", "T1", "/F"]
            );
        }
        other => panic!("unexpected step {:?}", other),
    }

    let (stage, step) = handle_task_command(
        &req,
        stage,
        TaskEvent::CommandFinished { success: true, output: String::new() },
    );
    assert_eq!(stage, TaskStage::Removing { success: true, output: String::new() });
    assert!(matches!(step, TaskStep::RemoveDescriptor { path } if path == fresh));

    let (stage, step) = handle_task_command(&req, stage, TaskEvent::DescriptorRemoved);
    assert_eq!(stage, TaskStage::Done);
    assert!(matches!(step, TaskStep::Finish { outcome: TaskOutcome::Created }));

    let (stage, step) =
        handle_task_command(&req, TaskStage::Querying, TaskEvent::Queried { registered: true });
    assert_eq!(stage, TaskStage::Done);
    assert!(matches!(step, TaskStep::Finish { outcome: TaskOutcome::AlreadyExists }));
}

#[test]
fn descriptor_file_is_never_named_after_the_task() {
    let req = create_request(false);
    let (_, first) = handle_task_command(
        &req,
        TaskStage::Writing,
        TaskEvent::DescriptorWritten { path: "one.xml".to_string() },
    );
    let (_, second) = handle_task_command(
        &req,
        TaskStage::Writing,
        TaskEvent::DescriptorWritten { path: "two.xml".to_string() },
    );
    assert!(matches!(first, TaskStep::Register { command } if command.args[2] == "one.xml"));
    assert!(matches!(second, TaskStep::Register { command } if command.args[2] == "two.xml"));
}

#[test]
fn create_with_force_registers_again() {
    let req = create_request(true);
    let (stage, step) = create_task(&req, true);
    assert_eq!(stage, TaskStage::Identifying);
    assert!(matches!(step, TaskStep::Identify { .. }));
    let (stage, step) = create_task(&create_request(false), true);
    assert_eq!(stage, TaskStage::Done);
    assert!(matches!(step, TaskStep::Finish { outcome: TaskOutcome::AlreadyExists }));
}

#[test]
fn described_task_takes_the_requested_directory_and_the_fallback_identity() {
    let requested = TaskRequest {
        action: TaskAction::Create,
        name: "T1".to_string(),
        program: Some("C:\\x\\a.exe".to_string()),
        working_dir: Some("D:\\work".to_string()),
        description: "starts it".to_string(),
        run_level: "highest".to_string(),
        force: false,
    };
    let d = describe_task(&requested, "S-1-5-18".to_string()).unwrap();
    assert_eq!(d.working_dir, "D:\\work");
    assert_eq!(d.description, "starts it");
    assert_eq!(d.run_level, "highest");
    assert_eq!(d.user_sid, "S-1-5-18");
    assert!(describe_task(&named(TaskAction::Create), "S-1-5-18".to_string()).is_none());
    let (_, step) = handle_task_command(
        &requested,
        TaskStage::Identifying,
        TaskEvent::Identified { success: false, answer: String::new() },
    );
    assert!(matches!(step, TaskStep::WriteDescriptor { descriptor }
        if descriptor.user_sid == "S-1-5-32-544"));
    let at_root = TaskRequest {
        action: TaskAction::Create,
        name: "T1".to_string(),
        program: Some("C:\\a.exe".to_string()),
        working_dir: None,
        description: String::new(),
        run_level: "highest".to_string(),
        force: false,
    };
    assert_eq!(describe_task(&at_root, "S-1-5-18".to_string()).unwrap().working_dir, "C:\\");
}

#[test]
fn registration_failure_removes_the_file_and_carries_the_scheduler_text() {
    let req = create_request(false);
    let (stage, step) = handle_task_command(
        &req,
        TaskStage::Registering { descriptor_path: "t.xml".to_string() },
        TaskEvent::CommandFinished { success: false, output: "ERROR: Access is denied.".to_string() },
    );
    assert!(matches!(step, TaskStep::RemoveDescriptor { path } if path == "t.xml"));
    let (stage, step) = handle_task_command(&req, stage, TaskEvent::DescriptorRemoved);
    assert_eq!(stage, TaskStage::Failed);
    match step {
        TaskStep::Fail { error } => {
            assert_eq!(error.kind, ErrorKind::OsOperationFailed);
            assert_eq!(
                error.message,
                "the scheduled task could not be created: ERROR: Access is denied."
            );
        }
        other => panic!("unexpected step {:?}", other),
    }
}

#[test]
fn descriptor_that_cannot_be_written_fails_the_creation() {
    let req = create_request(false);
    let (stage, step) = handle_task_command(
        &req,
        TaskStage::Writing,
        TaskEvent::DescriptorNotWritten { output: "disk full".to_string() },
    );
    assert_eq!(stage, TaskStage::Failed);
    assert!(matches!(step, TaskStep::Fail { error }
        if error.message == "the task descriptor could not be written: disk full"));
}

#[test]
fn check_reports_existence() {
    let req = named(TaskAction::Check);
    let (stage, step) = handle_task_command(&req, TaskStage::Start, TaskEvent::Begin);
    assert_eq!(stage, TaskStage::Querying);
    assert!(matches!(step, TaskStep::Query { .. }));
    let (_, yes) = handle_task_command(&req, stage.clone(), TaskEvent::Queried { registered: true });
    assert!(matches!(yes, TaskStep::Finish { outcome: TaskOutcome::Exists }));
    let (_, no) = handle_task_command(&req, stage, TaskEvent::Queried { registered: false });
    assert!(matches!(no, TaskStep::Finish { outcome: TaskOutcome::Absent }));
}

#[test]
fn delete_of_an_absent_task_is_a_no_op() {
    let req = named(TaskAction::Delete);
    let (stage, step) =
        handle_task_command(&req, TaskStage::Querying, TaskEvent::Queried { registered: false });
    assert_eq!(stage, TaskStage::Done);
    assert!(matches!(step, TaskStep::Finish { outcome: TaskOutcome::AlreadyAbsent }));
    let (stage, step) =
        handle_task_command(&req, TaskStage::Querying, TaskEvent::Queried { registered: true });
    assert_eq!(stage, TaskStage::Deleting);
    assert!(matches!(step, TaskStep::Run { command } if command.args == vec!["/Delete", "/TN", "T1", "/F"]));
    let (stage, step) = handle_task_command(
        &req,
        stage,
        TaskEvent::CommandFinished { success: false, output: "denied".to_string() },
    );
    assert_eq!(stage, TaskStage::Failed);
    assert!(matches!(step, TaskStep::Fail { error } if error.message == "the scheduled task could not be deleted: denied"));
}

#[test]
fn list_shows_the_report_unchanged() {
    let req = named(TaskAction::List);
    let (stage, step) = handle_task_command(&req, TaskStage::Start, TaskEvent::Begin);
    assert_eq!(stage, TaskStage::Listing);
    assert!(matches!(step, TaskStep::Run { command } if command.args == vec!["/Query", "/FO", "TABLE"]));
    let (stage, step) = handle_task_command(
        &req,
        stage,
        TaskEvent::CommandFinished { success: true, output: "Name  Status\nT1  Ready\n".to_string() },
    );
    assert_eq!(stage, TaskStage::Done);
    assert!(matches!(step, TaskStep::Show { report } if report == "Name  Status\nT1  Ready\n"));
}

#[test]
fn quotes_are_doubled_inside_a_literal() {
    assert_eq!(quote("plain"), "'plain'");
    assert_eq!(quote(""), "''");
    assert_eq!(quote("it's"), "'it''s'");
    assert_eq!(quote("'"), "''''");
    assert_eq!(quote("a\u{2019}b"), "'a\u{2019}\u{2019}b'");
    assert_eq!(quote("a\u{2018}\u{201a}\u{201b}"), "'a\u{2018}\u{2018}\u{201a}\u{201a}\u{201b}\u{201b}'");
    assert_eq!(quote("a\"b $x"), "'a\"b $x'");
}

#[test]
fn arguments_are_separate_literals() {
    let none: Vec<String> = Vec::new();
    assert_eq!(quote_args(&none), "");
    assert_eq!(quote_args(&vec!["x".to_string()]), "'x'");
    assert_eq!(quote_args(&vec!["--a".to_string(), "b c".to_string()]), "'--a','b c'");
    assert_eq!(quote_args(&vec!["it's".to_string(), "".to_string()]), "'it''s',''");
}

#[test]
fn start_scripts() {
    let none: Vec<String> = Vec::new();
    let two: Vec<String> = vec!["--a".to_string(), "b".to_string()];
    let d = start_direct_process("C:\\x\\a.exe", &none);
    assert_eq!(d.program, "powershell");
    assert_eq!(d.args, vec!["-Command", "Start-Process -FilePath 'C:\\x\\a.exe'"]);
    let d2 = start_direct_process("C:\\x\\a.exe", &two);
    assert_eq!(
        d2.args,
        vec!["-Command", "Start-Process -FilePath 'C:\\x\\a.exe' -ArgumentList '--a','b'"]
    );
    let e = start_elevated_process("C:\\x\\a.exe", &none);
    assert_eq!(e.args, vec!["-Command", "Start-Process -FilePath 'C:\\x\\a.exe' -Verb RunAs"]);
    let e2 = start_elevated_process("C:\\x\\a.exe", &two);
    assert_eq!(
        e2.args,
        vec![
            "-Command",
            "Start-Process -FilePath 'C:\\x\\a.exe' -ArgumentList '--a','b' -Verb RunAs"
        ]
    );
    let t = start_task_scheduler("T1");
    assert_eq!(t.program, "schtasks");
    assert_eq!(t.args, vec!["/Run", "/TN", "T1"]);
}

#[test]
fn a_quote_in_target_or_argument_stays_data() {
    let args: Vec<String> = vec!["it's".to_string()];
    let d = start_direct_process("C:\\x\\a.exe", &args);
    assert_eq!(
        d.args,
        vec!["-Command", "Start-Process -FilePath 'C:\\x\\a.exe' -ArgumentList 'it''s'"]
    );
    let e = start_elevated_process("C:\\o'neil\\a.exe", &Vec::new());
    assert_eq!(
        e.args,
        vec!["-Command", "Start-Process -FilePath 'C:\\o''neil\\a.exe' -Verb RunAs"]
    );
}

#[test]
fn start_waits_then_launches() {
    let req = StartRequest {
        mode: StartMode::Direct,
        target: "a.exe".to_string(),
        args: Vec::new(),
        delay: 2,
        verbose: false,
    };
    let (stage, step) = handle_start_command(&req, StartStage::Start, StartEvent::Begin);
    assert_eq!(stage, StartStage::Delaying);
    assert!(matches!(step, StartStep::Wait { seconds: 2 }));
    let (stage, step) = handle_start_command(&req, stage, StartEvent::DelayElapsed);
    assert_eq!(stage, StartStage::Launching);
    assert!(matches!(step, StartStep::Run { command } if command.program == "powershell"));
    let (stage, step) = handle_start_command(
        &req,
        stage,
        StartEvent::CommandFinished { success: false, output: "no such file".to_string() },
    );
    assert_eq!(stage, StartStage::Done);
    assert!(matches!(step, StartStep::Finish { started: false }));
}

#[test]
fn elevated_start_is_detached_and_quiet_unless_verbose() {
    for verbose in [false, true] {
        let req = StartRequest {
            mode: StartMode::Elevated,
            target: "a.exe".to_string(),
            args: Vec::new(),
            delay: 0,
            verbose,
        };
        let (stage, step) = handle_start_command(&req, StartStage::Start, StartEvent::Begin);
        assert_eq!(stage, StartStage::Launching);
        match step {
            StartStep::Spawn { command, discard_output } => {
                assert_eq!(command.args[1], "Start-Process -FilePath 'a.exe' -Verb RunAs");
                assert_eq!(discard_output, !verbose);
            }
            other => panic!("unexpected step {:?}", other),
        }
    }
}

#[test]
fn failed_task_run_is_fatal() {
    let req = StartRequest {
        mode: StartMode::Task,
        target: "T1".to_string(),
        args: Vec::new(),
        delay: 0,
        verbose: false,
    };
    let (stage, step) = handle_start_command(&req, StartStage::Start, StartEvent::Begin);
    assert_eq!(stage, StartStage::Launching);
    assert!(matches!(step, StartStep::Run { command } if command.args == vec!["/Run", "/TN", "T1"]));
    let (stage, step) = handle_start_command(
        &req,
        stage,
        StartEvent::CommandFinished { success: false, output: "not found".to_string() },
    );
    assert_eq!(stage, StartStage::Failed);
    assert!(matches!(step, StartStep::Fail { error } if error.kind == ErrorKind::OsOperationFailed
        && error.message == "the scheduled task could not be started: not found"));
    let (stage, step) = handle_start_command(
        &req,
        StartStage::Launching,
        StartEvent::CommandFinished { success: true, output: String::new() },
    );
    assert_eq!(stage, StartStage::Done);
    assert!(matches!(step, StartStep::Finish { started: true }));
}
