use stranslate_host::command::close_process;
use stranslate_host::error::{ErrorKind, HostError};
use stranslate_host::update::{
    handle_update_command, UpdateAction, UpdateEvent, UpdateRequest, UpdateStage,
};

fn request(wait_time: u64, process_name: Option<&str>, auto_start: bool) -> UpdateRequest {
    UpdateRequest {
        archive: "C:\\app\\update\\pkg.zip".to_string(),
        wait_time,
        clean: true,
        process_name: process_name.map(|s| s.to_string()),
        auto_start,
    }
}

#[test]
fn close_process_kills_by_image_name() {
    let c = close_process("STranslate.exe");
    assert_eq!(c.program, "taskkill");
    assert_eq!(c.args, vec!["/F", "/IM", "STranslate.exe"]);
}

#[test]
fn update_begins_with_the_archive_check() {
    let req = request(0, None, false);
    let (stage, action) = handle_update_command(&req, UpdateStage::Start, UpdateEvent::Begin);
    assert_eq!(stage, UpdateStage::Validating);
    assert!(matches!(action, UpdateAction::CheckArchive { path } if path == "C:\\app\\update\\pkg.zip"));
}

#[test]
fn missing_archive_fails_before_anything_else() {
    let req = request(5, Some("STranslate.exe"), true);
    let (stage, action) = handle_update_command(
        &req,
        UpdateStage::Validating,
        UpdateEvent::ArchiveChecked { present: false },
    );
    assert_eq!(stage, UpdateStage::Failed);
    match action {
        UpdateAction::Fail { error } => {
            assert_eq!(error.kind, ErrorKind::NotFound);
            assert_eq!(error.text(), "the archive does not exist: C:\\app\\update\\pkg.zip");
        }
        other => panic!("unexpected action {:?}", other),
    }
    let (after, again) = handle_update_command(&req, stage, UpdateEvent::WaitElapsed);
    assert_eq!(after, UpdateStage::Failed);
    assert!(matches!(again, UpdateAction::Fail { .. }));
}

#[test]
fn process_is_stopped_first_when_named() {
    let req = request(3, Some("STranslate.exe"), false);
    let (stage, action) = handle_update_command(
        &req,
        UpdateStage::Validating,
        UpdateEvent::ArchiveChecked { present: true },
    );
    assert_eq!(stage, UpdateStage::Stopping);
    match action {
        UpdateAction::StopProcess { command } => {
            assert_eq!(command.program, "taskkill");
            assert_eq!(command.args, vec!["/F", "/IM", "STranslate.exe"]);
        }
        other => panic!("unexpected action {:?}", other),
    }
}

#[test]
fn failed_termination_still_leads_to_extraction() {
    let req = request(0, Some("STranslate.exe"), false);
    for success in [false, true] {
        let (stage, action) = handle_update_command(
            &req,
            UpdateStage::Stopping,
            UpdateEvent::ProcessStopped { success },
        );
        assert_eq!(stage, UpdateStage::Extracting);
        assert!(matches!(
            action,
            UpdateAction::Extract { archive, clean: true } if archive == "C:\\app\\update\\pkg.zip"
        ));
    }
}

#[test]
fn wait_comes_before_extraction_unless_zero() {
    let waiting = request(7, None, false);
    let (stage, action) = handle_update_command(
        &waiting,
        UpdateStage::Validating,
        UpdateEvent::ArchiveChecked { present: true },
    );
    assert_eq!(stage, UpdateStage::Waiting);
    assert!(matches!(action, UpdateAction::Wait { seconds: 7 }));
    let (stage, action) = handle_update_command(&waiting, stage, UpdateEvent::WaitElapsed);
    assert_eq!(stage, UpdateStage::Extracting);
    assert!(matches!(action, UpdateAction::Extract { .. }));

    let at_once = request(0, None, false);
    let (stage, action) = handle_update_command(
        &at_once,
        UpdateStage::Validating,
        UpdateEvent::ArchiveChecked { present: true },
    );
    assert_eq!(stage, UpdateStage::Extracting);
    assert!(matches!(action, UpdateAction::Extract { .. }));
}

#[test]
fn extraction_failure_is_passed_on_verbatim() {
    let req = request(0, None, true);
    let error = HostError::new(ErrorKind::OsOperationFailed, "disk full");
    let (stage, action) =
        handle_update_command(&req, UpdateStage::Extracting, UpdateEvent::ExtractionFailed { error });
    assert_eq!(stage, UpdateStage::Failed);
    match action {
        UpdateAction::Fail { error } => {
            assert_eq!(error.kind, ErrorKind::OsOperationFailed);
            assert_eq!(error.message, "disk full");
        }
        other => panic!("unexpected action {:?}", other),
    }
}

#[test]
fn update_without_relaunch_finishes_after_extraction() {
    let req = request(0, None, false);
    let (stage, action) = handle_update_command(&req, UpdateStage::Extracting, UpdateEvent::Extracted);
    assert_eq!(stage, UpdateStage::Done);
    assert!(matches!(action, UpdateAction::Finish));
}

#[test]
fn relaunch_checks_then_starts_the_installed_executable() {
    let req = request(0, None, true);
    let (stage, action) = handle_update_command(&req, UpdateStage::Extracting, UpdateEvent::Extracted);
    assert_eq!(stage, UpdateStage::Locating);
    assert!(matches!(action, UpdateAction::CheckExecutable { path } if path == "C:\\app\\STranslate.exe"));
    let (stage, action) =
        handle_update_command(&req, stage, UpdateEvent::ExecutableChecked { present: true });
    assert_eq!(stage, UpdateStage::Launching);
    assert!(matches!(action, UpdateAction::Launch { path } if path == "C:\\app\\STranslate.exe"));
    for success in [false, true] {
        let (stage, action) = handle_update_command(
            &req,
            UpdateStage::Launching,
            UpdateEvent::LaunchAttempted { success },
        );
        assert_eq!(stage, UpdateStage::Done);
        assert!(matches!(action, UpdateAction::Finish));
    }
}

#[test]
fn missing_executable_is_no_error() {
    let req = request(0, None, true);
    let (stage, action) = handle_update_command(
        &req,
        UpdateStage::Locating,
        UpdateEvent::ExecutableChecked { present: false },
    );
    assert_eq!(stage, UpdateStage::Done);
    assert!(matches!(action, UpdateAction::Finish));
}

#[test]
fn relaunch_without_installation_root_is_unresolvable() {
    let req = UpdateRequest {
        archive: "pkg.zip".to_string(),
        wait_time: 0,
        clean: false,
        process_name: None,
        auto_start: true,
    };
    let (stage, action) = handle_update_command(&req, UpdateStage::Extracting, UpdateEvent::Extracted);
    assert_eq!(stage, UpdateStage::Failed);
    assert!(matches!(action, UpdateAction::Fail { error } if error.kind == ErrorKind::Unresolvable));
}

#[test]
fn event_that_answers_nothing_is_refused() {
    let req = request(0, None, false);
    let (stage, action) = handle_update_command(&req, UpdateStage::Start, UpdateEvent::Extracted);
    assert_eq!(stage, UpdateStage::Failed);
    assert!(matches!(action, UpdateAction::Fail { error } if error.kind == ErrorKind::InvalidInput));
    let (stage, action) = handle_update_command(&req, UpdateStage::Done, UpdateEvent::Begin);
    assert_eq!(stage, UpdateStage::Failed);
    assert!(matches!(action, UpdateAction::Fail { .. }));
}
