use hypr_settings::engine::OperationRun;
use hypr_settings::records::PackageOperation;
use hypr_settings::strategy::OperationKind;

fn piped_run(kind: OperationKind, package: Option<&str>) -> (OperationRun, Vec<PackageOperation>) {
    let (run, first) = OperationRun::start(kind, package.map(|p| p.to_string()));
    (run, vec![first])
}

#[test]
fn starting_record_opens_every_operation() {
    let (_, records) = piped_run(OperationKind::Install, Some("firefox"));
    let first = &records[0];
    assert_eq!(first.operation, "install");
    assert_eq!(first.package_name.as_deref(), Some("firefox"));
    assert_eq!(first.progress, 0);
    assert_eq!(first.status, "Starting install...");
    assert!(first.output.is_empty());
    assert!(first.running);
}

#[test]
fn system_update_has_no_package() {
    let (_, records) = piped_run(OperationKind::SystemUpdate, None);
    assert_eq!(records[0].operation, "system update");
    assert_eq!(records[0].package_name, None);
    assert_eq!(records[0].status, "Starting system update...");
}

#[test]
fn piped_progress_steps_by_five() {
    let (mut run, mut records) = piped_run(OperationKind::Install, Some("vim"));
    for i in 0..3 {
        records.push(run.stdout_line(format!("line {}", i)));
    }
    assert_eq!(records[1].progress, 15);
    assert_eq!(records[2].progress, 20);
    assert_eq!(records[3].progress, 25);
    assert_eq!(records[3].status, "Processing install...");
    assert_eq!(records[3].output, vec!["line 0", "line 1", "line 2"]);
    assert!(records[3].running);
}

#[test]
fn piped_progress_caps_at_ninety() {
    let (mut run, mut records) = piped_run(OperationKind::Update, Some("vim"));
    for i in 0..20 {
        records.push(run.stdout_line(format!("line {}", i)));
    }
    assert_eq!(records.last().unwrap().progress, 90);
    assert_eq!(records[16].progress, 90);
    assert_eq!(records[15].progress, 85);
    for w in records.windows(2) {
        assert!(w[0].progress <= w[1].progress);
    }
    let (last, outcome) = run.process_exited(Some(0));
    records.push(last);
    assert!(outcome.is_ok());
    assert_eq!(records.iter().filter(|r| !r.running).count(), 1);
    assert!(!records.last().unwrap().running);
    assert_eq!(records.last().unwrap().progress, 100);
    assert_eq!(records.last().unwrap().output.len(), 20);
}

#[test]
fn stderr_lines_follow_stdout_marked() {
    let (mut run, _) = piped_run(OperationKind::Remove, Some("vim"));
    let _ = run.stdout_line("removing vim".to_string());
    run.stderr_line("warning: something".to_string());
    let (last, outcome) = run.process_exited(Some(1));
    assert_eq!(last.output, vec!["removing vim", "ERROR: warning: something"]);
    assert_eq!(last.status, "remove failed");
    assert_eq!(outcome, Err("remove failed with exit code: Some(1)".to_string()));
}

#[test]
fn zero_exit_is_success() {
    let (mut run, _) = piped_run(OperationKind::Install, Some("vim"));
    let (last, outcome) = run.process_exited(Some(0));
    assert_eq!(outcome, Ok(()));
    assert_eq!(last.status, "install completed successfully");
    assert_eq!(last.progress, 100);
    assert!(!last.running);
}

#[test]
fn missing_exit_code_is_failure() {
    let (mut run, _) = piped_run(OperationKind::Update, Some("vim"));
    let (last, outcome) = run.process_exited(None);
    assert_eq!(last.status, "update failed");
    assert_eq!(outcome, Err("update failed with exit code: None".to_string()));
}

#[test]
fn negative_exit_code_is_written_with_sign() {
    let (mut run, _) = piped_run(OperationKind::Install, Some("vim"));
    let (_, outcome) = run.process_exited(Some(-127));
    assert_eq!(outcome, Err("install failed with exit code: Some(-127)".to_string()));
}

#[test]
fn large_exit_code_is_written_whole() {
    let (mut run, _) = piped_run(OperationKind::Install, Some("vim"));
    let (_, outcome) = run.process_exited(Some(i32::MIN));
    assert_eq!(outcome, Err("install failed with exit code: Some(-2147483648)".to_string()));
}

#[test]
fn spawn_failure_publishes_no_final_record() {
    let (mut run, _) = piped_run(OperationKind::Install, Some("vim"));
    let e = run.spawn_failed("pkexec", "No such file or directory (os error 2)");
    assert_eq!(e, "Failed to start pkexec: No such file or directory (os error 2)");
}

#[test]
fn wait_failures_name_what_was_waited_for() {
    let (mut run, _) = piped_run(OperationKind::Install, Some("vim"));
    assert_eq!(run.wait_failed("broken"), "Failed to wait for process: broken");
    let (mut run, _) = piped_run(OperationKind::Install, Some("vim"));
    let _ = run.terminal_started("kitty");
    assert_eq!(run.wait_failed("broken"), "Failed to wait for terminal process: broken");
}

#[test]
fn terminal_run_publishes_midpoint_then_final() {
    let (mut run, mut records) = piped_run(OperationKind::SystemUpdate, None);
    records.push(run.terminal_started("kitty"));
    assert_eq!(records[1].progress, 50);
    assert_eq!(records[1].status, "Running system update in terminal...");
    assert_eq!(records[1].output, vec!["Opening kitty terminal for interactive command..."]);
    assert!(records[1].running);
    let (last, outcome) = run.terminal_exited(Some(0));
    records.push(last);
    assert_eq!(outcome, Ok(()));
    let last = records.last().unwrap();
    assert_eq!(last.progress, 100);
    assert_eq!(last.status, "system update completed");
    assert_eq!(last.output, vec!["Terminal command completed with exit code: Some(0)"]);
    assert_eq!(records.iter().filter(|r| !r.running).count(), 1);
}

#[test]
fn terminal_failure_is_reported() {
    let (mut run, _) = piped_run(OperationKind::Install, Some("yay-bin"));
    let _ = run.terminal_started("xterm");
    let (last, outcome) = run.terminal_exited(Some(2));
    assert_eq!(last.status, "install may have failed - check terminal output");
    assert_eq!(outcome, Err("install failed with exit code: Some(2)".to_string()));
}

#[test]
fn no_terminal_gives_one_final_record_at_zero() {
    let (mut run, mut records) = piped_run(OperationKind::Install, Some("yay-bin"));
    let (last, e) = run.no_terminal();
    records.push(last);
    assert_eq!(e, "No suitable terminal emulator found");
    let finals: Vec<&PackageOperation> = records.iter().filter(|r| !r.running).collect();
    assert_eq!(finals.len(), 1);
    assert_eq!(finals[0].progress, 0);
    assert_eq!(finals[0].status, "Failed to find suitable terminal for install");
    assert_eq!(
        finals[0].output,
        vec!["No compatible terminal emulator found. Please install one of: kitty, alacritty, wezterm, gnome-terminal, konsole, or xterm"]
    );
    assert!(!records.last().unwrap().running);
}
