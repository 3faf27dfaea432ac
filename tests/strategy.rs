use hypr_settings::strategy::{
    preferred_helper, privilege_command, select_strategy, ExecutionMode, OperationKind,
};
use hypr_settings::terminal::{
    command_line, first_available, join_words, terminal_candidates, terminal_invocation,
    wrapped_command,
};

#[test]
fn remove_ignores_aur_helper() {
    for helper in ["yay", "paru", "pacman", "other"] {
        let s = select_strategy(OperationKind::Remove, "firefox", helper, "pkexec");
        assert_eq!(s.program, "pkexec");
        assert_eq!(s.args, vec!["pacman", "-R", "--noconfirm", "firefox"]);
        assert_eq!(s.mode, ExecutionMode::PipedCapture);
    }
}

#[test]
fn system_update_with_paru_runs_in_terminal() {
    let s = select_strategy(OperationKind::SystemUpdate, "", "paru", "sudo");
    assert_eq!(s.program, "paru");
    assert_eq!(s.args, vec!["-Syu", "--noconfirm"]);
    assert_eq!(s.mode, ExecutionMode::InteractiveTerminal);
    assert_eq!(command_line(&s), "paru -Syu --noconfirm");
}

#[test]
fn install_with_pacman_is_piped_and_privileged() {
    let s = select_strategy(OperationKind::Install, "vim", "pacman", "pkexec");
    assert_eq!(s.program, "pkexec");
    assert_eq!(s.args, vec!["pacman", "-S", "--noconfirm", "vim"]);
    assert_eq!(s.mode, ExecutionMode::PipedCapture);
    assert_eq!(command_line(&s), "pkexec pacman -S --noconfirm vim");
}

#[test]
fn install_with_unknown_helper_uses_pacman() {
    let s = select_strategy(OperationKind::Install, "vim", "trizen", "sudo");
    assert_eq!(s.program, "sudo");
    assert_eq!(s.args, vec!["pacman", "-S", "--noconfirm", "vim"]);
    assert_eq!(s.mode, ExecutionMode::PipedCapture);
}

#[test]
fn install_and_update_with_yay_run_in_terminal() {
    for kind in [OperationKind::Install, OperationKind::Update] {
        let s = select_strategy(kind, "google-chrome", "yay", "pkexec");
        assert_eq!(s.program, "yay");
        assert_eq!(s.args, vec!["-S", "--noconfirm", "google-chrome"]);
        assert_eq!(s.mode, ExecutionMode::InteractiveTerminal);
    }
}

#[test]
fn system_update_with_pacman() {
    let s = select_strategy(OperationKind::SystemUpdate, "", "pacman", "sudo");
    assert_eq!(s.program, "sudo");
    assert_eq!(s.args, vec!["pacman", "-Syu", "--noconfirm"]);
    assert_eq!(s.mode, ExecutionMode::PipedCapture);
}

#[test]
fn privilege_prefers_graphical_prompt() {
    assert_eq!(privilege_command(true), "pkexec");
    assert_eq!(privilege_command(false), "sudo");
}

#[test]
fn helper_preference_order() {
    assert_eq!(preferred_helper(true, true), "yay");
    assert_eq!(preferred_helper(false, true), "paru");
    assert_eq!(preferred_helper(false, false), "pacman");
}

#[test]
fn wrapped_command_keeps_terminal_open() {
    assert_eq!(
        wrapped_command("yay -S --noconfirm foo"),
        "echo 'Running: yay -S --noconfirm foo'; yay -S --noconfirm foo; echo ''; echo 'Command finished. Press Enter to close this terminal...'; read"
    );
}

#[test]
fn terminals_in_preference_order() {
    let t = terminal_candidates();
    let names: Vec<&str> = t.iter().map(|c| c.name.as_str()).collect();
    assert_eq!(names, vec!["kitty", "alacritty", "wezterm", "gnome-terminal", "konsole", "xterm"]);
    assert_eq!(t[0].args, vec!["-e", "bash", "-c"]);
    assert_eq!(t[2].args, vec!["start", "--", "bash", "-c"]);
    assert_eq!(t[3].args, vec!["--", "bash", "-c"]);
}

#[test]
fn terminal_invocation_appends_command() {
    let t = terminal_candidates();
    let (program, args) = terminal_invocation(&t[2], "echo hi");
    assert_eq!(program, "wezterm");
    assert_eq!(args, vec!["start", "--", "bash", "-c", "echo hi"]);
}

#[test]
fn first_available_skips_missing_and_tried() {
    let available = vec![false, true, false, true];
    assert_eq!(first_available(&available, 0), Some(1));
    assert_eq!(first_available(&available, 2), Some(3));
    assert_eq!(first_available(&available, 4), None);
    assert_eq!(first_available(&vec![false, false], 0), None);
    assert_eq!(first_available(&vec![], 0), None);
}

#[test]
fn join_words_uses_single_spaces() {
    let words = vec!["a".to_string(), "bc".to_string(), "d".to_string()];
    assert_eq!(join_words(&words), "a bc d");
    assert_eq!(join_words(&vec![]), "");
}
