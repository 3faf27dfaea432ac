//! Choosing how a package operation runs: which program, which arguments,
//! piped or in a terminal.
use vstd::prelude::*;
use crate::text::{lines_view, str_eq};

verus! {

/// The kinds of package operation.
#[derive(Clone, Copy, Debug, PartialEq, Eq, Structural)]
pub enum OperationKind {
    Install,
    Remove,
    Update,
    SystemUpdate,
}

/// How a resolved command is run.
#[derive(Clone, Copy, Debug, PartialEq, Eq, Structural)]
pub enum ExecutionMode {
    /// Run directly, with stdout and stderr read through pipes.
    PipedCapture,
    /// Run inside a terminal emulator, where the user can interact with it.
    InteractiveTerminal,
}

/// The name an operation of this kind carries in records and messages.
pub open spec fn spec_operation_name(kind: OperationKind) -> Seq<char> {
    match kind {
        OperationKind::Install => "install"@,
        OperationKind::Remove => "remove"@,
        OperationKind::Update => "update"@,
        OperationKind::SystemUpdate => "system update"@,
    }
}

pub fn operation_name(kind: OperationKind) -> (r: String)
    ensures
        r@ == spec_operation_name(kind),
{
    match kind {
        OperationKind::Install => String::from_str("install"),
        OperationKind::Remove => String::from_str("remove"),
        OperationKind::Update => String::from_str("update"),
        OperationKind::SystemUpdate => String::from_str("system update"),
    }
}

/// The helpers that build community packages and need a real terminal.
pub open spec fn is_aur_helper(helper: Seq<char>) -> bool {
    helper == "yay"@ || helper == "paru"@
}

/// The flag that selects the package manager's action for an operation.
pub open spec fn pacman_action(kind: OperationKind) -> Seq<char> {
    match kind {
        OperationKind::Remove => "-R"@,
        OperationKind::SystemUpdate => "-Syu"@,
        _ => "-S"@,
    }
}

/// A resolved command: the program, its arguments and how it is run.
pub struct ExecutionStrategy {
    pub program: String,
    pub args: Vec<String>,
    pub mode: ExecutionMode,
}

pub struct StrategyView {
    pub program: Seq<char>,
    pub args: Seq<Seq<char>>,
    pub mode: ExecutionMode,
}

impl View for ExecutionStrategy {
    type V = StrategyView;

    open spec fn view(&self) -> StrategyView {
        StrategyView { program: self.program@, args: lines_view(self.args@), mode: self.mode }
    }
}

/// The strategy for an operation of `kind` on `package` (unused by a system
/// update) with the chosen `helper`, where `privilege` is the escalation prefix.
///
/// An AUR helper runs install, update and system update itself, in a terminal.
/// Everything else, and every removal, runs the base package manager under the
/// escalation prefix, with its output piped.
pub open spec fn spec_strategy(
    kind: OperationKind,
    package: Seq<char>,
    helper: Seq<char>,
    privilege: Seq<char>,
) -> StrategyView {
    let target = if kind is SystemUpdate {
        Seq::<Seq<char>>::empty()
    } else {
        seq![package]
    };
    if !(kind is Remove) && is_aur_helper(helper) {
        StrategyView {
            program: helper,
            args: seq![pacman_action(kind), "--noconfirm"@] + target,
            mode: ExecutionMode::InteractiveTerminal,
        }
    } else {
        StrategyView {
            program: privilege,
            args: seq!["pacman"@, pacman_action(kind), "--noconfirm"@] + target,
            mode: ExecutionMode::PipedCapture,
        }
    }
}

fn action_flag(kind: OperationKind) -> (r: String)
    ensures
        r@ == pacman_action(kind),
{
    match kind {
        OperationKind::Remove => String::from_str("-R"),
        OperationKind::SystemUpdate => String::from_str("-Syu"),
        _ => String::from_str("-S"),
    }
}

/// Chooses how to run an operation.
pub fn select_strategy(kind: OperationKind, package: &str, helper: &str, privilege: &str) -> (r:
    ExecutionStrategy)
    ensures
        r@ == spec_strategy(kind, package@, helper@, privilege@),
{
    let aur = str_eq(helper, "yay") || str_eq(helper, "paru");
    let interactive = !kind_is_remove(kind) && aur;
    let mut args: Vec<String> = Vec::new();
    if !interactive {
        args.push(String::from_str("pacman"));
    }
    args.push(action_flag(kind));
    args.push(String::from_str("--noconfirm"));
    match kind {
        OperationKind::SystemUpdate => {},
        _ => {
            args.push(String::from_str(package));
        },
    }
    let r = if interactive {
        ExecutionStrategy {
            program: String::from_str(helper),
            args,
            mode: ExecutionMode::InteractiveTerminal,
        }
    } else {
        ExecutionStrategy {
            program: String::from_str(privilege),
            args,
            mode: ExecutionMode::PipedCapture,
        }
    };
    assert(r@.args =~= spec_strategy(kind, package@, helper@, privilege@).args);
    r
}

fn kind_is_remove(kind: OperationKind) -> (r: bool)
    ensures
        r == (kind is Remove),
{
    match kind {
        OperationKind::Remove => true,
        _ => false,
    }
}

/// A removal runs the base package manager under the escalation prefix,
/// whatever helper was asked for.
pub proof fn lemma_remove_ignores_helper(package: Seq<char>, helper: Seq<char>, privilege: Seq<char>)
    ensures
        spec_strategy(OperationKind::Remove, package, helper, privilege) == (StrategyView {
            program: privilege,
            args: seq!["pacman"@, "-R"@, "--noconfirm"@, package],
            mode: ExecutionMode::PipedCapture,
        }),
{
    let s = spec_strategy(OperationKind::Remove, package, helper, privilege);
    assert(s.args =~= seq!["pacman"@, "-R"@, "--noconfirm"@, package]);
}

/// An install with any helper that is not an AUR helper runs the base package
/// manager under the escalation prefix, with its output piped.
pub proof fn lemma_install_without_aur_helper(package: Seq<char>, helper: Seq<char>, privilege: Seq<char>)
    requires
        !is_aur_helper(helper),
    ensures
        spec_strategy(OperationKind::Install, package, helper, privilege) == (StrategyView {
            program: privilege,
            args: seq!["pacman"@, "-S"@, "--noconfirm"@, package],
            mode: ExecutionMode::PipedCapture,
        }),
{
    let s = spec_strategy(OperationKind::Install, package, helper, privilege);
    assert(s.args =~= seq!["pacman"@, "-S"@, "--noconfirm"@, package]);
}

/// The escalation prefix: the graphical one where it is installed, else the
/// terminal one.
pub open spec fn spec_privilege_command(graphical_available: bool) -> Seq<char> {
    if graphical_available {
        "pkexec"@
    } else {
        "sudo"@
    }
}

pub fn privilege_command(graphical_available: bool) -> (r: String)
    ensures
        r@ == spec_privilege_command(graphical_available),
{
    if graphical_available {
        String::from_str("pkexec")
    } else {
        String::from_str("sudo")
    }
}

/// The preferred helper among those installed: yay, then paru, then the base
/// package manager.
pub open spec fn spec_preferred_helper(yay_available: bool, paru_available: bool) -> Seq<char> {
    if yay_available {
        "yay"@
    } else if paru_available {
        "paru"@
    } else {
        "pacman"@
    }
}

pub fn preferred_helper(yay_available: bool, paru_available: bool) -> (r: String)
    ensures
        r@ == spec_preferred_helper(yay_available, paru_available),
{
    if yay_available {
        String::from_str("yay")
    } else if paru_available {
        String::from_str("paru")
    } else {
        String::from_str("pacman")
    }
}

} // verus!
