//! Terminal emulators for interactive commands, and the command line that
//! keeps a terminal open after the command.
use vstd::prelude::*;
use crate::strategy::ExecutionStrategy;
use crate::text::{copy_lines, lines_view};

verus! {

/// Words joined by single spaces.
pub open spec fn joined(words: Seq<Seq<char>>) -> Seq<char>
    decreases words.len(),
{
    if words.len() == 0 {
        Seq::empty()
    } else if words.len() == 1 {
        words[0]
    } else {
        joined(words.drop_last()) + " "@ + words.last()
    }
}

/// The command line a strategy stands for: the program and its arguments.
pub open spec fn spec_command_line(program: Seq<char>, args: Seq<Seq<char>>) -> Seq<char> {
    joined(seq![program] + args)
}

/// The shell text run inside a terminal: it announces the command, runs it,
/// and waits for Enter so that the terminal stays open.
pub open spec fn spec_wrapped_command(command: Seq<char>) -> Seq<char> {
    "echo 'Running: "@ + command + "'; "@ + command
        + "; echo ''; echo 'Command finished. Press Enter to close this terminal...'; read"@
}

/// Joins the words with single spaces.
pub fn join_words(words: &Vec<String>) -> (r: String)
    ensures
        r@ == joined(lines_view(words@)),
{
    let mut s = String::new();
    let mut i: usize = 0;
    while i < words.len()
        invariant
            i <= words.len(),
            s@ == joined(lines_view(words@.subrange(0, i as int))),
        decreases words.len() - i,
    {
        let ghost prefix = lines_view(words@.subrange(0, i as int));
        let ghost next = lines_view(words@.subrange(0, i + 1));
        assert(next =~= prefix.push(words@[i as int]@));
        assert(next.drop_last() =~= prefix);
        if i > 0 {
            s.append(" ");
        }
        s.append(words[i].as_str());
        if i == 0 {
            assert(s@ =~= joined(next));
        }
        i = i + 1;
    }
    assert(words@.subrange(0, words.len() as int) == words@);
    s
}

/// The command line of a strategy, as a shell reads it.
pub fn command_line(strategy: &ExecutionStrategy) -> (r: String)
    ensures
        r@ == spec_command_line(strategy@.program, strategy@.args),
{
    let mut words = copy_lines(&strategy.args);
    let ghost rest = words@;
    words.insert(0, String::from_str(strategy.program.as_str()));
    assert(lines_view(words@) =~= seq![strategy.program@] + lines_view(rest));
    join_words(&words)
}

/// Wraps a command line so that a terminal shows it and stays open after it.
pub fn wrapped_command(command: &str) -> (r: String)
    ensures
        r@ == spec_wrapped_command(command@),
{
    let mut s = String::from_str("echo 'Running: ");
    s.append(command);
    s.append("'; ");
    s.append(command);
    s.append("; echo ''; echo 'Command finished. Press Enter to close this terminal...'; read");
    s
}

/// A terminal emulator and the arguments that make it run a shell command,
/// which follows them.
pub struct TerminalCandidate {
    pub name: String,
    pub args: Vec<String>,
}

pub struct TerminalView {
    pub name: Seq<char>,
    pub args: Seq<Seq<char>>,
}

impl View for TerminalCandidate {
    type V = TerminalView;

    open spec fn view(&self) -> TerminalView {
        TerminalView { name: self.name@, args: lines_view(self.args@) }
    }
}

pub open spec fn run_shell_after(flag: Seq<char>) -> Seq<Seq<char>> {
    seq![flag, "bash"@, "-c"@]
}

/// The terminal emulators tried, in order of preference.
pub open spec fn spec_terminal_candidates() -> Seq<TerminalView> {
    seq![
        TerminalView { name: "kitty"@, args: run_shell_after("-e"@) },
        TerminalView { name: "alacritty"@, args: run_shell_after("-e"@) },
        TerminalView { name: "wezterm"@, args: seq!["start"@] + run_shell_after("--"@) },
        TerminalView { name: "gnome-terminal"@, args: run_shell_after("--"@) },
        TerminalView { name: "konsole"@, args: run_shell_after("-e"@) },
        TerminalView { name: "xterm"@, args: run_shell_after("-e"@) },
    ]
}

fn candidate(name: &str, lead: Option<&str>, flag: &str) -> (r: TerminalCandidate)
    ensures
        r@.name == name@,
        r@.args == (match lead {
            Some(l) => seq![l@],
            None => Seq::<Seq<char>>::empty(),
        }) + run_shell_after(flag@),
{
    let mut args: Vec<String> = Vec::new();
    match lead {
        Some(l) => {
            args.push(String::from_str(l));
        },
        None => {},
    }
    args.push(String::from_str(flag));
    args.push(String::from_str("bash"));
    args.push(String::from_str("-c"));
    let r = TerminalCandidate { name: String::from_str(name), args };
    assert(r@.args =~= (match lead {
        Some(l) => seq![l@],
        None => Seq::<Seq<char>>::empty(),
    }) + run_shell_after(flag@));
    r
}

/// The terminal emulators tried, in order of preference.
pub fn terminal_candidates() -> (r: Vec<TerminalCandidate>)
    ensures
        r@.map_values(|t: TerminalCandidate| t@) == spec_terminal_candidates(),
{
    let mut r: Vec<TerminalCandidate> = Vec::new();
    r.push(candidate("kitty", None, "-e"));
    r.push(candidate("alacritty", None, "-e"));
    r.push(candidate("wezterm", Some("start"), "--"));
    r.push(candidate("gnome-terminal", None, "--"));
    r.push(candidate("konsole", None, "-e"));
    r.push(candidate("xterm", None, "-e"));
    assert(Seq::<Seq<char>>::empty() + run_shell_after("-e"@) =~= run_shell_after("-e"@));
    assert(Seq::<Seq<char>>::empty() + run_shell_after("--"@) =~= run_shell_after("--"@));
    assert(r@.map_values(|t: TerminalCandidate| t@) =~= spec_terminal_candidates());
    r
}

/// The program and arguments that open `terminal` running `wrapped`.
pub fn terminal_invocation(terminal: &TerminalCandidate, wrapped: &str) -> (r: (String, Vec<String>))
    ensures
        r.0@ == terminal@.name,
        lines_view(r.1@) == terminal@.args.push(wrapped@),
{
    let mut args = copy_lines(&terminal.args);
    let ghost before = args@;
    args.push(String::from_str(wrapped));
    assert(lines_view(args@) =~= lines_view(before).push(wrapped@));
    (String::from_str(terminal.name.as_str()), args)
}

/// The first position at or after `from` whose entry is true: the first
/// terminal, in order of preference, that is installed and not yet tried.
pub fn first_available(available: &Vec<bool>, from: usize) -> (r: Option<usize>)
    ensures
        match r {
            Some(i) => from <= i < available@.len() && available@[i as int] && forall|j: int|
                from <= j < i ==> !available@[j],
            None => forall|j: int| from <= j < available@.len() ==> !available@[j],
        },
{
    let mut i: usize = from;
    while i < available.len()
        invariant
            from <= i,
            forall|j: int| from <= j < i ==> !available@[j],
        decreases available.len() - i,
    {
        if available[i] {
            return Some(i);
        }
        i = i + 1;
    }
    None
}

} // verus!
