//! The package operation state machine: from the runner's events to the
//! progress records published and the operation's outcome.
use vstd::prelude::*;
use crate::records::{copy_option, option_view, PackageOperation, RecordView};
use crate::strategy::{operation_name, spec_operation_name, OperationKind};
use crate::text::{concat2, concat3, copy_lines, exit_code_text, lines_view, push_exit_code, single_line};

verus! {

/// Where an operation stands.
#[derive(Clone, Copy, Debug, PartialEq, Eq, Structural)]
pub enum Phase {
    /// The starting record is out; no runner event has come yet.
    Started,
    /// The command runs with its output piped.
    Capturing,
    /// The command runs in a terminal emulator.
    InTerminal,
    /// The final record is out.
    Completed,
    /// The command could not be started or waited for; no final record.
    Aborted,
}

/// The progress shown after `lines` lines of piped output: 10, then 5 more per
/// line, up to 90.
pub open spec fn piped_progress(lines: nat) -> nat {
    if 10 + 5 * lines <= 90 {
        10 + 5 * lines
    } else {
        90
    }
}

pub open spec fn starting_status(op: Seq<char>) -> Seq<char> {
    "Starting "@ + op + "..."@
}

pub open spec fn processing_status(op: Seq<char>) -> Seq<char> {
    "Processing "@ + op + "..."@
}

pub open spec fn error_line(line: Seq<char>) -> Seq<char> {
    "ERROR: "@ + line
}

pub open spec fn piped_final_status(op: Seq<char>, code: Option<i32>) -> Seq<char> {
    if code == Some(0i32) {
        op + " completed successfully"@
    } else {
        op + " failed"@
    }
}

pub open spec fn terminal_status(op: Seq<char>) -> Seq<char> {
    "Running "@ + op + " in terminal..."@
}

pub open spec fn terminal_opening_line(terminal: Seq<char>) -> Seq<char> {
    "Opening "@ + terminal + " terminal for interactive command..."@
}

pub open spec fn terminal_final_status(op: Seq<char>, code: Option<i32>) -> Seq<char> {
    if code == Some(0i32) {
        op + " completed"@
    } else {
        op + " may have failed - check terminal output"@
    }
}

pub open spec fn terminal_exit_line(code: Option<i32>) -> Seq<char> {
    "Terminal command completed with exit code: "@ + exit_code_text(code)
}

pub open spec fn failure_message(op: Seq<char>, code: Option<i32>) -> Seq<char> {
    op + " failed with exit code: "@ + exit_code_text(code)
}

pub open spec fn no_terminal_status(op: Seq<char>) -> Seq<char> {
    "Failed to find suitable terminal for "@ + op
}

pub open spec fn no_terminal_help() -> Seq<char> {
    "No compatible terminal emulator found. Please install one of: kitty, alacritty, wezterm, gnome-terminal, konsole, or xterm"@
}

pub open spec fn no_terminal_message() -> Seq<char> {
    "No suitable terminal emulator found"@
}

pub open spec fn spawn_failure_message(program: Seq<char>, reason: Seq<char>) -> Seq<char> {
    "Failed to start "@ + program + ": "@ + reason
}

pub open spec fn wait_failure_message(in_terminal: bool, reason: Seq<char>) -> Seq<char> {
    if in_terminal {
        "Failed to wait for terminal process: "@ + reason
    } else {
        "Failed to wait for process: "@ + reason
    }
}

/// What an operation's end hands back: nothing on a zero exit code, else the
/// failure message.
pub open spec fn outcome_matches(r: Result<(), String>, op: Seq<char>, code: Option<i32>) -> bool {
    match r {
        Ok(_) => code == Some(0i32),
        Err(e) => code != Some(0i32) && e@ == failure_message(op, code),
    }
}

/// One package operation, from its first record to its last. Each method takes
/// one event of the process runner and returns what is to be published.
pub struct OperationRun {
    operation: String,
    package_name: Option<String>,
    progress: u32,
    output: Vec<String>,
    phase: Phase,
    stdout_lines: Ghost<nat>,
    published: Ghost<Seq<RecordView>>,
}

impl OperationRun {
    /// The operation's name.
    pub closed spec fn operation(&self) -> Seq<char> {
        self.operation@
    }

    pub closed spec fn package_name(&self) -> Option<Seq<char>> {
        option_view(self.package_name)
    }

    /// The progress that the next line of piped output builds on.
    pub closed spec fn counter(&self) -> nat {
        self.progress as nat
    }

    /// The lines gathered from the piped command so far.
    pub closed spec fn output(&self) -> Seq<Seq<char>> {
        lines_view(self.output@)
    }

    pub closed spec fn phase(&self) -> Phase {
        self.phase
    }

    /// How many stdout lines have come.
    pub closed spec fn stdout_lines(&self) -> nat {
        self.stdout_lines@
    }

    /// Every record handed out so far, in order.
    pub closed spec fn published(&self) -> Seq<RecordView> {
        self.published@
    }

    /// A record of this operation.
    pub open spec fn record(
        &self,
        progress: u32,
        status: Seq<char>,
        output: Seq<Seq<char>>,
        running: bool,
    ) -> RecordView {
        RecordView {
            operation: self.operation(),
            package_name: self.package_name(),
            progress,
            status,
            output,
            running,
        }
    }

    /// What holds of a run between events: a first record at progress 0;
    /// every record running but the last, which is final exactly when the run
    /// has completed; progress that never decreases; and the progress counter
    /// that the stdout lines so far give.
    pub closed spec fn wf(&self) -> bool {
        let p = self.published@;
        &&& p.len() >= 1
        &&& p[0].progress == 0
        &&& forall|i: int| 0 <= i < p.len() - 1 ==> #[trigger] p[i].running
        &&& (self.phase is Completed) == !p.last().running
        &&& forall|i: int, j: int|
            0 <= i <= j < p.len() ==> #[trigger] p[i].progress <= #[trigger] p[j].progress
        &&& self.progress as nat == piped_progress(self.stdout_lines@)
        &&& (self.phase is Started) ==> p.len() == 1 && self.stdout_lines@ == 0
        &&& (self.phase is Started || self.phase is Capturing) ==> p.last().progress
            <= self.progress
        &&& (self.phase is InTerminal) ==> p.last().progress == 50
    }

    /// Opens an operation and returns its starting record.
    pub fn start(kind: OperationKind, package_name: Option<String>) -> (r: (
        OperationRun,
        PackageOperation,
    ))
        ensures
            r.0.wf(),
            r.0.operation() == spec_operation_name(kind),
            r.0.package_name() == option_view(package_name),
            r.0.phase() is Started,
            r.0.output() == Seq::<Seq<char>>::empty(),
            r.1@ == r.0.record(0, starting_status(spec_operation_name(kind)), Seq::empty(), true),
            r.0.published() == seq![r.1@],
    {
        let operation = operation_name(kind);
        let record = PackageOperation {
            operation: String::from_str(operation.as_str()),
            package_name: copy_option(&package_name),
            progress: 0,
            status: concat3("Starting ", operation.as_str(), "..."),
            output: Vec::new(),
            running: true,
        };
        assert(lines_view(record.output@) =~= Seq::<Seq<char>>::empty());
        let stdout_lines: Ghost<nat> = Ghost(0);
        let ghost log: Seq<RecordView> = seq![record@];
        let published: Ghost<Seq<RecordView>> = Ghost(log);
        let run = OperationRun {
            operation,
            package_name,
            progress: 10,
            output: Vec::new(),
            phase: Phase::Started,
            stdout_lines,
            published,
        };
        assert(lines_view(run.output@) =~= Seq::<Seq<char>>::empty());
        (run, record)
    }

    fn snapshot(&self, progress: u32, status: String, output: Vec<String>, running: bool) -> (r:
        PackageOperation)
        ensures
            r@ == self.record(progress, status@, lines_view(output@), running),
    {
        PackageOperation {
            operation: String::from_str(self.operation.as_str()),
            package_name: copy_option(&self.package_name),
            progress,
            status,
            output,
            running,
        }
    }

    /// A line read from the piped command's stdout: progress advances by 5 up
    /// to 90, and the record with the whole output so far is returned.
    pub fn stdout_line(&mut self, line: String) -> (r: PackageOperation)
        requires
            old(self).wf(),
            old(self).phase() is Started || old(self).phase() is Capturing,
        ensures
            final(self).wf(),
            final(self).phase() is Capturing,
            final(self).operation() == old(self).operation(),
            final(self).package_name() == old(self).package_name(),
            final(self).stdout_lines() == old(self).stdout_lines() + 1,
            final(self).counter() == if old(self).counter() + 5 <= 90 {
                old(self).counter() + 5
            } else {
                90
            },
            final(self).counter() == piped_progress(final(self).stdout_lines()),
            final(self).output() == old(self).output().push(line@),
            r@ == final(self).record(
                final(self).counter() as u32,
                processing_status(old(self).operation()),
                final(self).output(),
                true,
            ),
            final(self).published() == old(self).published().push(r@),
    {
        let ghost old_output = lines_view(self.output@);
        self.output.push(line);
        assert(lines_view(self.output@) =~= old_output.push(line@));
        self.progress = if self.progress + 5 <= 90 {
            self.progress + 5
        } else {
            90
        };
        self.stdout_lines = Ghost(self.stdout_lines@ + 1);
        self.phase = Phase::Capturing;
        let status = concat3("Processing ", self.operation.as_str(), "...");
        let r = self.snapshot(self.progress, status, copy_lines(&self.output), true);
        let ghost p = self.published@;
        self.published = Ghost(p.push(r@));
        assert(forall|i: int| 0 <= i < p.len() ==> p[i].progress <= #[trigger] p.last().progress);
        assert(forall|i: int| 0 <= i < p.len() ==> p[i] == #[trigger] self.published@[i]);
        r
    }

    /// A line read from the piped command's stderr: it joins the output, marked
    /// as an error, and nothing is published.
    pub fn stderr_line(&mut self, line: String)
        requires
            old(self).wf(),
            old(self).phase() is Started || old(self).phase() is Capturing,
        ensures
            final(self).wf(),
            final(self).phase() is Capturing,
            final(self).operation() == old(self).operation(),
            final(self).package_name() == old(self).package_name(),
            final(self).stdout_lines() == old(self).stdout_lines(),
            final(self).counter() == old(self).counter(),
            final(self).output() == old(self).output().push(error_line(line@)),
            final(self).published() == old(self).published(),
    {
        let mut marked = String::from_str("ERROR: ");
        marked.append(line.as_str());
        let ghost old_output = lines_view(self.output@);
        self.output.push(marked);
        assert(lines_view(self.output@) =~= old_output.push(error_line(line@)));
        self.phase = Phase::Capturing;
    }

    /// The piped command has exited with `code` (none where the platform
    /// reports no code). The final record is returned, with the outcome.
    pub fn process_exited(&mut self, code: Option<i32>) -> (r: (PackageOperation, Result<(), String>))
        requires
            old(self).wf(),
            old(self).phase() is Started || old(self).phase() is Capturing,
        ensures
            final(self).wf(),
            final(self).phase() is Completed,
            final(self).operation() == old(self).operation(),
            final(self).package_name() == old(self).package_name(),
            r.0@ == old(self).record(
                100,
                piped_final_status(old(self).operation(), code),
                old(self).output(),
                false,
            ),
            final(self).published() == old(self).published().push(r.0@),
            outcome_matches(r.1, old(self).operation(), code),
    {
        let success = match code {
            Some(c) => c == 0,
            None => false,
        };
        let status = if success {
            concat2(self.operation.as_str(), " completed successfully")
        } else {
            concat2(self.operation.as_str(), " failed")
        };
        let record = self.snapshot(100, status, copy_lines(&self.output), false);
        self.finish(Ghost(record@));
        (record, self.outcome(code))
    }

    /// The outcome of a command that exited with `code`.
    fn outcome(&self, code: Option<i32>) -> (r: Result<(), String>)
        ensures
            outcome_matches(r, self.operation(), code),
    {
        match code {
            Some(0) => Ok(()),
            _ => {
                let mut e = concat2(self.operation.as_str(), " failed with exit code: ");
                push_exit_code(&mut e, code);
                assert(e@ =~= failure_message(self.operation(), code));
                Err(e)
            },
        }
    }

    /// Records the final record as published.
    fn finish(&mut self, last: Ghost<RecordView>)
        requires
            old(self).wf(),
            !(old(self).phase() is Completed),
            !(old(self).phase() is Aborted),
            !last@.running,
            last@.progress == 100 || (old(self).phase() is Started && last@.progress == 0),
        ensures
            final(self).wf(),
            final(self).phase() is Completed,
            final(self).operation() == old(self).operation(),
            final(self).package_name() == old(self).package_name(),
            final(self).output() == old(self).output(),
            final(self).published() == old(self).published().push(last@),
    {
        let ghost p = self.published@;
        let ghost q = p.push(last@);
        self.published = Ghost(q);
        self.phase = Phase::Completed;
        assert(forall|i: int| 0 <= i < p.len() ==> #[trigger] p[i] == self.published@[i]);
        assert(forall|i: int| 0 <= i < p.len() ==> p[i].progress <= #[trigger] p.last().progress);
    }

    /// The piped command could not be started: the outcome is this error, and
    /// no final record is published.
    pub fn spawn_failed(&mut self, program: &str, reason: &str) -> (e: String)
        requires
            old(self).wf(),
            old(self).phase() is Started,
        ensures
            final(self).wf(),
            final(self).phase() is Aborted,
            final(self).published() == old(self).published(),
            e@ == spawn_failure_message(program@, reason@),
    {
        self.phase = Phase::Aborted;
        let mut e = concat3("Failed to start ", program, ": ");
        e.append(reason);
        e
    }

    /// Waiting for the command, or for its terminal, failed: the outcome is
    /// this error, and no final record is published.
    pub fn wait_failed(&mut self, reason: &str) -> (e: String)
        requires
            old(self).wf(),
            old(self).phase() is Started || old(self).phase() is Capturing || old(
                self,
            ).phase() is InTerminal,
        ensures
            final(self).wf(),
            final(self).phase() is Aborted,
            final(self).published() == old(self).published(),
            e@ == wait_failure_message(old(self).phase() is InTerminal, reason@),
    {
        let e = match self.phase {
            Phase::InTerminal => concat2("Failed to wait for terminal process: ", reason),
            _ => concat2("Failed to wait for process: ", reason),
        };
        self.phase = Phase::Aborted;
        e
    }

    /// The command was started in `terminal`: the mid-point record is returned.
    pub fn terminal_started(&mut self, terminal: &str) -> (r: PackageOperation)
        requires
            old(self).wf(),
            old(self).phase() is Started,
        ensures
            final(self).wf(),
            final(self).phase() is InTerminal,
            final(self).operation() == old(self).operation(),
            final(self).package_name() == old(self).package_name(),
            r@ == old(self).record(
                50,
                terminal_status(old(self).operation()),
                seq![terminal_opening_line(terminal@)],
                true,
            ),
            final(self).published() == old(self).published().push(r@),
    {
        let status = concat3("Running ", self.operation.as_str(), " in terminal...");
        let line = concat3("Opening ", terminal, " terminal for interactive command...");
        let r = self.snapshot(50, status, single_line(line), true);
        let ghost p = self.published@;
        self.published = Ghost(p.push(r@));
        self.phase = Phase::InTerminal;
        assert(forall|i: int| 0 <= i < p.len() ==> #[trigger] p[i] == self.published@[i]);
        r
    }

    /// The terminal has closed with `code`. The final record is returned, with
    /// the outcome.
    pub fn terminal_exited(&mut self, code: Option<i32>) -> (r: (PackageOperation, Result<(), String>))
        requires
            old(self).wf(),
            old(self).phase() is InTerminal,
        ensures
            final(self).wf(),
            final(self).phase() is Completed,
            final(self).operation() == old(self).operation(),
            final(self).package_name() == old(self).package_name(),
            r.0@ == old(self).record(
                100,
                terminal_final_status(old(self).operation(), code),
                seq![terminal_exit_line(code)],
                false,
            ),
            final(self).published() == old(self).published().push(r.0@),
            outcome_matches(r.1, old(self).operation(), code),
    {
        let success = match code {
            Some(c) => c == 0,
            None => false,
        };
        let status = if success {
            concat2(self.operation.as_str(), " completed")
        } else {
            concat2(self.operation.as_str(), " may have failed - check terminal output")
        };
        let mut line = String::from_str("Terminal command completed with exit code: ");
        push_exit_code(&mut line, code);
        let record = self.snapshot(100, status, single_line(line), false);
        self.finish(Ghost(record@));
        (record, self.outcome(code))
    }

    /// No terminal emulator could be started. A final record at progress 0 is
    /// returned, with the error.
    pub fn no_terminal(&mut self) -> (r: (PackageOperation, String))
        requires
            old(self).wf(),
            old(self).phase() is Started,
        ensures
            final(self).wf(),
            final(self).phase() is Completed,
            final(self).operation() == old(self).operation(),
            final(self).package_name() == old(self).package_name(),
            r.0@ == old(self).record(
                0,
                no_terminal_status(old(self).operation()),
                seq![no_terminal_help()],
                false,
            ),
            final(self).published() == old(self).published().push(r.0@),
            r.1@ == no_terminal_message(),
    {
        let status = concat2("Failed to find suitable terminal for ", self.operation.as_str());
        let help = String::from_str(
            "No compatible terminal emulator found. Please install one of: kitty, alacritty, wezterm, gnome-terminal, konsole, or xterm",
        );
        let record = self.snapshot(0, status, single_line(help), false);
        self.finish(Ghost(record@));
        (record, String::from_str("No suitable terminal emulator found"))
    }
}

/// Of the records an operation has published, at most one is final (not
/// running): the last one, present exactly when the operation has completed.
pub proof fn lemma_single_final_record(run: &OperationRun)
    requires
        run.wf(),
    ensures
        run.published().len() >= 1,
        forall|i: int|
            0 <= i < run.published().len() ==> (!(#[trigger] run.published()[i]).running <==> (
            run.phase() is Completed && i == run.published().len() - 1)),
{
}

/// Progress never goes back within one operation's records.
pub proof fn lemma_progress_non_decreasing(run: &OperationRun)
    requires
        run.wf(),
    ensures
        forall|i: int, j: int|
            0 <= i <= j < run.published().len() ==> (#[trigger] run.published()[i]).progress
                <= (#[trigger] run.published()[j]).progress,
{
}

/// Each further line of piped output adds exactly 5 to the progress until it
/// reaches 90, where it stays.
pub proof fn lemma_piped_progress_step(lines: nat)
    ensures
        piped_progress(lines) <= 90,
        piped_progress(lines) + 5 <= 90 ==> piped_progress(lines + 1) == piped_progress(lines) + 5,
        piped_progress(lines) + 5 > 90 ==> piped_progress(lines + 1) == 90,
        lines >= 16 ==> piped_progress(lines) == 90,
{
}

} // verus!
