//! The shell runner's judgement: what a finished child process amounts to.
//! Starting the process is the caller's business; what it left behind is
//! composed and classified here.

use vstd::prelude::*;
use vstd::string::StringExecFns;
use crate::error::{O2Error, O2ErrorView};

verus! {

/// What a child process left behind when it ended.
#[derive(Debug, PartialEq, Eq)]
pub struct ShellExit {
    /// The exit code, absent where the system reported none.
    pub code: Option<i32>,
    /// What the child wrote to its standard output, as text.
    pub stdout: String,
    /// What the child wrote to its standard error, as text.
    pub stderr: String,
}

/// The mathematical content of a `ShellExit`.
pub struct ShellExitView {
    pub code: Option<i32>,
    pub stdout: Seq<char>,
    pub stderr: Seq<char>,
}

impl View for ShellExit {
    type V = ShellExitView;

    open spec fn view(&self) -> ShellExitView {
        ShellExitView { code: self.code, stdout: self.stdout@, stderr: self.stderr@ }
    }
}

/// The one text made of the two streams: the standard output if the
/// standard error is empty, the standard error if the standard output is
/// empty, else the two joined by one newline, standard output first.
pub open spec fn composed(stdout: Seq<char>, stderr: Seq<char>) -> Seq<char> {
    if stderr.len() == 0 {
        stdout
    } else if stdout.len() == 0 {
        stderr
    } else {
        stdout + "\n"@ + stderr
    }
}

/// What a run amounts to: the reason where the child could not be started,
/// the composed text where it ended with status zero, and otherwise the
/// failure that carries its exit code and the composed text.
pub open spec fn shell_result(run: Result<ShellExitView, Seq<char>>) -> Result<
    Seq<char>,
    O2ErrorView,
> {
    match run {
        Err(reason) => Err(O2ErrorView::SpawnFailed { reason }),
        Ok(exit) => if exit.code == Some(0i32) {
            Ok(composed(exit.stdout, exit.stderr))
        } else {
            Err(
                O2ErrorView::NonZeroExit {
                    code: exit.code,
                    output: composed(exit.stdout, exit.stderr),
                },
            )
        },
    }
}

/// The view of the outcome of starting a child.
pub open spec fn run_view(run: Result<ShellExit, String>) -> Result<ShellExitView, Seq<char>> {
    match run {
        Ok(exit) => Ok(exit@),
        Err(reason) => Err(reason@),
    }
}

/// Composes the two streams of a child into one text.
pub fn compose_output(stdout: String, stderr: String) -> (r: String)
    ensures
        r@ == composed(stdout@, stderr@),
{
    if stderr.as_str().is_empty() {
        stdout
    } else if stdout.as_str().is_empty() {
        stderr
    } else {
        let joined = stdout.concat("\n");
        joined.concat(stderr.as_str())
    }
}

/// Classifies the outcome of running a command: `Err(reason)` where the
/// child could not be started, else what it left behind.
///
/// Succeeds with the composed text exactly when the child ended with status
/// zero.
pub fn run_shell_output(run: Result<ShellExit, String>) -> (r: Result<String, O2Error>)
    ensures
        match r {
            Ok(text) => shell_result(run_view(run)) == Ok::<Seq<char>, O2ErrorView>(text@),
            Err(e) => shell_result(run_view(run)) == Err::<Seq<char>, O2ErrorView>(e@),
        },
{
    match run {
        Err(reason) => Err(O2Error::SpawnFailed { reason }),
        Ok(exit) => {
            let code = exit.code;
            let text = compose_output(exit.stdout, exit.stderr);
            match code {
                Some(0) => Ok(text),
                _ => Err(O2Error::NonZeroExit { code, output: text }),
            }
        },
    }
}

} // verus!
