//! What a finished version-control command reports.

use vstd::prelude::*;

verus! {

/// The exit status and the captured output of one finished command. The two
/// texts are kept verbatim.
#[derive(Debug, PartialEq, Eq)]
pub struct CommandOutput {
    /// Whether the command exited with success.
    pub success: bool,
    /// Everything the command wrote to standard output.
    pub stdout: String,
    /// Everything the command wrote to standard error.
    pub stderr: String,
}

/// The mathematical content of a [`CommandOutput`].
pub ghost struct OutputView {
    pub success: bool,
    pub stdout: Seq<char>,
    pub stderr: Seq<char>,
}

impl View for CommandOutput {
    type V = OutputView;

    open spec fn view(&self) -> OutputView {
        OutputView { success: self.success, stdout: self.stdout@, stderr: self.stderr@ }
    }
}

impl Clone for CommandOutput {
    fn clone(&self) -> (copy: Self)
        ensures
            copy@ == self@,
    {
        CommandOutput {
            success: self.success,
            stdout: self.stdout.clone(),
            stderr: self.stderr.clone(),
        }
    }
}

} // verus!
