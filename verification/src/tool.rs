//! The shape of an external tool invocation's result. The surrounding
//! process spawns the tool and reports back only these plain values; every
//! decision taken on them is made and verified here.

use vstd::prelude::*;

verus! {

/// What running an external tool on an input file came to.
pub enum ToolOutcome {
    /// The input file did not exist; the tool was never run.
    InputMissing,
    /// The tool's binary could not be started (missing dependency).
    LaunchFailed,
    /// The tool ran to completion. `stdout` is `None` when its output was
    /// not valid text; `code` is the exit code, or -1 when none exists.
    Finished { success: bool, code: i64, stdout: Option<String>, stderr: String },
}

} // verus!
