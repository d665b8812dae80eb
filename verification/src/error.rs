//! What can go wrong while a script runs.

use vstd::prelude::*;

verus! {

/// A failure of a script or of one of its primitive calls.
#[derive(Clone, Debug, PartialEq, Eq)]
pub enum ScriptError {
    /// A primitive was handed a name that denotes no button. The script may
    /// catch this and go on; the input register is as it was before the call.
    InvalidButtonName(String),
    /// The script did not parse or stopped with a failure of its own; the text
    /// is the interpreter's report.
    ScriptFailed(String),
}

} // verus!
