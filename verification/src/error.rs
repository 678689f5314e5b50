//! The errors that a prompt can end with.

use vstd::prelude::*;

verus! {

/// Why a prompt gave no answer.
#[derive(Clone, Debug, PartialEq, Eq)]
pub enum InquireError {
    /// The input device is not a terminal.
    NotTTY,
    /// The prompt was set up in a way that cannot work.
    InvalidConfiguration(String),
    /// The user cancelled the prompt.
    OperationCanceled,
    /// The user interrupted the program from within the prompt.
    OperationInterrupted,
}

/// What the operations of a prompt return.
pub type InquireResult<T> = Result<T, InquireError>;

} // verus!
