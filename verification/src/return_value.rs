//! The numbers by which the C interface reports how a call went.

use vstd::prelude::*;

verus! {

/// Outcome of a call, as the C interface names it.
#[allow(non_camel_case_types)]
#[derive(Debug, Clone, Copy, PartialEq, Eq, Structural)]
pub enum DltReturnValue {
    DLT_RETURN_FILESZERR,
    DLT_RETURN_LOGGING_DISABLED,
    DLT_RETURN_USER_BUFFER_FULL,
    DLT_RETURN_WRONG_PARAMETER,
    DLT_RETURN_BUFFER_FULL,
    DLT_RETURN_PIPE_FULL,
    DLT_RETURN_PIPE_ERROR,
    DLT_RETURN_ERROR,
    DLT_RETURN_OK,
    DLT_RETURN_TRUE,
}

impl DltReturnValue {
    /// The number that stands for the outcome: negative for failures, 0 for
    /// success, 1 for "true".
    pub open spec fn code(self) -> int {
        match self {
            DltReturnValue::DLT_RETURN_FILESZERR => -8,
            DltReturnValue::DLT_RETURN_LOGGING_DISABLED => -7,
            DltReturnValue::DLT_RETURN_USER_BUFFER_FULL => -6,
            DltReturnValue::DLT_RETURN_WRONG_PARAMETER => -5,
            DltReturnValue::DLT_RETURN_BUFFER_FULL => -4,
            DltReturnValue::DLT_RETURN_PIPE_FULL => -3,
            DltReturnValue::DLT_RETURN_PIPE_ERROR => -2,
            DltReturnValue::DLT_RETURN_ERROR => -1,
            DltReturnValue::DLT_RETURN_OK => 0,
            DltReturnValue::DLT_RETURN_TRUE => 1,
        }
    }

    /// The number that stands for the outcome.
    pub fn value(&self) -> (code: i32)
        ensures
            code == self.code(),
    {
        match self {
            DltReturnValue::DLT_RETURN_FILESZERR => -8,
            DltReturnValue::DLT_RETURN_LOGGING_DISABLED => -7,
            DltReturnValue::DLT_RETURN_USER_BUFFER_FULL => -6,
            DltReturnValue::DLT_RETURN_WRONG_PARAMETER => -5,
            DltReturnValue::DLT_RETURN_BUFFER_FULL => -4,
            DltReturnValue::DLT_RETURN_PIPE_FULL => -3,
            DltReturnValue::DLT_RETURN_PIPE_ERROR => -2,
            DltReturnValue::DLT_RETURN_ERROR => -1,
            DltReturnValue::DLT_RETURN_OK => 0,
            DltReturnValue::DLT_RETURN_TRUE => 1,
        }
    }
}

} // verus!
