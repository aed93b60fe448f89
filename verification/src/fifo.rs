//! The two endpoints between this process and the daemon: their names,
//! their access modes, and the order of the steps that set the inbound one
//! up. The caller makes the system calls and reports how each went.

use vstd::prelude::*;
use vstd::string::StringExecFns;
use crate::text::{decimal_text, u32_to_decimal};

verus! {

/// Path of the endpoint on which the daemon takes messages from every
/// client.
pub const LOG_PATH: &'static str = "/tmp/dlt";

/// Directory of the endpoints on which the daemon reaches the clients.
pub const DIR: &'static str = "/tmp/dltpipes";

/// What the path of a client's inbound endpoint begins with; the process
/// identifier follows.
pub const USER_PATH: &'static str = "/tmp/dltpipes/dlt";

/// Read permission of the owner.
pub const IREAD: u32 = 0o400;

/// Write permission of the owner.
pub const IWRITE: u32 = 0o200;

/// Read permission of the group.
pub const IRGRP: u32 = 0o040;

/// Write permission of the group.
pub const IWGRP: u32 = 0o020;

/// Mode of the directory of inbound endpoints: owner, group and others may
/// read, write and search it; files in it belong to the directory's group,
/// and only their owners may remove them.
pub const DIRECTORY_MODE: u32 = 0o3777;

/// The path of the inbound endpoint of the process `pid`.
pub open spec fn user_path_of(pid: u32) -> Seq<char> {
    USER_PATH@ + decimal_text(pid as nat)
}

/// The path of the inbound endpoint of the process `pid`: the common
/// beginning, then the process identifier in decimal.
pub fn incoming_fifo_path(pid: u32) -> (path: String)
    ensures
        path@ == user_path_of(pid),
{
    let mut user_path = USER_PATH.to_owned();
    let process_id = u32_to_decimal(pid);
    user_path.append(process_id.as_str());
    user_path
}

/// Mode of a client's inbound endpoint: owner and group may read and write.
pub fn incoming_fifo_mode() -> (mode: u32)
    ensures
        mode == 0o660,
{
    let mode: u32 = IREAD | IWRITE | IRGRP | IWGRP;
    assert(0o400u32 | 0o200u32 | 0o040u32 | 0o020u32 == 0o660u32) by (bit_vector);
    mode
}

/// How a step of the setup went.
#[derive(Debug, Clone, Copy, PartialEq, Eq, Structural)]
pub enum StepOutcome {
    /// The step did what it was to do; for the check: the directory exists.
    Succeeded,
    /// What the step was to look at or to remove does not exist.
    Missing,
    /// The step failed for another reason.
    Failed,
}

/// A step on the way to an open inbound endpoint.
#[derive(Debug, Clone, Copy, PartialEq, Eq, Structural)]
pub enum SetupStep {
    /// Find out whether the directory of inbound endpoints exists.
    CheckDirectory,
    /// Create the directory.
    CreateDirectory,
    /// Give the directory its mode.
    SetDirectoryMode,
    /// Remove what an earlier run may have left at the endpoint's path.
    RemoveStaleEndpoint,
    /// Make the endpoint, with its mode.
    MakeEndpoint,
    /// Open the endpoint for reading and writing, without blocking, closed
    /// on exec.
    OpenEndpoint,
    /// The endpoint is open.
    Done,
    /// The endpoint could not be set up.
    Failed,
}

impl SetupStep {
    /// The step that follows a step, given how the step went. A directory
    /// that is missing is created. That there is no stale endpoint to remove
    /// stops nothing. Every other step has to succeed, or the setup fails.
    pub open spec fn after(self, outcome: StepOutcome) -> SetupStep {
        match self {
            SetupStep::CheckDirectory => match outcome {
                StepOutcome::Succeeded => SetupStep::SetDirectoryMode,
                StepOutcome::Missing => SetupStep::CreateDirectory,
                StepOutcome::Failed => SetupStep::Failed,
            },
            SetupStep::CreateDirectory => match outcome {
                StepOutcome::Succeeded => SetupStep::SetDirectoryMode,
                _ => SetupStep::Failed,
            },
            SetupStep::SetDirectoryMode => match outcome {
                StepOutcome::Succeeded => SetupStep::RemoveStaleEndpoint,
                _ => SetupStep::Failed,
            },
            SetupStep::RemoveStaleEndpoint => match outcome {
                StepOutcome::Succeeded => SetupStep::MakeEndpoint,
                StepOutcome::Missing => SetupStep::MakeEndpoint,
                StepOutcome::Failed => SetupStep::Failed,
            },
            SetupStep::MakeEndpoint => match outcome {
                StepOutcome::Succeeded => SetupStep::OpenEndpoint,
                _ => SetupStep::Failed,
            },
            SetupStep::OpenEndpoint => match outcome {
                StepOutcome::Succeeded => SetupStep::Done,
                _ => SetupStep::Failed,
            },
            SetupStep::Done => SetupStep::Done,
            SetupStep::Failed => SetupStep::Failed,
        }
    }

    /// The first step of every setup.
    pub fn first() -> (step: SetupStep)
        ensures
            step == SetupStep::CheckDirectory,
    {
        SetupStep::CheckDirectory
    }

    /// The step that follows this one.
    pub fn next(self, outcome: StepOutcome) -> (step: SetupStep)
        ensures
            step == self.after(outcome),
    {
        match self {
            SetupStep::CheckDirectory => match outcome {
                StepOutcome::Succeeded => SetupStep::SetDirectoryMode,
                StepOutcome::Missing => SetupStep::CreateDirectory,
                StepOutcome::Failed => SetupStep::Failed,
            },
            SetupStep::CreateDirectory => match outcome {
                StepOutcome::Succeeded => SetupStep::SetDirectoryMode,
                _ => SetupStep::Failed,
            },
            SetupStep::SetDirectoryMode => match outcome {
                StepOutcome::Succeeded => SetupStep::RemoveStaleEndpoint,
                _ => SetupStep::Failed,
            },
            SetupStep::RemoveStaleEndpoint => match outcome {
                StepOutcome::Succeeded => SetupStep::MakeEndpoint,
                StepOutcome::Missing => SetupStep::MakeEndpoint,
                StepOutcome::Failed => SetupStep::Failed,
            },
            SetupStep::MakeEndpoint => match outcome {
                StepOutcome::Succeeded => SetupStep::OpenEndpoint,
                _ => SetupStep::Failed,
            },
            SetupStep::OpenEndpoint => match outcome {
                StepOutcome::Succeeded => SetupStep::Done,
                _ => SetupStep::Failed,
            },
            SetupStep::Done => SetupStep::Done,
            SetupStep::Failed => SetupStep::Failed,
        }
    }

    /// True when nothing is left to do.
    pub fn is_final(self) -> (finished: bool)
        ensures
            finished == (self == SetupStep::Done || self == SetupStep::Failed),
    {
        match self {
            SetupStep::Done => true,
            SetupStep::Failed => true,
            _ => false,
        }
    }
}

/// Setting the endpoint up again is no different from setting it up for the
/// first time. The first time the directory is missing and there is nothing
/// to remove; the next time the directory exists and the endpoint of the
/// earlier run is removed. Both times the steps end with the endpoint open,
/// as long as the steps in between succeed.
pub proof fn lemma_setup_repeats()
    ensures
        SetupStep::CheckDirectory.after(StepOutcome::Missing).after(StepOutcome::Succeeded).after(
            StepOutcome::Succeeded,
        ).after(StepOutcome::Missing).after(StepOutcome::Succeeded).after(StepOutcome::Succeeded)
            == SetupStep::Done,
        SetupStep::CheckDirectory.after(StepOutcome::Succeeded).after(StepOutcome::Succeeded).after(
            StepOutcome::Succeeded,
        ).after(StepOutcome::Succeeded).after(StepOutcome::Succeeded) == SetupStep::Done,
{
}

/// An endpoint that cannot be made is never opened: the setup fails, even
/// where a stale endpoint is still there to be opened.
pub proof fn lemma_unmade_endpoint_fails(outcome: StepOutcome, later: StepOutcome)
    requires
        outcome != StepOutcome::Succeeded,
    ensures
        SetupStep::MakeEndpoint.after(outcome) == SetupStep::Failed,
        SetupStep::MakeEndpoint.after(outcome).after(later) == SetupStep::Failed,
{
}

} // verus!
