//! Errors that the client reports to its callers.

use vstd::prelude::*;

verus! {

/// The error type of `std::io`; nothing is read out of it here.
#[verifier::external_type_specification]
#[verifier::external_body]
pub struct ExIoError(std::io::Error);

/// Failure to set the client up.
#[derive(Debug)]
pub enum DltUserError {
    Unknown,
}

impl DltUserError {
    /// The text that describes the error.
    pub open spec fn text(self) -> Seq<char> {
        "unknown error"@
    }

    pub fn message(&self) -> (text: String)
        ensures
            text@ == self.text(),
    {
        "unknown error".to_owned()
    }
}

/// What can go wrong between the application and the daemon.
#[derive(Debug)]
pub enum DltError {
    IoError(std::io::Error),
    ConfigFileError(String),
    FileSizeError,
    DltReturnLoggingDisabled,
    DltReturnUserBufferFull,
    DltReturnWrongParameter,
    DltReturnBufferFull,
    DltReturnPipeFull,
    DltReturnPipeError,
    DltReturnError,
    DltReturnOk,
    DltReturnTrue,
}

impl DltError {
    /// The text that describes the error.
    pub open spec fn text(self) -> Seq<char> {
        match self {
            DltError::IoError(_) => "Config file not found"@,
            DltError::ConfigFileError(_) => "Config file error"@,
            DltError::FileSizeError => "file size error"@,
            DltError::DltReturnLoggingDisabled => "Logging diabled"@,
            DltError::DltReturnUserBufferFull => "User Buffer Full"@,
            DltError::DltReturnWrongParameter => "Wrong Parameter"@,
            DltError::DltReturnBufferFull => "Buffer Full"@,
            DltError::DltReturnPipeFull => "Pipe Full"@,
            DltError::DltReturnPipeError => "Pipe error"@,
            DltError::DltReturnError => "error"@,
            DltError::DltReturnOk => "ok"@,
            DltError::DltReturnTrue => "true"@,
        }
    }

    pub fn message(&self) -> (text: String)
        ensures
            text@ == self.text(),
    {
        match self {
            DltError::IoError(_) => "Config file not found".to_owned(),
            DltError::ConfigFileError(_) => "Config file error".to_owned(),
            DltError::FileSizeError => "file size error".to_owned(),
            DltError::DltReturnLoggingDisabled => "Logging diabled".to_owned(),
            DltError::DltReturnUserBufferFull => "User Buffer Full".to_owned(),
            DltError::DltReturnWrongParameter => "Wrong Parameter".to_owned(),
            DltError::DltReturnBufferFull => "Buffer Full".to_owned(),
            DltError::DltReturnPipeFull => "Pipe Full".to_owned(),
            DltError::DltReturnPipeError => "Pipe error".to_owned(),
            DltError::DltReturnError => "error".to_owned(),
            DltError::DltReturnOk => "ok".to_owned(),
            DltError::DltReturnTrue => "true".to_owned(),
        }
    }
}

impl From<std::io::Error> for DltError {
    fn from(source: std::io::Error) -> (error: DltError) {
        DltError::IoError(source)
    }
}

impl vstd::std_specs::convert::FromSpecImpl<std::io::Error> for DltError {
    open spec fn obeys_from_spec() -> bool {
        true
    }

    open spec fn from_spec(source: std::io::Error) -> DltError {
        DltError::IoError(source)
    }
}

} // verus!
