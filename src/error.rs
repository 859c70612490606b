use vstd::prelude::*;

verus! {

/// Why a workspace operation failed.
#[derive(Debug, Clone, Copy, PartialEq, Eq, Structural)]
pub enum WorkspaceError {
    /// A file path held a terminator byte.
    InvalidFilePath,
    /// A URL held a terminator byte.
    InvalidUrl,
    /// A bundle identifier held a terminator byte.
    InvalidBundleIdentifier,
    /// The native running-applications query returned nothing.
    NoRunningApplications,
    /// The running-applications reply was not valid JSON.
    MalformedRunningApplications,
    /// The running-applications reply was valid JSON but not an array.
    RunningApplicationsNotAnArray,
    /// The frontmost-application reply was not valid JSON.
    MalformedFrontmostApplication,
}

impl WorkspaceError {
    /// True for the errors that reject a caller's argument before any native call.
    pub open spec fn is_invalid_input(self) -> bool {
        match self {
            WorkspaceError::InvalidFilePath
            | WorkspaceError::InvalidUrl
            | WorkspaceError::InvalidBundleIdentifier => true,
            _ => false,
        }
    }

    /// True for the errors that report a reply that could not be decoded.
    pub open spec fn is_decode_failure(self) -> bool {
        match self {
            WorkspaceError::MalformedRunningApplications
            | WorkspaceError::RunningApplicationsNotAnArray
            | WorkspaceError::MalformedFrontmostApplication => true,
            _ => false,
        }
    }

    pub open spec fn message_spec(self) -> Seq<char> {
        match self {
            WorkspaceError::InvalidFilePath => "Invalid file path containing null bytes"@,
            WorkspaceError::InvalidUrl => "Invalid URL containing null bytes"@,
            WorkspaceError::InvalidBundleIdentifier => "Invalid bundle identifier containing null bytes"@,
            WorkspaceError::NoRunningApplications => "Failed to get running applications"@,
            WorkspaceError::MalformedRunningApplications => "Failed to parse running applications JSON"@,
            WorkspaceError::RunningApplicationsNotAnArray => "Invalid JSON structure for running applications"@,
            WorkspaceError::MalformedFrontmostApplication => "Failed to parse frontmost application JSON"@,
        }
    }

    /// A human-readable description of the error.
    pub fn message(&self) -> (r: String)
        ensures
            r@ == self.message_spec(),
    {
        let text: &str = match self {
            WorkspaceError::InvalidFilePath => "Invalid file path containing null bytes",
            WorkspaceError::InvalidUrl => "Invalid URL containing null bytes",
            WorkspaceError::InvalidBundleIdentifier => "Invalid bundle identifier containing null bytes",
            WorkspaceError::NoRunningApplications => "Failed to get running applications",
            WorkspaceError::MalformedRunningApplications => "Failed to parse running applications JSON",
            WorkspaceError::RunningApplicationsNotAnArray => "Invalid JSON structure for running applications",
            WorkspaceError::MalformedFrontmostApplication => "Failed to parse frontmost application JSON",
        };
        text.to_owned()
    }
}

} // verus!
