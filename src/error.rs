use vstd::prelude::*;
use vstd::string::*;

verus! {

/// Why a provisioning run ended early.
#[derive(Debug, Clone, Copy, PartialEq, Eq, Structural)]
pub enum ProvisionError {
    /// The template version could not be fetched, or was empty.
    VersionResolutionFailed,
    /// The template repository could not be checked out.
    DownloadFailed,
    /// A file that must be written exists, and overwriting it was not allowed.
    FileConflict,
    /// No platform was given and none could be asked for.
    MissingRequiredArgument,
    /// Reading, writing or copying a file failed.
    IoFailure,
    /// A question to the user was aborted.
    PromptFailure,
}

/// The sentence shown for an error.
pub open spec fn message_of(e: ProvisionError) -> Seq<char> {
    match e {
        ProvisionError::VersionResolutionFailed => "Failed to get current version"@,
        ProvisionError::DownloadFailed => "Failed to download repository"@,
        ProvisionError::FileConflict => "File exists but couldn't overwrite it"@,
        ProvisionError::MissingRequiredArgument => "Missing platform"@,
        ProvisionError::IoFailure => "Failed to read or write a file"@,
        ProvisionError::PromptFailure => "Failed to read an answer"@,
    }
}

impl ProvisionError {
    /// A sentence for the user that says what went wrong.
    pub fn message(&self) -> (r: String)
        ensures
            r@ == message_of(*self),
    {
        match self {
            ProvisionError::VersionResolutionFailed => String::from_str(
                "Failed to get current version",
            ),
            ProvisionError::DownloadFailed => String::from_str("Failed to download repository"),
            ProvisionError::FileConflict => String::from_str(
                "File exists but couldn't overwrite it",
            ),
            ProvisionError::MissingRequiredArgument => String::from_str("Missing platform"),
            ProvisionError::IoFailure => String::from_str("Failed to read or write a file"),
            ProvisionError::PromptFailure => String::from_str("Failed to read an answer"),
        }
    }
}

} // verus!
