//! Why a file yields no row.

use vstd::prelude::*;

verus! {

/// The ways in which the extraction of one file can fail. None of them ends
/// a batch: the file is reported and passed over.
#[derive(Clone, Copy, Debug, PartialEq, Eq, Structural)]
pub enum ExtractError {
    /// The container does not parse as a PE image.
    NotPEFormat,
    /// A header that the row needs could not be read.
    MalformedHeader,
    /// The subsystem number has no entry in the vocabulary.
    UnknownSubsystem,
    /// The machine code has no entry in the vocabulary.
    UnknownMachineType,
}

impl ExtractError {
    /// The text that names this failure.
    pub open spec fn reason_text(self) -> Seq<char> {
        match self {
            ExtractError::NotPEFormat => "not a PE image"@,
            ExtractError::MalformedHeader => "malformed header"@,
            ExtractError::UnknownSubsystem => "unknown subsystem"@,
            ExtractError::UnknownMachineType => "unknown machine type"@,
        }
    }

    /// The text that names this failure, for a diagnostic line.
    pub fn reason(&self) -> (s: &'static str)
        ensures
            s@ == self.reason_text(),
    {
        match self {
            ExtractError::NotPEFormat => "not a PE image",
            ExtractError::MalformedHeader => "malformed header",
            ExtractError::UnknownSubsystem => "unknown subsystem",
            ExtractError::UnknownMachineType => "unknown machine type",
        }
    }
}

} // verus!
