//! What can go wrong between the request for an adapter and its start.

use vstd::prelude::*;

verus! {

/// Why no adapter could be had, or why the release check was given up.
#[derive(Clone, Copy, Debug, PartialEq, Eq, Structural)]
pub enum AdapterError {
    /// The release registry or the download could not be reached.
    NetworkError,
    /// The archive is damaged or of a form that is not unpacked here, or
    /// its files could not be brought into place.
    ExtractionError,
    /// No installed adapter was found and no path to one was given.
    NotInstalled,
    /// Neither the project's toolchain nor the search path has an
    /// interpreter.
    InterpreterNotFound,
    /// The session was driven in a way that its definition does not allow.
    ConfigurationError,
}

impl AdapterError {
    /// The cause in words.
    pub open spec fn message_of(self) -> Seq<char> {
        match self {
            AdapterError::NetworkError => "release registry or download unreachable"@,
            AdapterError::ExtractionError => "archive could not be unpacked into place"@,
            AdapterError::NotInstalled => "Debugpy directory not found"@,
            AdapterError::InterpreterNotFound => "failed to find binary path for python"@,
            AdapterError::ConfigurationError => "debug session was not driven as defined"@,
        }
    }

    /// The cause in words, for the user to read.
    pub fn message(&self) -> (text: &'static str)
        ensures
            text@ == self.message_of(),
    {
        match self {
            AdapterError::NetworkError => "release registry or download unreachable",
            AdapterError::ExtractionError => "archive could not be unpacked into place",
            AdapterError::NotInstalled => "Debugpy directory not found",
            AdapterError::InterpreterNotFound => "failed to find binary path for python",
            AdapterError::ConfigurationError => "debug session was not driven as defined",
        }
    }
}

} // verus!
