//! The failures that the clipper reports to its caller.

use vstd::prelude::*;
use vstd::std_specs::convert::FromSpecImpl;

verus! {

/// Why an operation of the clipper did not succeed.
#[derive(Debug, Clone, Copy, PartialEq, Eq, Structural)]
pub enum Error {
    /// A clip was asked of a channel that is not being recorded.
    NoConnection,
    /// The voice transport could not be engaged or released.
    CantConnect,
    /// The encoder refused its configuration or its input, or shared state
    /// was found unusable.
    SkillIssue,
}

impl Error {
    /// The text shown to the user for this failure.
    pub fn message(&self) -> (text: String)
        ensures
            text@ == self.message_text(),
    {
        match self {
            Error::NoConnection => "No connection to vc".to_string(),
            Error::CantConnect => "Failed to connect".to_string(),
            Error::SkillIssue => "Internal error".to_string(),
        }
    }

    /// The characters of [`Error::message`].
    pub open spec fn message_text(&self) -> Seq<char> {
        match self {
            Error::NoConnection => "No connection to vc"@,
            Error::CantConnect => "Failed to connect"@,
            Error::SkillIssue => "Internal error"@,
        }
    }
}

/// Whatever the codec objects to in its configuration is an internal
/// failure.
impl From<mp3lame_encoder::BuildError> for Error {
    fn from(_error: mp3lame_encoder::BuildError) -> (error: Error) {
        Error::SkillIssue
    }
}

impl FromSpecImpl<mp3lame_encoder::BuildError> for Error {
    open spec fn obeys_from_spec() -> bool {
        true
    }

    open spec fn from_spec(_error: mp3lame_encoder::BuildError) -> Error {
        Error::SkillIssue
    }
}

/// Whatever the codec objects to while encoding is an internal failure.
impl From<mp3lame_encoder::EncodeError> for Error {
    fn from(_error: mp3lame_encoder::EncodeError) -> (error: Error) {
        Error::SkillIssue
    }
}

impl FromSpecImpl<mp3lame_encoder::EncodeError> for Error {
    open spec fn obeys_from_spec() -> bool {
        true
    }

    open spec fn from_spec(_error: mp3lame_encoder::EncodeError) -> Error {
        Error::SkillIssue
    }
}

} // verus!
