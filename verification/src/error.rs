//! The ways in which an exchange with the daemon fails.

use vstd::prelude::*;

verus! {

/// The kind of a failure. Every operation reports the first failure it
/// meets, unchanged.
#[derive(Clone, Copy, Debug, PartialEq, Eq, Structural)]
pub enum ClientError {
    /// The body of a request could not be encoded as JSON.
    Serialization,
    /// The daemon could not be reached, or the exchange broke off.
    Transport,
    /// The request could not be formed: its target is no valid URI.
    Protocol,
    /// The body of the response is not JSON.
    Deserialization,
}

impl ClientError {
    /// What went wrong, in words.
    pub open spec fn description(self) -> Seq<char> {
        match self {
            ClientError::Serialization => "the request body could not be encoded as JSON"@,
            ClientError::Transport => "the daemon could not be reached"@,
            ClientError::Protocol => "the request could not be formed"@,
            ClientError::Deserialization => "the response body is not JSON"@,
        }
    }

    /// What went wrong, in words.
    pub fn describe(&self) -> (text: &'static str)
        ensures
            text@ == self.description(),
    {
        match self {
            ClientError::Serialization => "the request body could not be encoded as JSON",
            ClientError::Transport => "the daemon could not be reached",
            ClientError::Protocol => "the request could not be formed",
            ClientError::Deserialization => "the response body is not JSON",
        }
    }
}

} // verus!
