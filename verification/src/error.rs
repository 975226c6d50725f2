//! The failures that a command can end in.

use vstd::prelude::*;
use vstd::string::*;

verus! {

/// The direction of a standard stream or of an endpoint.
#[derive(Clone, Copy, Debug, PartialEq, Eq, Structural)]
pub enum Direction {
    Input,
    Output,
}

/// Why a command failed. Every failure is fatal to the invocation.
#[derive(Clone, Debug, PartialEq, Eq)]
pub enum Error {
    /// More than one role of one direction claims the standard stream.
    AmbiguousStandardStream(Direction),
    /// A path could not be opened for reading, or created for writing;
    /// the text is the underlying cause.
    EndpointUnavailable(Direction, String),
    /// The key material has `actual` bytes, not `KEYBYTES`.
    InvalidKeyLength { actual: usize },
    /// The nonce material has `actual` bytes, not `NONCEBYTES`.
    InvalidNonceLength { actual: usize },
    /// Reading or writing a buffer failed; the text is the underlying cause.
    IoFailure(String),
    /// The sealed bytes do not verify under the given key and nonce.
    AuthenticationFailure,
    /// No known command was named, or its options are incomplete.
    UnknownCommand,
}

/// The fixed part of the message of `e`: all of it, but for the two
/// variants that carry a cause, where the cause follows it.
pub open spec fn message_head(e: Error) -> Seq<char> {
    match e {
        Error::AmbiguousStandardStream(Direction::Input) =>
            "Only one input source can be from STDIN"@,
        Error::AmbiguousStandardStream(Direction::Output) =>
            "Only one output source can be to STDOUT"@,
        Error::EndpointUnavailable(Direction::Input, _) => "Cannot open input file: "@,
        Error::EndpointUnavailable(Direction::Output, _) => "Cannot open output file: "@,
        Error::InvalidKeyLength { .. } => "Incorrect length for key provided"@,
        Error::InvalidNonceLength { .. } => "Incorrect length for nonce provided"@,
        Error::IoFailure(_) => Seq::<char>::empty(),
        Error::AuthenticationFailure => "Authentication failed: wrong key, wrong nonce or altered data"@,
        Error::UnknownCommand => "Unknown command or missing options"@,
    }
}

/// The cause that `e` carries, empty where it carries none.
pub open spec fn message_cause(e: Error) -> Seq<char> {
    match e {
        Error::EndpointUnavailable(_, cause) => cause@,
        Error::IoFailure(cause) => cause@,
        _ => Seq::<char>::empty(),
    }
}

/// The whole human-readable message of `e`.
pub open spec fn spec_message(e: Error) -> Seq<char> {
    message_head(e) + message_cause(e)
}

impl Error {
    /// The single human-readable line that reports this failure.
    pub fn message(&self) -> (text: String)
        ensures
            text@ == spec_message(*self),
    {
        match self {
            Error::AmbiguousStandardStream(Direction::Input) => {
                let text = String::from_str("Only one input source can be from STDIN");
                assert(text@ =~= spec_message(*self));
                text
            },
            Error::AmbiguousStandardStream(Direction::Output) => {
                let text = String::from_str("Only one output source can be to STDOUT");
                assert(text@ =~= spec_message(*self));
                text
            },
            Error::EndpointUnavailable(Direction::Input, cause) => {
                String::from_str("Cannot open input file: ").concat(cause.as_str())
            },
            Error::EndpointUnavailable(Direction::Output, cause) => {
                String::from_str("Cannot open output file: ").concat(cause.as_str())
            },
            Error::InvalidKeyLength { .. } => {
                let text = String::from_str("Incorrect length for key provided");
                assert(text@ =~= spec_message(*self));
                text
            },
            Error::InvalidNonceLength { .. } => {
                let text = String::from_str("Incorrect length for nonce provided");
                assert(text@ =~= spec_message(*self));
                text
            },
            Error::IoFailure(cause) => {
                let text = cause.clone();
                assert(text@ =~= spec_message(*self));
                text
            },
            Error::AuthenticationFailure => {
                let text = String::from_str(
                    "Authentication failed: wrong key, wrong nonce or altered data",
                );
                assert(text@ =~= spec_message(*self));
                text
            },
            Error::UnknownCommand => {
                let text = String::from_str("Unknown command or missing options");
                assert(text@ =~= spec_message(*self));
                text
            },
        }
    }
}

} // verus!
