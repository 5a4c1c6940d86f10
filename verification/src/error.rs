//! The fixed taxonomy of protocol errors.

use vstd::prelude::*;

verus! {

/// Why a command was refused, either by the connection handler itself or by
/// the directory.
#[derive(Debug, Clone, Copy, PartialEq, Eq, Structural)]
pub enum ProtocolError {
    InvalidFormat,
    InvalidCommand,
    InvalidUsername,
    AlreadyValidated,
    UserExists,
    UserDoesntExists,
    NotValidated,
    MessageYourself,
}

impl ProtocolError {
    /// The number that stands for this error on the wire.
    pub open spec fn spec_code(self) -> u32 {
        match self {
            ProtocolError::InvalidFormat => 1,
            ProtocolError::InvalidCommand => 2,
            ProtocolError::InvalidUsername => 3,
            ProtocolError::AlreadyValidated => 4,
            ProtocolError::UserExists => 5,
            ProtocolError::UserDoesntExists => 6,
            ProtocolError::NotValidated => 7,
            ProtocolError::MessageYourself => 8,
        }
    }

    /// The sentence that accompanies this error on the wire.
    pub open spec fn spec_message(self) -> Seq<char> {
        match self {
            ProtocolError::InvalidFormat => "Please follow protocol."@,
            ProtocolError::InvalidCommand => "Invalid command."@,
            ProtocolError::InvalidUsername => "Invalid username."@,
            ProtocolError::AlreadyValidated => "You are already validated."@,
            ProtocolError::UserExists => "User already exists."@,
            ProtocolError::UserDoesntExists => "Use doesn't exists."@,
            ProtocolError::NotValidated => "Please validate yourself."@,
            ProtocolError::MessageYourself => "You cannot messege to yourself."@,
        }
    }

    pub fn code(&self) -> (code: u32)
        ensures
            code == self.spec_code(),
            1 <= code <= 8,
    {
        match self {
            ProtocolError::InvalidFormat => 1,
            ProtocolError::InvalidCommand => 2,
            ProtocolError::InvalidUsername => 3,
            ProtocolError::AlreadyValidated => 4,
            ProtocolError::UserExists => 5,
            ProtocolError::UserDoesntExists => 6,
            ProtocolError::NotValidated => 7,
            ProtocolError::MessageYourself => 8,
        }
    }

    pub fn message(&self) -> (text: &'static str)
        ensures
            text@ == self.spec_message(),
    {
        match self {
            ProtocolError::InvalidFormat => "Please follow protocol.",
            ProtocolError::InvalidCommand => "Invalid command.",
            ProtocolError::InvalidUsername => "Invalid username.",
            ProtocolError::AlreadyValidated => "You are already validated.",
            ProtocolError::UserExists => "User already exists.",
            ProtocolError::UserDoesntExists => "Use doesn't exists.",
            ProtocolError::NotValidated => "Please validate yourself.",
            ProtocolError::MessageYourself => "You cannot messege to yourself.",
        }
    }
}

} // verus!
