//! Structured messages reported back to the caller alongside command
//! responses, e.g. validation failures.

use vstd::prelude::*;
use vstd::string::StringExecFns;

verus! {

/// Whether a message reports a success or an error.
#[derive(Clone, Copy, Debug, PartialEq, Eq, Structural)]
pub enum FrontendMessageType {
    Success,
    Error,
}

/// A message destined for the caller: a severity tag plus human-readable text.
#[derive(Debug, PartialEq, Eq)]
pub struct FrontendMessage {
    pub message_type: FrontendMessageType,
    pub message: String,
}

impl FrontendMessage {
    /// Two messages carry the same content: same severity, same text.
    pub open spec fn same_content(&self, other: &FrontendMessage) -> bool {
        self.message_type == other.message_type && self.message@ == other.message@
    }

    /// The message is an error with exactly the given text.
    pub open spec fn is_error_with(&self, text: Seq<char>) -> bool {
        self.message_type == FrontendMessageType::Error && self.message@ == text
    }

    pub fn success(message: String) -> (r: Self)
        ensures
            r.message_type == FrontendMessageType::Success,
            r.message == message,
    {
        Self { message_type: FrontendMessageType::Success, message }
    }

    pub fn error(message: String) -> (r: Self)
        ensures
            r.message_type == FrontendMessageType::Error,
            r.message == message,
    {
        Self { message_type: FrontendMessageType::Error, message }
    }

    /// Content equality, decidable at run time.
    pub fn matches_content(&self, other: &FrontendMessage) -> (r: bool)
        ensures
            r == self.same_content(other),
    {
        self.message_type == other.message_type && self.message == other.message
    }
}

impl Clone for FrontendMessage {
    fn clone(&self) -> (r: Self)
        ensures
            r == *self,
    {
        FrontendMessage { message_type: self.message_type, message: self.message.clone() }
    }
}

} // verus!
