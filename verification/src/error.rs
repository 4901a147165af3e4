//! What can go wrong with one call of the queue service, short of the
//! connection itself.

use vstd::prelude::*;
use vstd::string::StringExecFns;

verus! {

/// Why an operation produced no request, or why a reply was not accepted.
#[derive(Debug, Clone, PartialEq, Eq)]
pub enum QueueError {
    /// The message carries no `id`, so nothing was sent.
    MissingMessageId,
    /// The message carries no `reservation_id`, so nothing was sent.
    MissingReservationId,
    /// The reply is not a JSON document.
    Malformed,
    /// The reply lacks what the operation asked for. The text is that of the
    /// reply's `msg` member, as the service wrote it.
    Protocol(String),
}

/// The mathematical content of a `QueueError`.
pub enum Failure {
    MissingMessageId,
    MissingReservationId,
    Malformed,
    Protocol(Seq<char>),
}

impl View for QueueError {
    type V = Failure;

    open spec fn view(&self) -> Failure {
        match self {
            QueueError::MissingMessageId => Failure::MissingMessageId,
            QueueError::MissingReservationId => Failure::MissingReservationId,
            QueueError::Malformed => Failure::Malformed,
            QueueError::Protocol(text) => Failure::Protocol(text@),
        }
    }
}

impl Failure {
    /// The words that describe the failure.
    pub open spec fn text(self) -> Seq<char> {
        match self {
            Failure::MissingMessageId => "Missed message id"@,
            Failure::MissingReservationId => "Missed reservation id"@,
            Failure::Malformed => "Reply is not JSON"@,
            Failure::Protocol(text) => text,
        }
    }

    /// Whether the failure was found before anything was sent.
    pub open spec fn is_local(self) -> bool {
        self is MissingMessageId || self is MissingReservationId
    }
}

impl QueueError {
    /// The words that describe the error.
    pub fn message(&self) -> (text: String)
        ensures
            text@ == self@.text(),
    {
        match self {
            QueueError::MissingMessageId => String::from_str("Missed message id"),
            QueueError::MissingReservationId => String::from_str("Missed reservation id"),
            QueueError::Malformed => String::from_str("Reply is not JSON"),
            QueueError::Protocol(text) => text.clone(),
        }
    }

    /// Whether the error was found before anything was sent.
    pub fn is_local(&self) -> (local: bool)
        ensures
            local == self@.is_local(),
    {
        match self {
            QueueError::MissingMessageId => true,
            QueueError::MissingReservationId => true,
            _ => false,
        }
    }
}

} // verus!
