//! The failures that the timer knows, and what each means for the worker.

use vstd::prelude::*;

verus! {

/// A failure of the link, of persistence or of the control channel.
#[derive(Debug, PartialEq, Eq)]
pub enum TimerError {
    /// The serial channel could not be opened; with the text of the failure.
    PortUnavailable(String),
    /// A read ran into the read timeout.
    Timeout,
    /// A read returned no byte.
    NoData,
    /// Any other failure of a write, a flush or a read; with the text of
    /// the failure.
    IOError(String),
    /// A write to the store failed.
    PersistenceError,
    /// The control channel has no sender left.
    ChannelClosed,
}

/// What the worker does about a failure.
#[derive(Clone, Copy, Debug, PartialEq, Eq, Structural)]
pub enum Disposition {
    /// Startup fails.
    Fatal,
    /// The failure is logged and the loop goes on.
    Continue,
    /// The loop ends cleanly.
    Shutdown,
}

impl Clone for TimerError {
    fn clone(&self) -> (copy: Self)
        ensures
            copy == *self,
    {
        match self {
            TimerError::PortUnavailable(detail) => TimerError::PortUnavailable(detail.clone()),
            TimerError::Timeout => TimerError::Timeout,
            TimerError::NoData => TimerError::NoData,
            TimerError::IOError(detail) => TimerError::IOError(detail.clone()),
            TimerError::PersistenceError => TimerError::PersistenceError,
            TimerError::ChannelClosed => TimerError::ChannelClosed,
        }
    }
}

impl TimerError {
    /// What the worker does about this failure: only a link that cannot be
    /// opened is fatal, a closed control channel ends the loop, and
    /// everything else is logged and survived.
    pub open spec fn spec_disposition(self) -> Disposition {
        match self {
            TimerError::PortUnavailable(_) => Disposition::Fatal,
            TimerError::ChannelClosed => Disposition::Shutdown,
            _ => Disposition::Continue,
        }
    }

    /// The text that describes this failure in a log. A failure that came
    /// with a text of its own is described by that text.
    pub open spec fn spec_message(self) -> Seq<char> {
        match self {
            TimerError::PortUnavailable(detail) => detail@,
            TimerError::Timeout => "Read timeout"@,
            TimerError::NoData => "No data received"@,
            TimerError::IOError(detail) => detail@,
            TimerError::PersistenceError => "Persistence error"@,
            TimerError::ChannelClosed => "Channel closed"@,
        }
    }

    /// What the worker does about this failure.
    pub fn disposition(&self) -> (d: Disposition)
        ensures
            d == self.spec_disposition(),
            d == Disposition::Fatal <==> *self is PortUnavailable,
            d == Disposition::Shutdown <==> *self is ChannelClosed,
    {
        match self {
            TimerError::PortUnavailable(_) => Disposition::Fatal,
            TimerError::ChannelClosed => Disposition::Shutdown,
            _ => Disposition::Continue,
        }
    }

    /// Whether the failure comes from an exchange on the link and passes by
    /// itself.
    pub fn is_transient(&self) -> (t: bool)
        ensures
            t <==> *self is Timeout || *self is NoData || *self is IOError,
    {
        match self {
            TimerError::Timeout | TimerError::NoData | TimerError::IOError(_) => true,
            _ => false,
        }
    }

    /// The text that describes this failure in a log.
    pub fn message(&self) -> (text: String)
        ensures
            text@ == self.spec_message(),
    {
        match self {
            TimerError::PortUnavailable(detail) => detail.clone(),
            TimerError::Timeout => "Read timeout".to_owned(),
            TimerError::NoData => "No data received".to_owned(),
            TimerError::IOError(detail) => detail.clone(),
            TimerError::PersistenceError => "Persistence error".to_owned(),
            TimerError::ChannelClosed => "Channel closed".to_owned(),
        }
    }
}

} // verus!
