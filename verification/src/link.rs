//! The hardware link, as far as it is decided here: how the serial channel
//! is configured, when the discard loop after opening goes on, and how one
//! request and its response proceed from the outcome of each operation.
//! The operations themselves are performed by the caller.

use vstd::prelude::*;
use crate::error::TimerError;

verus! {

/// Read timeout of the link, in milliseconds.
pub const READ_TIMEOUT_MS: u64 = 5000;

/// Parity of the serial channel.
#[derive(Clone, Copy, Debug, PartialEq, Eq, Structural)]
pub enum Parity {
    Off,
    Odd,
    Even,
}

/// Flow control of the serial channel.
#[derive(Clone, Copy, Debug, PartialEq, Eq, Structural)]
pub enum FlowControl {
    Off,
    Software,
    Hardware,
}

/// How the serial channel is configured when it is opened.
#[derive(Clone, Copy, Debug, PartialEq, Eq, Structural)]
pub struct LinkSettings {
    pub baud_rate: u32,
    pub data_bits: u8,
    pub parity: Parity,
    pub stop_bits: u8,
    pub flow_control: FlowControl,
    /// Whether the reset line is asserted on opening.
    pub dtr_on_open: bool,
    pub timeout_ms: u64,
}

impl LinkSettings {
    /// The settings of the link at a baud rate: eight data bits, no parity,
    /// one stop bit, no flow control, reset asserted on opening, and a read
    /// timeout of five seconds.
    pub open spec fn standard(baud_rate: u32) -> LinkSettings {
        LinkSettings {
            baud_rate,
            data_bits: 8,
            parity: Parity::Off,
            stop_bits: 1,
            flow_control: FlowControl::Off,
            dtr_on_open: true,
            timeout_ms: 5000,
        }
    }

    /// The settings of the link at a baud rate.
    pub fn new(baud_rate: u32) -> (settings: LinkSettings)
        ensures
            settings == LinkSettings::standard(baud_rate),
    {
        LinkSettings {
            baud_rate,
            data_bits: 8,
            parity: Parity::Off,
            stop_bits: 1,
            flow_control: FlowControl::Off,
            dtr_on_open: true,
            timeout_ms: READ_TIMEOUT_MS,
        }
    }
}

/// How one operation on the serial channel ended. A failure comes with its
/// text, as the system gave it.
#[derive(Clone, Debug, PartialEq, Eq)]
pub enum IoOutcome {
    /// It succeeded; for a read or a write, with this many bytes.
    Done(usize),
    /// It ran into the timeout.
    TimedOut(String),
    /// It failed otherwise.
    Failed(String),
}

/// Whether the discard loop that follows opening reads again: only after a
/// read that brought bytes. A read of no bytes, a timeout and a failure all
/// end it.
pub fn drain_continues(read: &IoOutcome) -> (again: bool)
    ensures
        again <==> (*read matches IoOutcome::Done(n) && n > 0),
{
    match read {
        IoOutcome::Done(n) => *n > 0,
        _ => false,
    }
}

/// What a read of a response amounts to: its length when it brought bytes,
/// `NoData` when it brought none, `Timeout` when the timeout expired, and
/// otherwise `IOError` with the text of the failure.
pub open spec fn read_result(read: IoOutcome) -> Result<usize, TimerError> {
    match read {
        IoOutcome::Done(n) => if n > 0 {
            Ok(n)
        } else {
            Err(TimerError::NoData)
        },
        IoOutcome::TimedOut(_) => Err(TimerError::Timeout),
        IoOutcome::Failed(detail) => Err(TimerError::IOError(detail)),
    }
}

/// What a write or a flush amounts to: nothing to report when it succeeded,
/// and otherwise `IOError` with the text of the failure, a timeout included.
pub open spec fn send_result(sent: IoOutcome) -> Result<(), TimerError> {
    match sent {
        IoOutcome::Done(_) => Ok(()),
        IoOutcome::TimedOut(detail) => Err(TimerError::IOError(detail)),
        IoOutcome::Failed(detail) => Err(TimerError::IOError(detail)),
    }
}

/// Classifies the read of a response.
pub fn classify_read(read: IoOutcome) -> (r: Result<usize, TimerError>)
    ensures
        r == read_result(read),
        r is Ok <==> (read matches IoOutcome::Done(n) && n > 0),
{
    match read {
        IoOutcome::Done(n) => if n > 0 {
            Ok(n)
        } else {
            Err(TimerError::NoData)
        },
        IoOutcome::TimedOut(_) => Err(TimerError::Timeout),
        IoOutcome::Failed(detail) => Err(TimerError::IOError(detail)),
    }
}

/// Classifies a write or a flush.
pub fn classify_send(sent: IoOutcome) -> (r: Result<(), TimerError>)
    ensures
        r == send_result(sent),
        r is Ok <==> sent is Done,
{
    match sent {
        IoOutcome::Done(_) => Ok(()),
        IoOutcome::TimedOut(detail) => Err(TimerError::IOError(detail)),
        IoOutcome::Failed(detail) => Err(TimerError::IOError(detail)),
    }
}

/// Where an exchange stands.
#[derive(Clone, Debug, PartialEq, Eq)]
pub enum Phase {
    /// The request byte is to be written.
    Writing,
    /// The write is to be flushed.
    Flushing,
    /// The response is to be read, once.
    Reading,
    /// The response has arrived.
    Delivered,
    /// The exchange has failed.
    Failed(TimerError),
}

/// What the caller does next for an exchange.
#[derive(Clone, Debug, PartialEq, Eq)]
pub enum LinkAction {
    /// Write this one byte.
    Write(u8),
    /// Flush the channel.
    Flush,
    /// Perform one blocking read into the response buffer.
    Read,
    /// Hand the response buffer on.
    Deliver,
    /// Report this failure.
    Fail(TimerError),
}

impl Phase {
    /// Whether the exchange is over.
    pub open spec fn is_final(self) -> bool {
        self is Delivered || self is Failed
    }

    /// The phase that follows when the operation of this phase ended with
    /// `outcome`. A finished exchange stays as it is.
    pub open spec fn next(self, outcome: IoOutcome) -> Phase {
        match self {
            Phase::Writing => match send_result(outcome) {
                Ok(_) => Phase::Flushing,
                Err(e) => Phase::Failed(e),
            },
            Phase::Flushing => match send_result(outcome) {
                Ok(_) => Phase::Reading,
                Err(e) => Phase::Failed(e),
            },
            Phase::Reading => match read_result(outcome) {
                Ok(_) => Phase::Delivered,
                Err(e) => Phase::Failed(e),
            },
            Phase::Delivered => Phase::Delivered,
            Phase::Failed(e) => Phase::Failed(e),
        }
    }

    /// The action that this phase asks for, in an exchange for `code`.
    pub open spec fn action(self, code: u8) -> LinkAction {
        match self {
            Phase::Writing => LinkAction::Write(code),
            Phase::Flushing => LinkAction::Flush,
            Phase::Reading => LinkAction::Read,
            Phase::Delivered => LinkAction::Deliver,
            Phase::Failed(e) => LinkAction::Fail(e),
        }
    }
}

/// What an exchange comes to, given how its write, its flush and its read
/// end. The flush is not tried after a failed write, nor the read after a
/// failed flush, and the failure reported is the first one.
pub open spec fn exchange_result(write: IoOutcome, flush: IoOutcome, read: IoOutcome) -> Result<
    usize,
    TimerError,
> {
    match send_result(write) {
        Err(e) => Err(e),
        Ok(_) => match send_result(flush) {
            Err(e) => Err(e),
            Ok(_) => read_result(read),
        },
    }
}

/// An exchange is over after its three operations, and its end is the one
/// that `exchange_result` names: delivered exactly when write and flush
/// succeed and the read brings at least one byte.
pub proof fn lemma_exchange_ends(write: IoOutcome, flush: IoOutcome, read: IoOutcome)
    ensures
        Phase::Writing.next(write).next(flush).next(read).is_final(),
        Phase::Writing.next(write).next(flush).next(read) == match exchange_result(
            write,
            flush,
            read,
        ) {
            Ok(_) => Phase::Delivered,
            Err(e) => Phase::Failed(e),
        },
        Phase::Writing.next(write).next(flush).next(read) is Delivered <==> write is Done
            && flush is Done && (read matches IoOutcome::Done(n) && n > 0),
{
}

/// A finished exchange does not move again, and an exchange never fails
/// with anything but a link failure.
pub proof fn lemma_final_phase_stays(phase: Phase, outcome: IoOutcome)
    ensures
        phase.is_final() ==> phase.next(outcome) == phase,
        !phase.is_final() ==> (phase.next(outcome) matches Phase::Failed(e) ==> e is IOError || e
            is Timeout || e is NoData),
{
}

/// One request and its response.
#[derive(Clone, Debug, PartialEq, Eq)]
pub struct Exchange {
    pub code: u8,
    pub phase: Phase,
}

impl Exchange {
    /// An exchange that is about to write the request byte `code`.
    pub fn new(code: u8) -> (exchange: Exchange)
        ensures
            exchange == (Exchange { code, phase: Phase::Writing }),
    {
        Exchange { code, phase: Phase::Writing }
    }

    /// The action to perform now.
    pub fn action(&self) -> (action: LinkAction)
        ensures
            action == self.phase.action(self.code),
    {
        match &self.phase {
            Phase::Writing => LinkAction::Write(self.code),
            Phase::Flushing => LinkAction::Flush,
            Phase::Reading => LinkAction::Read,
            Phase::Delivered => LinkAction::Deliver,
            Phase::Failed(e) => LinkAction::Fail(e.clone()),
        }
    }

    /// Whether the exchange is over.
    pub fn is_final(&self) -> (over: bool)
        ensures
            over == self.phase.is_final(),
    {
        match &self.phase {
            Phase::Delivered => true,
            Phase::Failed(_) => true,
            _ => false,
        }
    }

    /// Moves on, given how the action of the current phase ended.
    pub fn advance(&mut self, outcome: IoOutcome)
        ensures
            final(self).code == old(self).code,
            final(self).phase == old(self).phase.next(outcome),
    {
        let next = match &self.phase {
            Phase::Writing => match classify_send(outcome) {
                Ok(_) => Phase::Flushing,
                Err(e) => Phase::Failed(e),
            },
            Phase::Flushing => match classify_send(outcome) {
                Ok(_) => Phase::Reading,
                Err(e) => Phase::Failed(e),
            },
            Phase::Reading => match classify_read(outcome) {
                Ok(_) => Phase::Delivered,
                Err(e) => Phase::Failed(e),
            },
            Phase::Delivered => Phase::Delivered,
            Phase::Failed(e) => Phase::Failed(e.clone()),
        };
        self.phase = next;
    }
}

/// The character that stands for a byte in a dump of a response: the byte
/// itself when it is printable ASCII, and a dot otherwise.
pub fn dump_char(byte: u8) -> (c: char)
    ensures
        c == if 32 <= byte <= 126 {
            byte as char
        } else {
            '.'
        },
{
    if byte >= 32 && byte <= 126 {
        byte as char
    } else {
        '.'
    }
}

/// The signal strength that a finished exchange gives: the fourth byte of
/// the response. A failed exchange gives no strength but its failure, so
/// that it is never taken for a reading of zero.
pub fn read_peak(response: &Result<[u8; 256], TimerError>) -> (peak: Result<u32, TimerError>)
    ensures
        peak == match *response {
            Ok(buffer) => Ok::<u32, TimerError>(buffer@[3] as u32),
            Err(e) => Err::<u32, TimerError>(e),
        },
        peak is Ok <==> *response is Ok,
{
    match response {
        Ok(buffer) => Ok(buffer[3] as u32),
        Err(e) => Err(e.clone()),
    }
}

} // verus!
