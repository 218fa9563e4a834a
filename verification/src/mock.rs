//! Stand-ins for the hardware: a serial port that never has data, and
//! readings drawn at random.

use rand::Rng;
use vstd::prelude::*;

verus! {

/// `std::io::Error`, carried through as it is: nothing is read out of it.
#[verifier::external_type_specification]
#[verifier::external_body]
pub struct ExIoError(std::io::Error);

/// A serial port that does nothing but can be created.
#[derive(Clone, Copy, Debug)]
pub struct MockSerialPort;

impl MockSerialPort {
    /// Reads nothing: the buffer stays as it is and the length is zero.
    pub fn read(&mut self, buf: &mut [u8]) -> (read: Result<usize, std::io::Error>)
        ensures
            read == Ok::<usize, std::io::Error>(0),
            final(buf)@ == old(buf)@,
    {
        Ok(0)
    }

    /// Takes every byte offered.
    pub fn write(&mut self, buf: &[u8]) -> (written: Result<usize, std::io::Error>)
        ensures
            written == Ok::<usize, std::io::Error>(buf@.len() as usize),
    {
        Ok(buf.len())
    }

    /// Has nothing to flush.
    pub fn flush(&mut self) -> (flushed: Result<(), std::io::Error>)
        ensures
            flushed is Ok,
    {
        Ok(())
    }
}

/// `rand::Rng::gen_range` on the generator of `rand::thread_rng`, for a
/// half-open range of `u64`. The range must not be empty, or the call
/// panics. The contract claims only what holds of every draw: the number
/// lies in the range. It also takes for granted that the system can seed
/// the generator.
#[verifier::external_body]
fn random_in(low: u64, high: u64) -> (drawn: u64)
    requires
        low < high,
    ensures
        low <= drawn < high,
{
    rand::thread_rng().gen_range(low..high)
}

/// Lowest signal strength of a mock reading.
pub const MOCK_PEAK_MIN: u32 = 50;

/// Bound above the signal strengths of mock readings.
pub const MOCK_PEAK_END: u32 = 100;

/// Shortest wait before a mock reading, in seconds.
pub const MOCK_DELAY_MIN: u64 = 1;

/// Bound above the waits before mock readings, in seconds.
pub const MOCK_DELAY_END: u64 = 5;

/// A reading of the mock hardware: the signal strength, and the time that
/// the caller lets pass before it hands the reading on.
#[derive(Clone, Copy, Debug, PartialEq, Eq, Structural)]
pub struct MockReading {
    pub peak: u32,
    pub delay_secs: u64,
}

/// Draws a mock reading: a signal strength from 50 up to but not including
/// 100, after a wait of one to four seconds.
pub fn mock_reading() -> (reading: MockReading)
    ensures
        MOCK_PEAK_MIN <= reading.peak < MOCK_PEAK_END,
        MOCK_DELAY_MIN <= reading.delay_secs < MOCK_DELAY_END,
{
    let peak: u64 = random_in(MOCK_PEAK_MIN as u64, MOCK_PEAK_END as u64);
    let delay_secs: u64 = random_in(MOCK_DELAY_MIN, MOCK_DELAY_END);
    MockReading { peak: peak as u32, delay_secs }
}

} // verus!
