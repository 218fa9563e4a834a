//! The peak detector: a single-pass filter that keeps the last settled
//! signal strength and the time it was taken, and reports an event when a
//! sample leaves the band around it or when a second passes without one.

use vstd::prelude::*;

verus! {

/// Half-width of the hysteresis band around the last peak.
pub const THRESHOLD: u32 = 3;

/// Nanoseconds without an event after which a heartbeat is due.
pub const HEARTBEAT_NANOS: u64 = 1_000_000_000;

/// Why an event was reported.
#[derive(Clone, Copy, Debug, PartialEq, Eq, Structural)]
pub enum EventKind {
    /// A sample fell outside the band around the last peak.
    Crossing,
    /// A second went by with every sample inside the band.
    Heartbeat,
}

/// A settled peak: the signal strength that held, and for how long.
#[derive(Clone, Copy, Debug, PartialEq, Eq, Structural)]
pub struct PeakEvent {
    pub peak: u32,
    pub duration_ns: u64,
    pub kind: EventKind,
}

/// What a detector holds, as plain values. A `last_peak` of zero means that
/// no sample has been taken in yet.
pub struct DetectorModel {
    pub last_peak: u32,
    pub last_peak_time: u64,
    pub threshold: u32,
}

impl DetectorModel {
    /// Whether a peak has been recorded.
    pub open spec fn is_set(self) -> bool {
        self.last_peak != 0
    }

    /// Lower end of the band, which stops at zero.
    pub open spec fn band_low(self) -> int {
        if self.last_peak >= self.threshold {
            self.last_peak - self.threshold
        } else {
            0
        }
    }

    /// Upper end of the band.
    pub open spec fn band_high(self) -> int {
        self.last_peak + self.threshold
    }

    /// Whether a sample lies inside the band around the last peak.
    pub open spec fn in_band(self, sample: u32) -> bool {
        self.band_low() <= sample <= self.band_high()
    }

    /// Nanoseconds from the last reset of the timer to `now`; zero when the
    /// clock reads earlier than the reset.
    pub open spec fn elapsed(self, now: u64) -> int {
        if now >= self.last_peak_time {
            now - self.last_peak_time
        } else {
            0
        }
    }

    /// Whether a second or more has gone by since the timer was reset.
    pub open spec fn heartbeat_due(self, now: u64) -> bool {
        self.elapsed(now) >= HEARTBEAT_NANOS
    }

    /// The event that a sample taken at `now` gives rise to, if any.
    pub open spec fn event(self, sample: u32, now: u64) -> Option<PeakEvent> {
        if !self.is_set() {
            None
        } else if !self.in_band(sample) {
            Some(
                PeakEvent {
                    peak: self.last_peak,
                    duration_ns: self.elapsed(now) as u64,
                    kind: EventKind::Crossing,
                },
            )
        } else if self.heartbeat_due(now) {
            Some(
                PeakEvent {
                    peak: self.last_peak,
                    duration_ns: self.elapsed(now) as u64,
                    kind: EventKind::Heartbeat,
                },
            )
        } else {
            None
        }
    }

    /// The detector after a sample taken at `now`.
    pub open spec fn next(self, sample: u32, now: u64) -> DetectorModel {
        if !self.is_set() || !self.in_band(sample) {
            DetectorModel { last_peak: sample, last_peak_time: now, threshold: self.threshold }
        } else if self.heartbeat_due(now) {
            DetectorModel { last_peak_time: now, ..self }
        } else {
            self
        }
    }
}

/// Once a peak is recorded, a sample gives rise to an event exactly when it
/// falls outside the band around that peak or at least a second has gone by
/// since the last event; before that, the first sample only records itself.
pub proof fn lemma_event_fires_iff(d: DetectorModel, sample: u32, now: u64)
    ensures
        d.is_set() ==> (d.event(sample, now) is Some <==> !d.in_band(sample) || d.heartbeat_due(
            now,
        )),
        !d.is_set() ==> d.event(sample, now) is None && d.next(sample, now).last_peak == sample,
        d.threshold == 3 && d.is_set() ==> (d.in_band(sample) <==> d.last_peak - 3 <= sample
            <= d.last_peak + 3),
{
}

/// Every event carries the peak that held before the sample, and resets the
/// timer; a sample that gives none leaves a recorded peak and its timer as
/// they were.
pub proof fn lemma_event_resets_timer(d: DetectorModel, sample: u32, now: u64)
    ensures
        d.event(sample, now) matches Some(e) ==> e.peak == d.last_peak && e.duration_ns
            == d.elapsed(now) && d.next(sample, now).last_peak_time == now,
        d.event(sample, now) matches Some(e) ==> (e.kind == EventKind::Crossing <==> !d.in_band(
            sample,
        )),
        d.event(sample, now) is None && d.is_set() ==> d.next(sample, now) == d,
        d.next(sample, now).threshold == d.threshold,
{
}

/// The detector's state. Only the last peak and the time of the last reset
/// are kept, whatever the number of samples seen.
#[derive(Clone, Copy, Debug)]
pub struct DetectorState {
    last_peak: u32,
    last_peak_time: u64,
    threshold: u32,
}

impl View for DetectorState {
    type V = DetectorModel;

    closed spec fn view(&self) -> DetectorModel {
        DetectorModel {
            last_peak: self.last_peak,
            last_peak_time: self.last_peak_time,
            threshold: self.threshold,
        }
    }
}

impl DetectorState {
    /// The threshold is the fixed one.
    pub open spec fn wf(self) -> bool {
        self@.threshold == THRESHOLD
    }

    /// A detector that has seen no sample. `now` starts its timer.
    pub fn new(now: u64) -> (d: DetectorState)
        ensures
            d.wf(),
            d@ == (DetectorModel { last_peak: 0, last_peak_time: now, threshold: THRESHOLD }),
            !d@.is_set(),
    {
        DetectorState { last_peak: 0, last_peak_time: now, threshold: THRESHOLD }
    }

    /// The last peak recorded; zero when there is none.
    pub fn last_peak(&self) -> (p: u32)
        ensures
            p == self@.last_peak,
    {
        self.last_peak
    }

    /// The time at which the timer was last reset.
    pub fn last_peak_time(&self) -> (t: u64)
        ensures
            t == self@.last_peak_time,
    {
        self.last_peak_time
    }

    /// The half-width of the band.
    pub fn threshold(&self) -> (t: u32)
        ensures
            t == self@.threshold,
    {
        self.threshold
    }

    /// Takes in one sample read at `now`, and reports the event it gives
    /// rise to.
    pub fn observe(&mut self, sample: u32, now: u64) -> (event: Option<PeakEvent>)
        ensures
            final(self)@ == old(self)@.next(sample, now),
            event == old(self)@.event(sample, now),
            old(self)@.is_set() ==> (event is Some <==> !old(self)@.in_band(sample) || old(
                self,
            )@.heartbeat_due(now)),
            !old(self)@.is_set() ==> event is None,
            old(self).wf() ==> final(self).wf(),
    {
        if self.last_peak == 0 {
            self.last_peak = sample;
            self.last_peak_time = now;
            return None;
        }
        let elapsed: u64 = now.saturating_sub(self.last_peak_time);
        let low: u32 = self.last_peak.saturating_sub(self.threshold);
        let high: u32 = self.last_peak.saturating_add(self.threshold);
        if sample < low || sample > high {
            let event = PeakEvent {
                peak: self.last_peak,
                duration_ns: elapsed,
                kind: EventKind::Crossing,
            };
            self.last_peak = sample;
            self.last_peak_time = now;
            Some(event)
        } else if elapsed >= HEARTBEAT_NANOS {
            let event = PeakEvent {
                peak: self.last_peak,
                duration_ns: elapsed,
                kind: EventKind::Heartbeat,
            };
            self.last_peak_time = now;
            Some(event)
        } else {
            None
        }
    }
}

} // verus!
