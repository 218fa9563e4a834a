//! The worker's decisions. The worker alone owns the counter, the race
//! context and the detector; it takes one command or one hardware response
//! at a time and answers with the effect to carry out. Waiting on the two
//! sources and carrying out the effects is the caller's part.

use vstd::prelude::*;
use crate::detector::{DetectorModel, DetectorState, PeakEvent, THRESHOLD};
use crate::error::TimerError;
use crate::protocol::{RawSample, Request};
use crate::records::{post_content, post_title, CreateNode, CreatePost};
use crate::timestamp::be_bytes;

verus! {

/// The race that is running: its row in the store and the time it started.
#[derive(Clone, Copy, Debug, PartialEq, Eq, Structural)]
pub struct RaceContext {
    pub race_id: i32,
    pub start: u64,
}

/// What a control caller asks of the worker. The reply to `GetCount`
/// travels back on a channel that the caller of the worker holds.
#[derive(Clone, Copy, Debug, PartialEq, Eq, Structural)]
pub enum Command {
    Increment,
    GetCount,
    StartRace { time: u64, race_id: i32 },
    StopRace,
}

/// What the caller carries out after a step of the worker.
#[derive(Clone, Debug)]
pub enum Effect {
    /// Nothing.
    Idle,
    /// Store this placeholder post.
    InsertPost(CreatePost),
    /// Answer the pending `GetCount` with this count.
    Reply(u32),
    /// Store this crossing, and log or broadcast it.
    InsertNode(CreateNode),
    /// Log this failure of the link; the loop goes on.
    Report(TimerError),
}

/// An effect as plain values.
pub enum EffectModel {
    Idle,
    InsertPost { title: Seq<char>, content: Seq<char> },
    Reply(u32),
    InsertNode { peak: u32, time: Seq<u8>, duration_ns: u64, race_id: i32 },
    Report(TimerError),
}

impl View for Effect {
    type V = EffectModel;

    open spec fn view(&self) -> EffectModel {
        match *self {
            Effect::Idle => EffectModel::Idle,
            Effect::InsertPost(post) => EffectModel::InsertPost {
                title: post.title@,
                content: post.content@,
            },
            Effect::Reply(count) => EffectModel::Reply(count),
            Effect::InsertNode(node) => EffectModel::InsertNode {
                peak: node.peak,
                time: node.time@,
                duration_ns: node.duration_ns,
                race_id: node.race_id,
            },
            Effect::Report(e) => EffectModel::Report(e),
        }
    }
}

/// The worker's state as plain values.
pub struct WorkerModel {
    pub counter: u32,
    /// The running race, if any. Polling goes on only while it is set.
    pub race: Option<RaceContext>,
    pub detector: DetectorModel,
    /// The race for which a hardware request is under way, if one is.
    pub in_flight: Option<RaceContext>,
}

/// Nanoseconds from `start` to `now`, and zero when `now` is the earlier.
pub open spec fn nanos_since(start: u64, now: u64) -> u64 {
    if now >= start {
        (now - start) as u64
    } else {
        0
    }
}

/// The crossing that is stored for an event reported at `now` in a race.
pub open spec fn node_effect(event: PeakEvent, race: RaceContext, now: u64) -> EffectModel {
    EffectModel::InsertNode {
        peak: event.peak,
        time: be_bytes(nanos_since(race.start, now)),
        duration_ns: event.duration_ns,
        race_id: race.race_id,
    }
}

impl WorkerModel {
    /// The counter after one increment. It starts again at zero after the
    /// largest value.
    pub open spec fn bumped(self) -> u32 {
        if self.counter == u32::MAX {
            0
        } else {
            (self.counter + 1) as u32
        }
    }

    /// The state after a command.
    pub open spec fn after_command(self, command: Command) -> WorkerModel {
        match command {
            Command::Increment => WorkerModel { counter: self.bumped(), ..self },
            Command::GetCount => self,
            Command::StartRace { time, race_id } => WorkerModel {
                race: Some(RaceContext { race_id, start: time }),
                ..self
            },
            Command::StopRace => WorkerModel { race: None, ..self },
        }
    }

    /// The effect of a command.
    pub open spec fn command_effect(self, command: Command) -> EffectModel {
        match command {
            Command::Increment => EffectModel::InsertPost {
                title: post_title(self.bumped()),
                content: post_content(self.bumped()),
            },
            Command::GetCount => EffectModel::Reply(self.counter),
            Command::StartRace { .. } => EffectModel::Idle,
            Command::StopRace => EffectModel::Idle,
        }
    }

    /// Whether a hardware request is issued now: a race is running and no
    /// request is under way.
    pub open spec fn polls(self) -> bool {
        self.race is Some && self.in_flight is None
    }

    /// The state after the request of `next_request`.
    pub open spec fn after_poll(self) -> WorkerModel {
        if self.polls() {
            WorkerModel { in_flight: self.race, ..self }
        } else {
            self
        }
    }

    /// Whether the response that comes in now is used: a request is under
    /// way and the race it was issued for is still the running one.
    pub open spec fn accepts(self) -> bool {
        self.in_flight is Some && self.in_flight == self.race
    }

    /// The state after a response that arrives at `now`. The request is no
    /// longer under way; the detector sees the sample only when the response
    /// is used and carries one.
    pub open spec fn after_response(
        self,
        response: Result<RawSample, TimerError>,
        now: u64,
    ) -> WorkerModel {
        match response {
            Ok(sample) => if self.accepts() {
                WorkerModel {
                    detector: self.detector.next(sample.rssi as u32, now),
                    in_flight: None,
                    ..self
                }
            } else {
                WorkerModel { in_flight: None, ..self }
            },
            Err(_) => WorkerModel { in_flight: None, ..self },
        }
    }

    /// The effect of a response that arrives at `now`.
    pub open spec fn response_effect(
        self,
        response: Result<RawSample, TimerError>,
        now: u64,
    ) -> EffectModel {
        match response {
            Ok(sample) => if self.accepts() {
                match self.detector.event(sample.rssi as u32, now) {
                    Some(event) => node_effect(event, self.race.unwrap(), now),
                    None => EffectModel::Idle,
                }
            } else {
                EffectModel::Idle
            },
            Err(e) => EffectModel::Report(e),
        }
    }
}

/// Starting a race and stopping it at once stores no crossing, and leaves
/// no race running and nothing to poll, whatever the state before.
pub proof fn lemma_start_then_stop_stores_nothing(w: WorkerModel, time: u64, race_id: i32)
    ensures
        ({
            let start = Command::StartRace { time, race_id };
            let started = w.after_command(start);
            let stopped = started.after_command(Command::StopRace);
            &&& !(w.command_effect(start) is InsertNode)
            &&& !(started.command_effect(Command::StopRace) is InsertNode)
            &&& stopped.race is None
            &&& !stopped.polls()
            &&& stopped.detector == w.detector
            &&& stopped.counter == w.counter
        }),
{
}

/// No command stores a crossing, and a response stores one only while a
/// race is running, for that race, and only for an event of the detector.
pub proof fn lemma_node_only_during_race(
    w: WorkerModel,
    command: Command,
    response: Result<RawSample, TimerError>,
    now: u64,
)
    ensures
        !(w.command_effect(command) is InsertNode),
        w.response_effect(response, now) matches EffectModel::InsertNode {
            peak,
            race_id,
            ..
        } ==> {
            &&& w.race matches Some(race)
            &&& race.race_id == race_id
            &&& response matches Ok(sample)
            &&& w.detector.event(sample.rssi as u32, now) matches Some(event)
            &&& event.peak == peak
        },
        w.race is None ==> !(w.response_effect(response, now) is InsertNode) && w.after_response(
            response,
            now,
        ).detector == w.detector,
{
}

/// At most one hardware request is under way: once one is issued, none is
/// issued again before its response has come in; and a failed response
/// leaves the detector as it was.
pub proof fn lemma_one_request_in_flight(
    w: WorkerModel,
    command: Command,
    response: Result<RawSample, TimerError>,
    now: u64,
)
    ensures
        !w.after_poll().polls(),
        w.polls() ==> !w.after_poll().after_command(command).polls(),
        w.after_response(response, now).in_flight is None,
        response is Err ==> w.after_response(response, now).detector == w.detector,
{
}

/// The worker's state.
#[derive(Clone, Copy, Debug)]
pub struct WorkerState {
    counter: u32,
    race: Option<RaceContext>,
    detector: DetectorState,
    in_flight: Option<RaceContext>,
}

impl View for WorkerState {
    type V = WorkerModel;

    closed spec fn view(&self) -> WorkerModel {
        WorkerModel {
            counter: self.counter,
            race: self.race,
            detector: self.detector@,
            in_flight: self.in_flight,
        }
    }
}

impl WorkerState {
    /// The detector's threshold is the fixed one.
    pub open spec fn wf(self) -> bool {
        self@.detector.threshold == THRESHOLD
    }

    /// A worker at startup: counter at zero, no race, a detector that has
    /// seen nothing, and no request under way.
    pub fn new(now: u64) -> (worker: WorkerState)
        ensures
            worker.wf(),
            worker@ == (WorkerModel {
                counter: 0,
                race: None,
                detector: DetectorModel { last_peak: 0, last_peak_time: now, threshold: THRESHOLD },
                in_flight: None,
            }),
    {
        WorkerState { counter: 0, race: None, detector: DetectorState::new(now), in_flight: None }
    }

    /// The counter.
    pub fn counter(&self) -> (count: u32)
        ensures
            count == self@.counter,
    {
        self.counter
    }

    /// The running race, if any.
    pub fn race(&self) -> (race: Option<RaceContext>)
        ensures
            race == self@.race,
    {
        self.race
    }

    /// Whether polling is enabled: a race is running.
    pub fn is_listening(&self) -> (listening: bool)
        ensures
            listening == self@.race is Some,
    {
        self.race.is_some()
    }

    /// The last peak that the detector recorded; zero when there is none.
    pub fn last_peak(&self) -> (peak: u32)
        ensures
            peak == self@.detector.last_peak,
    {
        self.detector.last_peak()
    }

    /// Takes one command and says what to carry out for it.
    pub fn handle_command(&mut self, command: Command) -> (effect: Effect)
        ensures
            final(self)@ == old(self)@.after_command(command),
            effect@ == old(self)@.command_effect(command),
            old(self).wf() ==> final(self).wf(),
    {
        match command {
            Command::Increment => {
                self.counter = self.counter.wrapping_add(1);
                Effect::InsertPost(CreatePost::placeholder(self.counter))
            },
            Command::GetCount => Effect::Reply(self.counter),
            Command::StartRace { time, race_id } => {
                self.race = Some(RaceContext { race_id, start: time });
                Effect::Idle
            },
            Command::StopRace => {
                self.race = None;
                Effect::Idle
            },
        }
    }

    /// The hardware request to issue now, if any. A request is issued only
    /// while a race is running and none is under way, and it is always the
    /// one for a sample.
    pub fn next_request(&mut self) -> (request: Option<Request>)
        ensures
            final(self)@ == old(self)@.after_poll(),
            request == if old(self)@.polls() {
                Some(Request::Sample)
            } else {
                None
            },
            old(self).wf() ==> final(self).wf(),
    {
        if self.race.is_some() && self.in_flight.is_none() {
            self.in_flight = self.race;
            Some(Request::Sample)
        } else {
            None
        }
    }

    /// Takes the response to the request under way, which arrived at `now`,
    /// and says what to carry out for it. A response for a race that is no
    /// longer the running one is dropped; a failure is reported and leaves
    /// the detector as it was.
    pub fn handle_response(&mut self, response: Result<RawSample, TimerError>, now: u64) -> (effect:
        Effect)
        ensures
            final(self)@ == old(self)@.after_response(response, now),
            effect@ == old(self)@.response_effect(response, now),
            old(self).wf() ==> final(self).wf(),
    {
        let issued = self.in_flight;
        self.in_flight = None;
        match response {
            Ok(sample) => {
                match (issued, self.race) {
                    (Some(then), Some(race)) => {
                        if then.race_id == race.race_id && then.start == race.start {
                            match self.detector.observe(sample.rssi as u32, now) {
                                Some(event) => {
                                    let elapsed: u64 = now.saturating_sub(race.start);
                                    Effect::InsertNode(
                                        CreateNode::from_event(event, elapsed, race.race_id),
                                    )
                                },
                                None => Effect::Idle,
                            }
                        } else {
                            Effect::Idle
                        }
                    },
                    _ => Effect::Idle,
                }
            },
            Err(e) => Effect::Report(e),
        }
    }
}

} // verus!
