//! The pacing of one sensor: from its start instant on, one value every sampling period.
//! Instants that are already past are emitted at once (history); instants still ahead
//! of the clock are waited for (live). The sensor stops at the first instant that is
//! neither behind the clock nor before the end of the simulation.
//!
//! The emitter decides; its driver reads the clock, waits, asks the generator for the
//! value and hands the payload on.

use vstd::prelude::*;
use crate::clock::{shift_timestamp, shifted};
use crate::generator::GenerationResult;
use crate::model::{clone_pairs, pairs_view, Sensor};
use crate::output::SensorPayload;

verus! {

/// What an emitter does next.
#[derive(Debug, Clone, Copy, PartialEq, Eq)]
pub enum EmitterStep {
    /// Emit the value of the instant `timestamp` now.
    Emit { timestamp: i128 },
    /// Wait `nanos` nanoseconds, then emit the value of the instant `timestamp`.
    Wait { nanos: u128, timestamp: i128 },
    /// The sensor is done.
    Finished,
}

/// Why an emitter cannot move on to its next instant.
#[derive(Debug, Clone, Copy, PartialEq, Eq)]
pub enum EmitterError {
    /// The next instant falls outside the instants that chrono can hold, or the sampling
    /// period is shorter than a `TimeDelta` can be.
    OutOfRange,
}

/// The next step of an emitter at instant `current`, ending at `end_at`, when the clock
/// reads `now`.
pub open spec fn next_step(current: i128, end_at: i128, finished: bool, now: i128) -> EmitterStep {
    if finished || !(current < now || current < end_at) {
        EmitterStep::Finished
    } else if current > now {
        EmitterStep::Wait { nanos: (current - now) as u128, timestamp: current }
    } else {
        EmitterStep::Emit { timestamp: current }
    }
}

/// Nanoseconds in a millisecond.
pub const NANOS_PER_MILLI: i128 = 1000000i128;

/// The sampling period in nanoseconds of a sampling rate given in milliseconds.
pub open spec fn period_nanos(sampling_rate: i64) -> int {
    sampling_rate * NANOS_PER_MILLI
}

/// How many nanoseconds lie from `earlier` to `later`; the difference of two `i128`s always
/// fits in a `u128`.
fn gap(earlier: i128, later: i128) -> (r: u128)
    requires
        earlier < later,
    ensures
        r == later - earlier,
{
    if earlier < 0 && later >= 0 {
        let below: u128 = (0 - (earlier + 1)) as u128;
        (later as u128) + below + 1
    } else {
        (later - earlier) as u128
    }
}

/// The state of an emitter.
pub struct EmitterView {
    pub device_path: Seq<char>,
    pub sensor_id: u128,
    pub name: Seq<char>,
    pub metadata: Seq<(Seq<char>, Seq<char>)>,
    pub value_generator: usize,
    /// The time between two values, in milliseconds.
    pub sampling_rate: i64,
    pub start_at: i128,
    pub end_at: i128,
    /// The instant of the next value.
    pub current: i128,
    /// How many times the emitter has moved on.
    pub steps: nat,
    /// Whether the sensor is done.
    pub finished: bool,
}

impl EmitterView {
    /// The current instant lies `steps` sampling periods after the start.
    pub open spec fn wf(self) -> bool {
        self.current == self.start_at + self.steps * period_nanos(self.sampling_rate)
    }
}

/// The emitter of one sensor.
pub struct SensorEmitter {
    device_path: String,
    sensor_id: u128,
    name: String,
    metadata: Vec<(String, String)>,
    value_generator: usize,
    sampling_rate: i64,
    start_at: i128,
    end_at: i128,
    position: Position,
    finished: bool,
}

/// Where an emitter stands: the instant of its next value, and how many times it has moved on.
struct Position {
    instant: i128,
    steps: Ghost<nat>,
}

impl SensorEmitter {
    /// The current instant lies a whole number of sampling periods after the start.
    #[verifier::type_invariant]
    closed spec fn periodic(self) -> bool {
        self@.wf()
    }
}

impl View for SensorEmitter {
    type V = EmitterView;

    closed spec fn view(&self) -> EmitterView {
        EmitterView {
            device_path: self.device_path@,
            sensor_id: self.sensor_id,
            name: self.name@,
            metadata: pairs_view(self.metadata@),
            value_generator: self.value_generator,
            sampling_rate: self.sampling_rate,
            start_at: self.start_at,
            end_at: self.end_at,
            current: self.position.instant,
            steps: self.position.steps@,
            finished: self.finished,
        }
    }
}

/// The emitter of a sensor of the device at `device_path`, from `start_at` to `end_at`.
pub fn sensor_emitter(device_path: String, sensor: Sensor, start_at: i128, end_at: i128) -> (r:
    SensorEmitter)
    ensures
        r@.wf(),
        r@.device_path == device_path@,
        r@.sensor_id == sensor.id,
        r@.name == sensor.name@,
        r@.metadata == pairs_view(sensor.metadata@),
        r@.value_generator == sensor.value_generator,
        r@.sampling_rate == sensor.sampling_rate,
        r@.start_at == start_at,
        r@.end_at == end_at,
        r@.current == start_at,
        r@.steps == 0,
        !r@.finished,
{
    SensorEmitter {
        device_path,
        sensor_id: sensor.id,
        name: sensor.name,
        metadata: sensor.metadata,
        value_generator: sensor.value_generator,
        sampling_rate: sensor.sampling_rate,
        start_at,
        end_at,
        position: Position { instant: start_at, steps: Ghost(0) },
        finished: false,
    }
}

impl SensorEmitter {
    /// Decides the next step when the clock reads `now`; a `Finished` step is final.
    pub fn decide(&mut self, now: i128) -> (r: EmitterStep)
        ensures
            r == next_step(old(self)@.current, old(self)@.end_at, old(self)@.finished, now),
            final(self)@ == (EmitterView { finished: r is Finished, ..old(self)@ }),
            final(self)@.wf(),
    {
        proof {
            use_type_invariant(&*self);
        }
        let current = self.position.instant;
        let r = if self.finished || !(current < now || current < self.end_at) {
            self.finished = true;
            EmitterStep::Finished
        } else if current > now {
            EmitterStep::Wait { nanos: gap(now, current), timestamp: current }
        } else {
            EmitterStep::Emit { timestamp: current }
        };
        proof {
            use_type_invariant(&*self);
        }
        r
    }

    /// The payload of the current instant with the value that the generator produced.
    pub fn payload(&self, value: GenerationResult) -> (r: SensorPayload)
        ensures
            r.id == self@.sensor_id,
            r.device_path@ == self@.device_path,
            r.name@ == self@.name,
            pairs_view(r.metadata@) == self@.metadata,
            r.timestamp == self@.current,
            r.value == value,
    {
        SensorPayload {
            id: self.sensor_id,
            device_path: self.device_path.clone(),
            name: self.name.clone(),
            metadata: clone_pairs(&self.metadata),
            timestamp: self.position.instant,
            value,
        }
    }

    /// Moves on to the next instant, one sampling period later; refused where the period is
    /// shorter than a `TimeDelta` can be (`-i64::MAX` milliseconds) or the next instant falls
    /// outside the instants that chrono can hold.
    pub fn advance(&mut self) -> (r: Result<(), EmitterError>)
        ensures
            final(self)@.wf(),
            match shifted(old(self)@.current as int, period_nanos(old(self)@.sampling_rate)) {
                Some(next) => if old(self)@.sampling_rate >= -i64::MAX {
                    &&& r is Ok
                    &&& final(self)@ == (EmitterView {
                        current: next,
                        steps: old(self)@.steps + 1,
                        ..old(self)@
                    })
                } else {
                    r is Err && final(self)@ == old(self)@
                },
                None => r is Err && final(self)@ == old(self)@,
            },
            r is Ok ==> final(self)@.current == old(self)@.current + old(self)@.sampling_rate
                * 1_000_000,
            r is Err ==> final(self)@ == old(self)@,
    {
        proof {
            use_type_invariant(&*self);
        }
        if self.sampling_rate < -i64::MAX {
            return Err(EmitterError::OutOfRange);
        }
        let period: i128 = (self.sampling_rate as i128) * NANOS_PER_MILLI;
        match shift_timestamp(self.position.instant, period) {
            Some(next) => {
                let ghost steps = self.position.steps@;
                proof {
                    let p = period_nanos(self.sampling_rate);
                    assert((steps + 1) * p == steps * p + p) by (nonlinear_arith);
                }
                self.position = Position { instant: next, steps: Ghost(steps + 1) };
                proof {
                    use_type_invariant(&*self);
                }
                Ok(())
            },
            None => Err(EmitterError::OutOfRange),
        }
    }

    /// The path of the device of the sensor.
    pub fn device_path(&self) -> (r: &String)
        ensures
            r@ == self@.device_path,
    {
        &self.device_path
    }

    /// The name of the sensor.
    pub fn name(&self) -> (r: &String)
        ensures
            r@ == self@.name,
    {
        &self.name
    }

    /// The instant of the next value.
    pub fn current(&self) -> (r: i128)
        ensures
            r == self@.current,
    {
        self.position.instant
    }

    /// The handle, in the plugin registry, of the generator of the sensor.
    pub fn value_generator(&self) -> (r: usize)
        ensures
            r == self@.value_generator,
    {
        self.value_generator
    }
}

/// A sampling period is the sampling rate in milliseconds, a million nanoseconds each: no
/// part of it is rounded away.
pub proof fn law_period_is_the_rate_in_nanoseconds(sampling_rate: i64)
    ensures
        period_nanos(sampling_rate) == sampling_rate * 1_000_000,
        sampling_rate > 0 ==> period_nanos(sampling_rate) > 0,
        sampling_rate < 0 ==> period_nanos(sampling_rate) < 0,
{
}

/// After `n` moves an emitter stands `n * sampling_rate` milliseconds after its start.
pub proof fn law_moves_add_whole_periods(v: EmitterView)
    requires
        v.wf(),
    ensures
        v.current - v.start_at == v.steps * (v.sampling_rate * 1_000_000),
{
}

/// A finished emitter stays finished, whatever the clock reads.
pub proof fn law_finished_is_final(current: i128, end_at: i128, now: i128)
    ensures
        next_step(current, end_at, true, now) == EmitterStep::Finished,
{
}

/// An emitter only emits instants that lie behind the clock or before the end, and the
/// instant it emits is its current one: it waits exactly until that instant when it is
/// still ahead of the clock.
pub proof fn law_emits_only_due_instants(current: i128, end_at: i128, finished: bool, now: i128)
    ensures
        match next_step(current, end_at, finished, now) {
            EmitterStep::Emit { timestamp } => timestamp == current && timestamp <= now,
            EmitterStep::Wait { nanos, timestamp } => timestamp == current && now < timestamp
                < end_at && nanos == timestamp - now && nanos > 0,
            EmitterStep::Finished => finished || (now <= current && end_at <= current),
        },
{
}

/// The instants of an emitter form an arithmetic progression: after `n` moves, the
/// current instant is `n` sampling periods after the start.
pub proof fn law_instants_are_periodic(v: EmitterView)
    requires
        v.wf(),
    ensures
        v.current == v.start_at + v.steps * period_nanos(v.sampling_rate),
{
}

} // verus!
