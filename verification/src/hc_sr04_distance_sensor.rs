//! Measurement core for the HC-SR04 ultrasonic distance sensor.
//!
//! The sensor is commanded by a short pulse on its trigger pin; it then
//! raises its echo pin for as long as the sound is in flight.  A measurement
//! therefore has three timed parts: a fixed-width trigger pulse, a bounded
//! wait for the echo pin to rise, and a bounded wait for it to fall again.
//! The width of the echo pulse, counted in ticks of a 4 microsecond hardware
//! counter, is the round-trip time of flight and converts to a distance by
//! fixed-point integer arithmetic.
//!
//! This module holds the device-independent core: the three-outcome result
//! type, the tick-to-distance conversion, and the wait logic as an explicit
//! state machine.  Each poll of the hardware — one read of the echo pin and
//! of the counter — is one [`PollSample`]; [`measure_step`] takes the machine
//! through one poll and says when the counter must be restarted, and the
//! caller, who owns the pins and the counter, loops on it until the machine
//! is done.

use vstd::prelude::*;

verus! {

use vstd::arithmetic::div_mod::{
    lemma_div_is_ordered,
    lemma_fundamental_div_mod,
    lemma_mod_division_less_than_divisor,
};
use vstd::arithmetic::mul::lemma_mul_inequality;

/// Width of the trigger pulse in microseconds, from the sensor's datasheet.
pub const TRIGGER_PULSE_US: u32 = 10;

/// Ticks of the 4 microsecond counter to wait for the echo pin to rise
/// before giving the measurement up as unanswered: about 750 microseconds.
pub const RISE_TIMEOUT_TICKS: u16 = 188;

/// Ticks of the 4 microsecond counter to wait for the echo pin to fall
/// before declaring the target out of range: 100 milliseconds, which
/// corresponds to a distance of about 17 meters.
pub const FALL_TIMEOUT_TICKS: u16 = 25000;

/// Micrometers of one-way distance per counter tick: sound travels about
/// 13611 micrometers in 4 microseconds, halved for the round trip.
pub const UM_PER_TICK: u64 = 6805;

/// Micrometers per millimeter.
pub const UM_PER_MM: u64 = 1000;

/// A value of a distance measurement.  Holds the number of counter ticks
/// spent by the echo pin being high.
#[derive(Clone, Copy, Debug, PartialEq, Eq, Structural)]
pub struct Distance {
    /// Round-trip ticks; to get the one-way distance the conversions halve
    /// the speed of sound, not the tick count.
    pub ticks: u16,
}

/// The one-way distance in micrometers for a round-trip tick count.
pub open spec fn spec_to_um(ticks: u16) -> int {
    ticks * UM_PER_TICK
}

/// The one-way distance in millimeters: micrometers with truncating
/// division.
pub open spec fn spec_to_mm(ticks: u16) -> int {
    spec_to_um(ticks) / (UM_PER_MM as int)
}

impl Distance {
    /// Wraps a round-trip tick count.
    pub fn new(ticks: u16) -> (distance: Distance)
        ensures
            distance.ticks == ticks,
    {
        Distance { ticks }
    }

    /// Returns the distance in micrometers.
    pub fn to_um(&self) -> (um: u64)
        ensures
            um == spec_to_um(self.ticks),
    {
        let um: u64 = self.ticks as u64 * UM_PER_TICK;
        um
    }

    /// Returns the distance in millimeters, truncated.
    pub fn to_mm(&self) -> (mm: u64)
        ensures
            mm == spec_to_mm(self.ticks),
    {
        self.to_um() / UM_PER_MM
    }
}

/// A longer echo pulse never converts to a shorter distance: the millimeter
/// conversion is monotonically non-decreasing in the tick count.
pub proof fn lemma_to_mm_monotonic(ticks1: u16, ticks2: u16)
    requires
        ticks1 <= ticks2,
    ensures
        spec_to_mm(ticks1) <= spec_to_mm(ticks2),
{
    lemma_mul_inequality(ticks1 as int, ticks2 as int, UM_PER_TICK as int);
    lemma_div_is_ordered(spec_to_um(ticks1), spec_to_um(ticks2), UM_PER_MM as int);
}

/// The two conversions agree: the millimeter value is the micrometer value
/// with the sub-millimeter remainder truncated away, so it never exceeds the
/// micrometer value's millimeter equivalent and falls short of it by less
/// than one millimeter.
pub proof fn lemma_um_mm_consistent(ticks: u16)
    ensures
        spec_to_mm(ticks) * UM_PER_MM <= spec_to_um(ticks),
        spec_to_um(ticks) < spec_to_mm(ticks) * UM_PER_MM + UM_PER_MM,
{
    let um = spec_to_um(ticks);
    let d = UM_PER_MM as int;
    lemma_fundamental_div_mod(um, d);
    lemma_mod_division_less_than_divisor(um, d);
}

/// A measurement can come back with three states, which are as follows:
///
/// - `Measured(Distance)`: the measurement was successful, and its
///   [`Distance`] is included.
/// - `Infinity`: the echo pin was high for longer than the range window,
///   and we say the distance is too large.
/// - `Unknown`: after the trigger pulse the echo pin did not go high within
///   the response window, which means that the sensor did not react.
#[derive(Clone, Copy, Debug, PartialEq, Eq, Structural)]
pub enum DistanceMeasurement {
    Infinity,
    Unknown,
    Measured(Distance),
}

/// The timeout policy of a measurement, in counter ticks.  Each wait phase
/// carries its own deadline; [`RangerConfig::standard`] gives the values the
/// sensor's datasheet suggests.
#[derive(Clone, Copy, Debug, PartialEq, Eq, Structural)]
pub struct RangerConfig {
    /// Deadline for the echo pin to rise after the trigger pulse.
    pub rise_timeout_ticks: u16,
    /// Deadline for the echo pin to fall once it has risen.
    pub fall_timeout_ticks: u16,
}

impl RangerConfig {
    /// The datasheet policy: a 750 microsecond response window and a
    /// 100 millisecond range window.
    pub fn standard() -> (config: RangerConfig)
        ensures
            config.rise_timeout_ticks == RISE_TIMEOUT_TICKS,
            config.fall_timeout_ticks == FALL_TIMEOUT_TICKS,
    {
        RangerConfig {
            rise_timeout_ticks: RISE_TIMEOUT_TICKS,
            fall_timeout_ticks: FALL_TIMEOUT_TICKS,
        }
    }
}

/// Where a measurement stands.  A fresh measurement starts in
/// `AwaitingRise`, right after the trigger pulse and with the counter
/// restarted from zero; `Done` is terminal for the call.
#[derive(Clone, Copy, Debug, PartialEq, Eq, Structural)]
pub enum MeasurePhase {
    /// Waiting for the echo pin to go high.
    AwaitingRise,
    /// Waiting for the echo pin to go low again.
    AwaitingFall,
    /// The measurement has its outcome.
    Done(DistanceMeasurement),
}

/// What a step asks of the hardware counter.  The counter is restarted when
/// the echo pin rises, so that the measured width counts from the rising
/// edge and not from the trigger.
#[derive(Clone, Copy, Debug, PartialEq, Eq, Structural)]
pub enum CounterCommand {
    Keep,
    Reset,
}

/// One poll of the hardware: the level of the echo pin and the ticks on the
/// counter, read together.
#[derive(Clone, Copy, Debug, PartialEq, Eq, Structural)]
pub struct PollSample {
    /// The echo pin reads high.
    pub echo_high: bool,
    /// The counter value, counted from the start of the current wait phase.
    pub ticks: u16,
}

/// The decision table of the measurement: what one poll does to the phase,
/// and whether the counter must be restarted before the next poll.
///
/// While waiting for the rise, a high echo pin moves on to the fall wait —
/// with the counter restarted — whatever the counter says; otherwise the
/// measurement becomes `Unknown` once the counter passes the response
/// deadline.  While waiting for the fall, a low echo pin completes the
/// measurement with the ticks of this poll, whatever the counter says;
/// otherwise the measurement becomes `Infinity` once the counter passes the
/// range deadline.  A finished measurement stays as it is.
pub open spec fn spec_measure_step(
    config: RangerConfig,
    phase: MeasurePhase,
    sample: PollSample,
) -> (MeasurePhase, CounterCommand) {
    match phase {
        MeasurePhase::AwaitingRise => {
            if sample.echo_high {
                (MeasurePhase::AwaitingFall, CounterCommand::Reset)
            } else if sample.ticks > config.rise_timeout_ticks {
                (MeasurePhase::Done(DistanceMeasurement::Unknown), CounterCommand::Keep)
            } else {
                (MeasurePhase::AwaitingRise, CounterCommand::Keep)
            }
        },
        MeasurePhase::AwaitingFall => {
            if !sample.echo_high {
                (
                    MeasurePhase::Done(
                        DistanceMeasurement::Measured(Distance { ticks: sample.ticks }),
                    ),
                    CounterCommand::Keep,
                )
            } else if sample.ticks > config.fall_timeout_ticks {
                (MeasurePhase::Done(DistanceMeasurement::Infinity), CounterCommand::Keep)
            } else {
                (MeasurePhase::AwaitingFall, CounterCommand::Keep)
            }
        },
        MeasurePhase::Done(_) => (phase, CounterCommand::Keep),
    }
}

/// Takes the measurement through one poll of the echo pin and the counter.
pub fn measure_step(config: RangerConfig, phase: MeasurePhase, sample: PollSample) -> (step: (
    MeasurePhase,
    CounterCommand,
))
    ensures
        step == spec_measure_step(config, phase, sample),
{
    match phase {
        MeasurePhase::AwaitingRise => {
            if sample.echo_high {
                (MeasurePhase::AwaitingFall, CounterCommand::Reset)
            } else if sample.ticks > config.rise_timeout_ticks {
                (MeasurePhase::Done(DistanceMeasurement::Unknown), CounterCommand::Keep)
            } else {
                (MeasurePhase::AwaitingRise, CounterCommand::Keep)
            }
        },
        MeasurePhase::AwaitingFall => {
            if !sample.echo_high {
                (
                    MeasurePhase::Done(DistanceMeasurement::Measured(Distance::new(sample.ticks))),
                    CounterCommand::Keep,
                )
            } else if sample.ticks > config.fall_timeout_ticks {
                (MeasurePhase::Done(DistanceMeasurement::Infinity), CounterCommand::Keep)
            } else {
                (MeasurePhase::AwaitingFall, CounterCommand::Keep)
            }
        },
        MeasurePhase::Done(_) => (phase, CounterCommand::Keep),
    }
}

/// The phase after feeding a whole sequence of polls to the machine, first
/// poll first.
pub open spec fn spec_run_measurement(
    config: RangerConfig,
    phase: MeasurePhase,
    samples: Seq<PollSample>,
) -> MeasurePhase
    decreases samples.len(),
{
    if samples.len() == 0 {
        phase
    } else {
        spec_run_measurement(
            config,
            spec_measure_step(config, phase, samples[0]).0,
            samples.skip(1),
        )
    }
}

impl MeasurePhase {
    /// Whether the measurement has its outcome.
    pub fn is_done(&self) -> (done: bool)
        ensures
            done == (*self is Done),
    {
        match self {
            MeasurePhase::Done(_) => true,
            _ => false,
        }
    }
}

/// Runs the measurement over a recorded trace of polls, first poll first,
/// starting where a live measurement starts: right after the trigger pulse,
/// with the counter restarted and the rise wait ahead.
///
/// Returns the final phase together with the number of polls the machine
/// consumed: the consumed prefix alone already decides that phase, no
/// shorter prefix is decided, and polls past the first decision never
/// change it.
pub fn run_measurement(config: RangerConfig, samples: &Vec<PollSample>) -> (result: (
    MeasurePhase,
    usize,
))
    ensures
        result.1 <= samples@.len(),
        result.0 == spec_run_measurement(
            config,
            MeasurePhase::AwaitingRise,
            samples@.take(result.1 as int),
        ),
        result.0 == spec_run_measurement(config, MeasurePhase::AwaitingRise, samples@),
        forall|j: int|
            0 <= j < result.1 ==> !(spec_run_measurement(
                config,
                MeasurePhase::AwaitingRise,
                samples@.take(j),
            ) is Done),
        !(result.0 is Done) ==> result.1 == samples@.len(),
{
    let mut phase = MeasurePhase::AwaitingRise;
    let mut used: usize = 0;
    let mut done = false;
    while !done && used < samples.len()
        invariant
            used <= samples@.len(),
            phase == spec_run_measurement(
                config,
                MeasurePhase::AwaitingRise,
                samples@.take(used as int),
            ),
            done == (phase is Done),
            forall|j: int|
                0 <= j < used ==> !(spec_run_measurement(
                    config,
                    MeasurePhase::AwaitingRise,
                    samples@.take(j),
                ) is Done),
        decreases samples@.len() - used,
    {
        let sample = samples[used];
        let step = measure_step(config, phase, sample);
        proof {
            let prefix = samples@.take(used as int);
            let one = seq![samples@[used as int]];
            assert(samples@.take(used + 1) =~= prefix + one);
            lemma_run_append(config, MeasurePhase::AwaitingRise, prefix, one);
            assert(one.skip(1) =~= Seq::<PollSample>::empty());
            reveal_with_fuel(spec_run_measurement, 2);
            assert(spec_run_measurement(config, phase, one) == spec_measure_step(
                config,
                phase,
                sample,
            ).0);
        }
        phase = step.0;
        used = used + 1;
        done = match phase {
            MeasurePhase::Done(_) => true,
            _ => false,
        };
    }
    proof {
        if !done {
            assert(samples@.take(samples@.len() as int) =~= samples@);
        } else {
            assert(samples@ =~= samples@.take(used as int) + samples@.skip(used as int));
            lemma_run_append(
                config,
                MeasurePhase::AwaitingRise,
                samples@.take(used as int),
                samples@.skip(used as int),
            );
            match phase {
                MeasurePhase::Done(outcome) => {
                    lemma_done_absorbing(config, outcome, samples@.skip(used as int));
                },
                _ => {},
            }
        }
    }
    (phase, used)
}

/// Every poll in the trace read the echo pin low.
pub open spec fn all_low(samples: Seq<PollSample>) -> bool {
    forall|i: int| 0 <= i < samples.len() ==> !(#[trigger] samples[i]).echo_high
}

/// Every poll in the trace read the echo pin high.
pub open spec fn all_high(samples: Seq<PollSample>) -> bool {
    forall|i: int| 0 <= i < samples.len() ==> (#[trigger] samples[i]).echo_high
}

/// A finished measurement stays finished, whatever the hardware does next.
pub proof fn lemma_done_absorbing(
    config: RangerConfig,
    outcome: DistanceMeasurement,
    samples: Seq<PollSample>,
)
    ensures
        spec_run_measurement(config, MeasurePhase::Done(outcome), samples)
            == MeasurePhase::Done(outcome),
    decreases samples.len(),
{
    if samples.len() > 0 {
        lemma_done_absorbing(config, outcome, samples.skip(1));
    }
}

/// Feeding two traces one after the other is the same as feeding their
/// concatenation.
pub proof fn lemma_run_append(
    config: RangerConfig,
    phase: MeasurePhase,
    first: Seq<PollSample>,
    second: Seq<PollSample>,
)
    ensures
        spec_run_measurement(config, phase, first + second) == spec_run_measurement(
            config,
            spec_run_measurement(config, phase, first),
            second,
        ),
    decreases first.len(),
{
    if first.len() == 0 {
        assert(first + second =~= second);
    } else {
        assert((first + second)[0] == first[0]);
        assert((first + second).skip(1) =~= first.skip(1) + second);
        lemma_run_append(
            config,
            spec_measure_step(config, phase, first[0]).0,
            first.skip(1),
            second,
        );
    }
}

/// If the echo pin never rises, the measurement can only still be waiting
/// for the rise or have ended `Unknown` — never `Infinity` or `Measured`.
pub proof fn lemma_no_rise_never_measures(config: RangerConfig, samples: Seq<PollSample>)
    requires
        all_low(samples),
    ensures
        spec_run_measurement(config, MeasurePhase::AwaitingRise, samples)
            == MeasurePhase::AwaitingRise || spec_run_measurement(
            config,
            MeasurePhase::AwaitingRise,
            samples,
        ) == MeasurePhase::Done(DistanceMeasurement::Unknown),
    decreases samples.len(),
{
    if samples.len() > 0 {
        if samples[0].ticks > config.rise_timeout_ticks {
            lemma_done_absorbing(config, DistanceMeasurement::Unknown, samples.skip(1));
        } else {
            assert forall|i: int| 0 <= i < samples.skip(1).len() implies !(#[trigger] samples.skip(
                1,
            )[i]).echo_high by {
                assert(samples.skip(1)[i] == samples[i + 1]);
            }
            lemma_no_rise_never_measures(config, samples.skip(1));
        }
    }
}

/// If the echo pin never rises and some poll passes the response deadline,
/// the measurement ends `Unknown`.
pub proof fn lemma_rise_timeout_unknown(config: RangerConfig, samples: Seq<PollSample>)
    requires
        all_low(samples),
        exists|i: int|
            0 <= i < samples.len() && (#[trigger] samples[i]).ticks > config.rise_timeout_ticks,
    ensures
        spec_run_measurement(config, MeasurePhase::AwaitingRise, samples) == MeasurePhase::Done(
            DistanceMeasurement::Unknown,
        ),
    decreases samples.len(),
{
    if samples[0].ticks > config.rise_timeout_ticks {
        lemma_done_absorbing(config, DistanceMeasurement::Unknown, samples.skip(1));
    } else {
        let witness = choose|i: int|
            0 <= i < samples.len() && (#[trigger] samples[i]).ticks > config.rise_timeout_ticks;
        assert(witness >= 1);
        assert forall|i: int| 0 <= i < samples.skip(1).len() implies !(#[trigger] samples.skip(
            1,
        )[i]).echo_high by {
            assert(samples.skip(1)[i] == samples[i + 1]);
        }
        assert(samples.skip(1)[witness - 1] == samples[witness]);
        assert(
            0 <= witness - 1 < samples.skip(1).len() && samples.skip(1)[witness - 1].ticks
                > config.rise_timeout_ticks
        );
        lemma_rise_timeout_unknown(config, samples.skip(1));
    }
}

/// If the echo pin never falls once it has risen and some poll passes the
/// range deadline, the measurement ends `Infinity`.
pub proof fn lemma_fall_timeout_infinity(config: RangerConfig, samples: Seq<PollSample>)
    requires
        all_high(samples),
        exists|i: int|
            0 <= i < samples.len() && (#[trigger] samples[i]).ticks > config.fall_timeout_ticks,
    ensures
        spec_run_measurement(config, MeasurePhase::AwaitingFall, samples) == MeasurePhase::Done(
            DistanceMeasurement::Infinity,
        ),
    decreases samples.len(),
{
    if samples[0].ticks > config.fall_timeout_ticks {
        lemma_done_absorbing(config, DistanceMeasurement::Infinity, samples.skip(1));
    } else {
        let witness = choose|i: int|
            0 <= i < samples.len() && (#[trigger] samples[i]).ticks > config.fall_timeout_ticks;
        assert(witness >= 1);
        assert forall|i: int| 0 <= i < samples.skip(1).len() implies (#[trigger] samples.skip(
            1,
        )[i]).echo_high by {
            assert(samples.skip(1)[i] == samples[i + 1]);
        }
        assert(samples.skip(1)[witness - 1] == samples[witness]);
        assert(
            0 <= witness - 1 < samples.skip(1).len() && samples.skip(1)[witness - 1].ticks
                > config.fall_timeout_ticks
        );
        lemma_fall_timeout_infinity(config, samples.skip(1));
    }
}

/// Once the echo pin has risen, the first poll that reads it low — before
/// the range deadline has struck — completes the measurement with exactly
/// that poll's ticks.
pub proof fn lemma_fall_measures(config: RangerConfig, samples: Seq<PollSample>, fall_at: int)
    requires
        0 <= fall_at < samples.len(),
        forall|j: int|
            0 <= j < fall_at ==> (#[trigger] samples[j]).echo_high && samples[j].ticks
                <= config.fall_timeout_ticks,
        !samples[fall_at].echo_high,
    ensures
        spec_run_measurement(config, MeasurePhase::AwaitingFall, samples) == MeasurePhase::Done(
            DistanceMeasurement::Measured((Distance { ticks: samples[fall_at].ticks })),
        ),
    decreases fall_at,
{
    if fall_at == 0 {
        lemma_done_absorbing(
            config,
            DistanceMeasurement::Measured((Distance { ticks: samples[0].ticks })),
            samples.skip(1),
        );
    } else {
        assert forall|j: int| 0 <= j < fall_at - 1 implies (#[trigger] samples.skip(
            1,
        )[j]).echo_high && samples.skip(1)[j].ticks <= config.fall_timeout_ticks by {
            assert(samples.skip(1)[j] == samples[j + 1]);
        }
        assert(samples.skip(1)[fall_at - 1] == samples[fall_at]);
        lemma_fall_measures(config, samples.skip(1), fall_at - 1);
    }
}

/// While every poll reads low within the response deadline, the measurement
/// keeps waiting for the rise.
pub proof fn lemma_rise_pending(config: RangerConfig, samples: Seq<PollSample>)
    requires
        forall|j: int|
            0 <= j < samples.len() ==> !(#[trigger] samples[j]).echo_high && samples[j].ticks
                <= config.rise_timeout_ticks,
    ensures
        spec_run_measurement(config, MeasurePhase::AwaitingRise, samples)
            == MeasurePhase::AwaitingRise,
    decreases samples.len(),
{
    if samples.len() > 0 {
        assert forall|j: int| 0 <= j < samples.skip(1).len() implies !(#[trigger] samples.skip(
            1,
        )[j]).echo_high && samples.skip(1)[j].ticks <= config.rise_timeout_ticks by {
            assert(samples.skip(1)[j] == samples[j + 1]);
        }
        lemma_rise_pending(config, samples.skip(1));
    }
}

/// The first high poll within the response window moves the wait to the fall
/// phase with the counter restarted — so the ticks spent waiting for the rise
/// are not part of the measured width — and the rest of the trace decides the
/// outcome.
pub proof fn lemma_rise_transition(config: RangerConfig, samples: Seq<PollSample>, rise_at: int)
    requires
        0 <= rise_at < samples.len(),
        forall|j: int|
            0 <= j < rise_at ==> !(#[trigger] samples[j]).echo_high && samples[j].ticks
                <= config.rise_timeout_ticks,
        samples[rise_at].echo_high,
    ensures
        spec_run_measurement(config, MeasurePhase::AwaitingRise, samples) == spec_run_measurement(
            config,
            MeasurePhase::AwaitingFall,
            samples.skip(rise_at + 1),
        ),
        spec_measure_step(
            config,
            spec_run_measurement(config, MeasurePhase::AwaitingRise, samples.take(rise_at)),
            samples[rise_at],
        ).1 == CounterCommand::Reset,
    decreases rise_at,
{
    assert forall|j: int| 0 <= j < samples.take(rise_at).len() implies !(#[trigger] samples.take(
        rise_at,
    )[j]).echo_high && samples.take(rise_at)[j].ticks <= config.rise_timeout_ticks by {
        assert(samples.take(rise_at)[j] == samples[j]);
    }
    lemma_rise_pending(config, samples.take(rise_at));
    if rise_at == 0 {
    } else {
        assert forall|j: int| 0 <= j < rise_at - 1 implies !(#[trigger] samples.skip(
            1,
        )[j]).echo_high && samples.skip(1)[j].ticks <= config.rise_timeout_ticks by {
            assert(samples.skip(1)[j] == samples[j + 1]);
        }
        assert(samples.skip(1)[rise_at - 1] == samples[rise_at]);
        lemma_rise_transition(config, samples.skip(1), rise_at - 1);
        assert(samples.skip(1).skip(rise_at) =~= samples.skip(rise_at + 1));
    }
}

/// If the echo pin rises within the response window but stays high past the
/// range deadline, the measurement ends `Infinity`.
pub proof fn lemma_rise_then_fall_timeout(
    config: RangerConfig,
    samples: Seq<PollSample>,
    rise_at: int,
)
    requires
        0 <= rise_at < samples.len(),
        forall|j: int|
            0 <= j < rise_at ==> !(#[trigger] samples[j]).echo_high && samples[j].ticks
                <= config.rise_timeout_ticks,
        samples[rise_at].echo_high,
        all_high(samples.skip(rise_at + 1)),
        exists|i: int|
            0 <= i < samples.skip(rise_at + 1).len() && (#[trigger] samples.skip(
                rise_at + 1,
            )[i]).ticks > config.fall_timeout_ticks,
    ensures
        spec_run_measurement(config, MeasurePhase::AwaitingRise, samples) == MeasurePhase::Done(
            DistanceMeasurement::Infinity,
        ),
{
    lemma_rise_transition(config, samples, rise_at);
    lemma_fall_timeout_infinity(config, samples.skip(rise_at + 1));
}

/// If the echo pin rises within the response window after any number of low
/// polls and falls again within the range window, the measurement reports
/// exactly the ticks of the poll that saw it low: the width of the echo
/// pulse counted from the rising edge, with the rise-phase wait excluded.
pub proof fn lemma_measured_width(
    config: RangerConfig,
    samples: Seq<PollSample>,
    rise_at: int,
    fall_after: int,
)
    requires
        0 <= rise_at < samples.len(),
        0 <= fall_after,
        rise_at + 1 + fall_after < samples.len(),
        forall|j: int|
            0 <= j < rise_at ==> !(#[trigger] samples[j]).echo_high && samples[j].ticks
                <= config.rise_timeout_ticks,
        samples[rise_at].echo_high,
        forall|j: int|
            rise_at + 1 <= j < rise_at + 1 + fall_after ==> (#[trigger] samples[j]).echo_high
                && samples[j].ticks <= config.fall_timeout_ticks,
        !samples[rise_at + 1 + fall_after].echo_high,
    ensures
        spec_run_measurement(config, MeasurePhase::AwaitingRise, samples) == MeasurePhase::Done(
            DistanceMeasurement::Measured(
                (Distance { ticks: samples[rise_at + 1 + fall_after].ticks }),
            ),
        ),
{
    lemma_rise_transition(config, samples, rise_at);
    let tail = samples.skip(rise_at + 1);
    assert forall|j: int| 0 <= j < fall_after implies (#[trigger] tail[j]).echo_high
        && tail[j].ticks <= config.fall_timeout_ticks by {
        assert(tail[j] == samples[rise_at + 1 + j]);
    }
    assert(tail[fall_after] == samples[rise_at + 1 + fall_after]);
    lemma_fall_measures(config, tail, fall_after);
}

} // verus!
