use elegoo_smart_car_rudn::hc_sr04_distance_sensor::{
    measure_step, run_measurement, CounterCommand, Distance, DistanceMeasurement, MeasurePhase,
    PollSample, RangerConfig, FALL_TIMEOUT_TICKS, RISE_TIMEOUT_TICKS,
};

fn low(ticks: u16) -> PollSample {
    PollSample { echo_high: false, ticks }
}

fn high(ticks: u16) -> PollSample {
    PollSample { echo_high: true, ticks }
}

#[test]
fn standard_config_matches_datasheet() {
    let config = RangerConfig::standard();
    assert_eq!(config.rise_timeout_ticks, 188);
    assert_eq!(config.fall_timeout_ticks, 25000);
    assert_eq!(RISE_TIMEOUT_TICKS, 188);
    assert_eq!(FALL_TIMEOUT_TICKS, 25000);
}

#[test]
fn rise_wait_keeps_waiting_within_deadline() {
    let config = RangerConfig::standard();
    let step = measure_step(config, MeasurePhase::AwaitingRise, low(188));
    assert_eq!(step.0, MeasurePhase::AwaitingRise);
    assert_eq!(step.1, CounterCommand::Keep);
}

#[test]
fn rise_wait_times_out_to_unknown() {
    let config = RangerConfig::standard();
    let step = measure_step(config, MeasurePhase::AwaitingRise, low(189));
    assert_eq!(step.0, MeasurePhase::Done(DistanceMeasurement::Unknown));
    assert_eq!(step.1, CounterCommand::Keep);
}

#[test]
fn rising_edge_restarts_the_counter() {
    let config = RangerConfig::standard();
    // A high echo moves on even when the counter is already past the
    // deadline, and the counter restarts so that only the pulse width is
    // measured.
    let step = measure_step(config, MeasurePhase::AwaitingRise, high(500));
    assert_eq!(step.0, MeasurePhase::AwaitingFall);
    assert_eq!(step.1, CounterCommand::Reset);
}

#[test]
fn fall_wait_keeps_waiting_within_deadline() {
    let config = RangerConfig::standard();
    let step = measure_step(config, MeasurePhase::AwaitingFall, high(25000));
    assert_eq!(step.0, MeasurePhase::AwaitingFall);
    assert_eq!(step.1, CounterCommand::Keep);
}

#[test]
fn fall_wait_times_out_to_infinity() {
    let config = RangerConfig::standard();
    let step = measure_step(config, MeasurePhase::AwaitingFall, high(25001));
    assert_eq!(step.0, MeasurePhase::Done(DistanceMeasurement::Infinity));
    assert_eq!(step.1, CounterCommand::Keep);
}

#[test]
fn falling_edge_reports_this_polls_ticks() {
    let config = RangerConfig::standard();
    let step = measure_step(config, MeasurePhase::AwaitingFall, low(321));
    assert_eq!(
        step.0,
        MeasurePhase::Done(DistanceMeasurement::Measured(Distance::new(321)))
    );
}

#[test]
fn finished_measurement_stays_finished() {
    let config = RangerConfig::standard();
    let done = MeasurePhase::Done(DistanceMeasurement::Unknown);
    let step = measure_step(config, done, high(3));
    assert_eq!(step.0, done);
    assert_eq!(step.1, CounterCommand::Keep);
    assert!(done.is_done());
    assert!(!MeasurePhase::AwaitingRise.is_done());
}

#[test]
fn empty_trace_decides_nothing() {
    let config = RangerConfig::standard();
    let (phase, used) = run_measurement(config, &Vec::new());
    assert_eq!(phase, MeasurePhase::AwaitingRise);
    assert_eq!(used, 0);
}

#[test]
fn no_rise_ends_unknown_within_the_response_window() {
    // The echo pin never rises; the counter gains one tick per poll.  The
    // measurement must end Unknown as soon as the counter passes the
    // response deadline, long before the range window would have run out.
    let config = RangerConfig::standard();
    let samples: Vec<PollSample> = (0..25000).map(|ticks| low(ticks as u16)).collect();
    let (phase, used) = run_measurement(config, &samples);
    assert_eq!(phase, MeasurePhase::Done(DistanceMeasurement::Unknown));
    // The first poll past 188 ticks is the 190th; the 100 ms range window
    // (25000 ticks) never came into play.
    assert_eq!(used, 190);
    assert!(used < 25000);
}

#[test]
fn prompt_rise_but_no_fall_ends_infinity() {
    let config = RangerConfig::standard();
    let mut samples = vec![low(50), low(120), high(130)];
    // After the rising edge the counter restarts; the echo pin then stays
    // high past the range deadline.
    samples.push(high(10000));
    samples.push(high(20000));
    samples.push(high(25001));
    let (phase, used) = run_measurement(config, &samples);
    assert_eq!(phase, MeasurePhase::Done(DistanceMeasurement::Infinity));
    assert_eq!(used, samples.len());
}

#[test]
fn rise_then_fall_measures_only_the_pulse_width() {
    let config = RangerConfig::standard();
    // The echo pin rises 120 ticks after the trigger and, with the counter
    // restarted at the edge, falls when the fresh counter reads 300.  The
    // reported width must be 300 — the 120 ticks of rise wait excluded.
    let samples = vec![low(60), low(120), high(120), high(150), high(299), low(300)];
    let (phase, used) = run_measurement(config, &samples);
    assert_eq!(
        phase,
        MeasurePhase::Done(DistanceMeasurement::Measured(Distance::new(300)))
    );
    assert_eq!(used, samples.len());
}

#[test]
fn immediate_echo_measures_from_first_high_poll() {
    let config = RangerConfig::standard();
    let samples = vec![high(3), low(147)];
    let (phase, _) = run_measurement(config, &samples);
    match phase {
        MeasurePhase::Done(DistanceMeasurement::Measured(d)) => {
            assert_eq!(d.ticks, 147);
            assert_eq!(d.to_mm(), 1000);
        }
        other => panic!("expected a measured distance, got {:?}", other),
    }
}

#[test]
fn polls_after_the_decision_change_nothing() {
    let config = RangerConfig::standard();
    let mut samples: Vec<PollSample> = (0..300).map(|ticks| low(ticks as u16)).collect();
    let (decided, used) = run_measurement(config, &samples);
    // Extend the trace with polls that would read as a full echo pulse.
    samples.push(high(5));
    samples.push(low(40));
    let (extended, used_again) = run_measurement(config, &samples);
    assert_eq!(decided, MeasurePhase::Done(DistanceMeasurement::Unknown));
    assert_eq!(extended, decided);
    assert_eq!(used, used_again);
}

#[test]
fn tight_timeout_policy_is_respected() {
    let config = RangerConfig {
        rise_timeout_ticks: 10,
        fall_timeout_ticks: 20,
    };
    let unknown = run_measurement(config, &vec![low(5), low(11)]);
    assert_eq!(unknown.0, MeasurePhase::Done(DistanceMeasurement::Unknown));
    let infinity = run_measurement(config, &vec![high(1), high(21)]);
    assert_eq!(infinity.0, MeasurePhase::Done(DistanceMeasurement::Infinity));
}
