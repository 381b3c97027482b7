use iot_simulator::clock::{now_nanos, MAX_INSTANT_NANOS, MIN_INSTANT_NANOS};
use iot_simulator::emitter::{sensor_emitter, EmitterError, EmitterStep};
use iot_simulator::generator::GenerationResult;
use iot_simulator::ids::new_v4_id;
use iot_simulator::model::Sensor;
use iot_simulator::output::SensorPayload;

const SECOND: i128 = 1_000_000_000;

fn sensor_a() -> Sensor {
    Sensor {
        id: new_v4_id(),
        name: "sensorA".to_string(),
        metadata: Default::default(),
        sampling_rate: 1000,
        replicate: 1,
        value_generator: Default::default(),
    }
}

#[test]
fn it_should_generate_historical_data_and_live() {
    let start_at = now_nanos().unwrap() - 3 * SECOND;
    let end_at = now_nanos().unwrap() + SECOND;
    let mut emitter = sensor_emitter(String::from("path"), sensor_a(), start_at, end_at);

    let mut payloads: Vec<SensorPayload> = vec![];
    loop {
        match emitter.decide(now_nanos().unwrap()) {
            EmitterStep::Finished => break,
            EmitterStep::Wait { timestamp, .. } => {
                // wait until the clock reaches the instant
                while now_nanos().unwrap() < timestamp {}
            }
            EmitterStep::Emit { .. } => {}
        }
        payloads.push(emitter.payload(GenerationResult::Int(1)));
        emitter.advance().unwrap();
    }
    assert_eq!(5, payloads.len())
}

#[test]
fn history_is_emitted_without_waiting() {
    let mut emitter = sensor_emitter("p".to_string(), sensor_a(), 0, 2_500_000_000);
    let now = 10 * SECOND;
    let mut stamps = vec![];
    loop {
        match emitter.decide(now) {
            EmitterStep::Emit { timestamp } => stamps.push(timestamp),
            step => {
                assert_eq!(step, EmitterStep::Finished);
                break;
            }
        }
        emitter.advance().unwrap();
    }
    let expected: Vec<i128> = (0..10).map(|k| k * SECOND).collect();
    assert_eq!(stamps, expected);
    // finished for good, even when the clock reads an earlier instant
    assert_eq!(emitter.decide(0), EmitterStep::Finished);
}

#[test]
fn live_instants_are_waited_for() {
    let mut emitter = sensor_emitter("p".to_string(), sensor_a(), 0, 2 * SECOND);
    assert_eq!(emitter.decide(0), EmitterStep::Emit { timestamp: 0 });
    emitter.advance().unwrap();
    assert_eq!(emitter.decide(SECOND / 4), EmitterStep::Wait { nanos: 750_000_000, timestamp: SECOND });
    emitter.advance().unwrap();
    assert_eq!(emitter.current(), 2 * SECOND);
    assert_eq!(emitter.decide(SECOND), EmitterStep::Finished);
}

#[test]
fn instants_beyond_the_last_are_refused() {
    let mut emitter = sensor_emitter("p".to_string(), sensor_a(), MAX_INSTANT_NANOS - 10, MAX_INSTANT_NANOS);
    assert_eq!(emitter.advance(), Err(EmitterError::OutOfRange));
    assert_eq!(emitter.current(), MAX_INSTANT_NANOS - 10);
    // an instant in the year 2286, past what an i64 of nanoseconds holds
    let late = 10_000_000_000 * SECOND;
    let mut emitter = sensor_emitter("p".to_string(), sensor_a(), late, late + 2 * SECOND);
    assert_eq!(emitter.advance(), Ok(()));
    assert_eq!(emitter.current(), late + SECOND);
    let mut s = sensor_a();
    s.sampling_rate = i64::MIN;
    let mut emitter = sensor_emitter("p".to_string(), s, 0, 0);
    assert_eq!(emitter.advance(), Err(EmitterError::OutOfRange));
}

#[test]
fn long_waits_are_measured_exactly() {
    let mut emitter = sensor_emitter("p".to_string(), sensor_a(), MAX_INSTANT_NANOS - 1, MAX_INSTANT_NANOS);
    let gap = (MAX_INSTANT_NANOS - 1 - MIN_INSTANT_NANOS) as u128;
    assert_eq!(
        emitter.decide(MIN_INSTANT_NANOS),
        EmitterStep::Wait { nanos: gap, timestamp: MAX_INSTANT_NANOS - 1 }
    );
}
