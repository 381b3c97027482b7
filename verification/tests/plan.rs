use iot_simulator::emitter::EmitterStep;
use iot_simulator::ids::uuid_to_string;
use iot_simulator::model::{Device, Sensor};
use iot_simulator::plan::generate_emitters;

fn sensor(id: u128, name: &str, replicate: u32) -> Sensor {
    Sensor {
        id,
        name: name.to_string(),
        metadata: vec![("unit".to_string(), "C".to_string())],
        sampling_rate: 1000,
        replicate,
        value_generator: 3,
    }
}

fn device(name: &str, sensors: Vec<Sensor>, devices: Vec<Device>) -> Device {
    Device { id: 1, name: name.to_string(), metadata: vec![], sensors, devices }
}

#[test]
fn emitters_follow_the_tree() {
    let tree = vec![device(
        "building-1",
        vec![sensor(10, "door", 1)],
        vec![device("floor-1", vec![sensor(11, "temperature", 1), sensor(12, "humidity", 1)], vec![])],
    )];
    let emitters = generate_emitters("", 5, 50, &tree);
    let keys: Vec<String> = emitters.iter().map(|(k, _)| k.clone()).collect();
    assert_eq!(
        keys,
        vec![
            format!("/building-1/{}", uuid_to_string(10)),
            format!("/building-1/floor-1/{}", uuid_to_string(11)),
            format!("/building-1/floor-1/{}", uuid_to_string(12)),
        ]
    );
    assert_eq!(emitters[1].1.current(), 5);
    assert_eq!(emitters[1].1.value_generator(), 3);
    let p = emitters[2].1.payload(iot_simulator::generator::GenerationResult::Int(7));
    assert_eq!(p.device_path, "/building-1/floor-1");
    assert_eq!(p.name, "humidity");
    assert_eq!(p.id, 12);
    assert_eq!(p.timestamp, 5);
    assert_eq!(p.metadata, vec![("unit".to_string(), "C".to_string())]);
}

#[test]
fn replicated_sensors_get_numbered_copies() {
    let tree = vec![device("d", vec![sensor(10, "s", 3), sensor(20, "t", 0)], vec![])];
    let mut emitters = generate_emitters("root", 0, 0, &tree);
    assert_eq!(emitters.len(), 3);
    for (i, (key, emitter)) in emitters.iter_mut().enumerate() {
        let p = emitter.payload(iot_simulator::generator::GenerationResult::Int(0));
        assert_eq!(p.name, format!("s{}", i));
        assert_ne!(p.id, 10);
        assert_eq!(*key, format!("root/d/{}", uuid_to_string(p.id)));
        assert_eq!(uuid_to_string(p.id).chars().nth(14), Some('4'));
        assert_eq!(emitter.decide(0), EmitterStep::Finished);
    }
}

#[test]
fn an_empty_tree_has_no_emitters() {
    assert_eq!(generate_emitters("", 0, 0, &vec![]).len(), 0);
}
