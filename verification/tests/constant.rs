use iot_simulator::args::ArgError;
use iot_simulator::constant::{new_instance, ConstGenerator};
use iot_simulator::generator::{GenerationResult, GeneratorPlugin};

#[test]
fn it_should_generate_the_value_set_at_init() {
    let val = "test".to_string();
    let mut plugin = new_instance(&vec![("val".into(), val.clone())]).expect("Write lock failed");
    let result = plugin.generate();

    assert_eq!(result, GenerationResult::Str(val.into()))
}

#[test]
fn constant_generator_repeats_its_value() {
    let mut plugin = ConstGenerator::new(GenerationResult::Int(42));
    for _ in 0..3 {
        assert_eq!(plugin.generate(), GenerationResult::Int(42));
    }
}

#[test]
fn constant_generator_needs_its_argument() {
    let r = new_instance(&vec![("value".to_string(), "x".to_string())]);
    assert_eq!(r.unwrap_err(), ArgError::Missing("val".to_string()));
}
