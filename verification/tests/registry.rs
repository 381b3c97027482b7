use iot_simulator::config::{GeneratorPluginConf, GeneratorType, OutputPluginConf};
use iot_simulator::generator::GeneratorConfig;
use iot_simulator::output::OutputConfig;
use iot_simulator::registry::{GeneratorPluginRegistry, Registration, RegistryError};

fn plugin(id: &str) -> GeneratorPluginConf {
    GeneratorPluginConf {
        id: id.to_string(),
        generator_type: GeneratorType::Stateless,
        return_type: None,
        path: format!("target/debug/libiot_simulator_generator_{}.so", id),
    }
}

fn generator(generator_id: &str, instance_id: &str) -> GeneratorConfig {
    GeneratorConfig {
        generator_id: generator_id.to_string(),
        instance_id: instance_id.to_string(),
        params: vec![],
    }
}

fn registry() -> GeneratorPluginRegistry {
    GeneratorPluginRegistry::init(
        vec![plugin("const"), plugin("sma")],
        vec![OutputPluginConf { id: "stdout".to_string(), path: "libout.so".to_string() }],
    )
}

#[test]
fn registering_an_instance_twice_shares_it() {
    let mut r = registry();
    let first = r.register(&generator("sma", "temperature")).unwrap();
    assert_eq!(first, Registration { handle: 0, plugin: 1, created: true });
    let again = r.register(&generator("const", "temperature")).unwrap();
    assert_eq!(again, Registration { handle: 0, plugin: 1, created: false });
}

#[test]
fn different_instances_get_different_handles() {
    let mut r = registry();
    let a = r.register(&generator("const", "a")).unwrap();
    let b = r.register(&generator("const", "b")).unwrap();
    assert_eq!(a, Registration { handle: 0, plugin: 0, created: true });
    assert_eq!(b, Registration { handle: 1, plugin: 0, created: true });
}

#[test]
fn unknown_plugins_are_refused() {
    let mut r = registry();
    r.register(&generator("const", "a")).unwrap();
    assert_eq!(r.register(&generator("faker", "a")), Err(RegistryError::NoGeneratorPlugin));
    assert_eq!(r.register(&generator("faker", "b")), Err(RegistryError::NoGeneratorPlugin));
    assert_eq!(r.register(&generator("const", "b")).unwrap().handle, 1);
}

#[test]
fn outputs_are_registered_and_listed() {
    let mut r = registry();
    assert_eq!(r.get_outputs(), Vec::<usize>::new());
    let out = |id: &str, instance: &str| OutputConfig {
        output_id: id.to_string(),
        instance_id: instance.to_string(),
        params: vec![],
    };
    assert_eq!(
        r.register_output(&out("stdout", "main")).unwrap(),
        Registration { handle: 0, plugin: 0, created: true }
    );
    assert_eq!(r.register_output(&out("stdout", "main")).unwrap().created, false);
    assert_eq!(r.register_output(&out("kafka", "x")), Err(RegistryError::NoOutputPlugin));
    assert_eq!(r.register_output(&out("stdout", "second")).unwrap().handle, 1);
    assert_eq!(r.get_outputs(), vec![0, 1]);
    assert_eq!(r.generator_plugins().len(), 2);
    assert_eq!(r.output_plugins()[0].id, "stdout");
}

#[test]
fn the_settings_are_kept_whole() {
    let r = registry();
    let g = r.generator_plugins();
    assert_eq!(g[1].id, "sma");
    assert_eq!(g[1].path, "target/debug/libiot_simulator_generator_sma.so");
    assert_eq!(g[1].generator_type, GeneratorType::Stateless);
    assert_eq!(g[1].return_type, None);
    assert_eq!(r.output_plugins()[0].path, "libout.so");
}
