use iot_simulator::faker;
use iot_simulator::ids::{default_instance_id, new_v4_id, uuid_to_string};
use iot_simulator::stdout::{self, StdoutOutput};
use iot_simulator::text::{i32_to_decimal, join_path, u32_to_decimal};
use iot_simulator::typed::GeneratorPlugin;

#[test]
fn numbers_are_written_in_decimal() {
    for n in [0u32, 7, 10, 99, 100, 4294967295] {
        assert_eq!(u32_to_decimal(n), n.to_string());
    }
    for n in [0i32, -1, 15, -2147483648, 2147483647] {
        assert_eq!(i32_to_decimal(n), n.to_string());
    }
}

#[test]
fn paths_are_joined_with_a_slash() {
    assert_eq!(join_path("", "building-1"), "/building-1");
    assert_eq!(join_path("/building-1", "floor-1"), "/building-1/floor-1");
}

#[test]
fn ids_are_written_as_hyphenated_lowercase_hex() {
    assert_eq!(
        uuid_to_string(0x67e5_5044_10b1_426f_9247_bb68_0e5f_e0c8),
        "67e55044-10b1-426f-9247-bb680e5fe0c8"
    );
    assert_eq!(uuid_to_string(0), "00000000-0000-0000-0000-000000000000");
}

#[test]
fn random_ids_are_version_four() {
    let id = new_v4_id();
    assert_eq!((id >> 76) & 0xf, 4);
    assert_eq!((id >> 62) & 0x3, 2);
    let text = default_instance_id();
    assert_eq!(text.len(), 36);
    assert_eq!(text.chars().nth(14), Some('4'));
    assert_ne!(default_instance_id(), text);
}

#[test]
fn the_faker_produces_fake() {
    let mut plugin = faker::new_instance();
    assert_eq!(plugin.generate(()), "fake");
    let mut boxed: Box<dyn iot_simulator::typed::StatelessGeneratorPlugin<(), String>> = faker::new_instance();
    assert_eq!(boxed.generate(()), "fake");
    assert_eq!(faker::FakerGenerator::new().generate(()), "fake");
}

#[test]
fn the_standard_output_reads_its_style() {
    assert!(StdoutOutput::new(true).pretty());
    let args = vec![("pretty".to_string(), "false".to_string())];
    assert_eq!(stdout::new_instance(&args), Ok(StdoutOutput::new(false)));
    assert!(stdout::new_instance(&vec![]).is_err());
}
