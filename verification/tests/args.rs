use iot_simulator::args::{unwrap_arg, unwrap_bool_arg, unwrap_u32_arg, unwrap_usize_arg, ArgError};

fn args(pairs: &[(&str, &str)]) -> Vec<(String, String)> {
    pairs.iter().map(|(k, v)| (k.to_string(), v.to_string())).collect()
}

#[test]
fn arguments_are_found_by_name() {
    let a = args(&[("min", "10.0"), ("max", "20.0")]);
    assert_eq!(unwrap_arg("max", &a), Ok("20.0".to_string()));
    assert_eq!(unwrap_arg("mean", &a), Err(ArgError::Missing("mean".to_string())));
}

#[test]
fn bool_arguments() {
    let a = args(&[("pretty", "true"), ("debug", "false"), ("bad", "True")]);
    assert_eq!(unwrap_bool_arg("pretty", &a), Ok(true));
    assert_eq!(unwrap_bool_arg("debug", &a), Ok(false));
    assert_eq!(unwrap_bool_arg("bad", &a), Err(ArgError::Invalid("bad".to_string())));
    assert_eq!(unwrap_bool_arg("none", &a), Err(ArgError::Missing("none".to_string())));
}

#[test]
fn unsigned_arguments_read_as_std_reads_them() {
    let a = args(&[
        ("precision", "2"),
        ("plus", "+17"),
        ("zeros", "0004"),
        ("neg", "-1"),
        ("empty", ""),
        ("sign", "+"),
        ("big", "4294967296"),
        ("max", "4294967295"),
        ("space", " 1"),
    ]);
    for (name, expected) in [
        ("precision", Ok(2)),
        ("plus", Ok(17)),
        ("zeros", Ok(4)),
        ("max", Ok(u32::MAX)),
        ("neg", Err(())),
        ("empty", Err(())),
        ("sign", Err(())),
        ("big", Err(())),
        ("space", Err(())),
    ] {
        let std_reading = a.iter().find(|(k, _)| k == name).unwrap().1.parse::<u32>().map_err(|_| ());
        assert_eq!(std_reading, expected, "{}", name);
        let ours = unwrap_u32_arg(name, &a).map_err(|_| ());
        assert_eq!(ours, expected, "{}", name);
    }
    assert_eq!(unwrap_usize_arg("big", &a), Ok(4294967296usize));
    assert_eq!(unwrap_usize_arg("neg", &a), Err(ArgError::Invalid("neg".to_string())));
    assert_eq!(unwrap_u32_arg("missing", &a), Err(ArgError::Missing("missing".to_string())));
}

#[test]
fn the_first_argument_of_a_name_counts() {
    let a = args(&[("val", "a"), ("val", "b")]);
    assert_eq!(unwrap_arg("val", &a), Ok("a".to_string()));
}

#[test]
fn decimal_text_reads_back() {
    for n in [0u32, 9, 10, 12345, u32::MAX] {
        let a = vec![("n".to_string(), iot_simulator::text::u32_to_decimal(n))];
        assert_eq!(unwrap_u32_arg("n", &a), Ok(n));
    }
}
