use iot_simulator::generator::{get_mock_generator, GenerationResult, GeneratorPlugin};
use std::cmp::Ordering;
use std::str::FromStr;

#[test]
fn the_default_value_is_mock() {
    assert_eq!(GenerationResult::default(), GenerationResult::Str("MOCK".to_string()));
}

#[test]
fn a_text_reads_as_itself() {
    assert_eq!(GenerationResult::from_str("21.5"), Ok(GenerationResult::Str("21.5".to_string())));
    assert_eq!(GenerationResult::from_text(""), GenerationResult::Str(String::new()));
}

#[test]
fn values_are_displayed() {
    assert_eq!(GenerationResult::Int(-2147483648).display_text(), Some("-2147483648".to_string()));
    assert_eq!(GenerationResult::Int(0).display_text(), Some("0".to_string()));
    assert_eq!(GenerationResult::Int(120).display_text(), Some("120".to_string()));
    assert_eq!(GenerationResult::Str("on".to_string()).display_text(), Some("on".to_string()));
    assert_eq!(GenerationResult::Float(1.5f32.to_bits()).display_text(), None);
}

#[test]
fn floats_compare_as_floats() {
    let f = |x: f32| GenerationResult::Float(x.to_bits());
    assert_eq!(f(1.5), f(1.5));
    assert_eq!(f(0.0), f(-0.0));
    assert_ne!(f(f32::NAN), f(f32::NAN));
    assert_ne!(f(1.0), f(2.0));
    assert_ne!(f(1.0), GenerationResult::Int(1));
    assert_eq!(f(0.0) == f(-0.0), 0.0f32 == -0.0f32);
}

#[test]
fn the_mock_generator_produces_one() {
    let mut g = get_mock_generator();
    assert_eq!(g.generate(), GenerationResult::Int(1));
    assert_eq!(g.generate().clone(), GenerationResult::Int(1));
}

#[test]
fn values_are_ordered_by_variant_then_payload() {
    let f = |x: f32| GenerationResult::Float(x.to_bits());
    let s = |x: &str| GenerationResult::Str(x.to_string());
    assert!(GenerationResult::Int(5) < f(-100.0));
    assert!(f(1e30) < s(""));
    assert!(GenerationResult::Int(-3) < GenerationResult::Int(2));
    let floats = [f32::NEG_INFINITY, -2.5, -0.0, 0.0, 1e-40, 3.25, f32::INFINITY, f32::NAN];
    for a in floats {
        for b in floats {
            assert_eq!(f(a).partial_cmp(&f(b)), a.partial_cmp(&b), "{} {}", a, b);
        }
    }
    let texts = ["", "a", "ab", "b", "é", "z\u{10000}", "zz"];
    for a in texts {
        for b in texts {
            assert_eq!(s(a).partial_cmp(&s(b)), Some(a.cmp(b)), "{} {}", a, b);
        }
    }
    assert_eq!(s("x").partial_cmp(&GenerationResult::Int(0)), Some(Ordering::Greater));
}
