use arctic::json::JsonValue;
use arctic::synth::synthesize;

/// Shape equality up to array arity: same tags, same keys in order, arrays
/// empty together, every element of one array shaped like every element of
/// the other.
fn same_shape(a: &JsonValue, b: &JsonValue) -> bool {
    match (a, b) {
        (JsonValue::Null, JsonValue::Null) => true,
        (JsonValue::Bool(_), JsonValue::Bool(_)) => true,
        (JsonValue::Int(_), JsonValue::Int(_)) => true,
        (JsonValue::Float(_), JsonValue::Float(_)) => true,
        (JsonValue::Str(_), JsonValue::Str(_)) => true,
        (JsonValue::Array(x), JsonValue::Array(y)) => {
            x.is_empty() == y.is_empty()
                && x.iter().all(|xi| y.iter().all(|yi| same_shape(xi, yi)))
        }
        (JsonValue::Object(x), JsonValue::Object(y)) => {
            x.len() == y.len()
                && x.iter()
                    .zip(y.iter())
                    .all(|(xp, yp)| xp.0 == yp.0 && same_shape(&xp.1, &yp.1))
        }
        _ => false,
    }
}

fn sample_template() -> JsonValue {
    JsonValue::Object(vec![
        ("id".to_string(), JsonValue::Int(1)),
        ("name".to_string(), JsonValue::Str("x".to_string())),
        ("active".to_string(), JsonValue::Bool(true)),
        (
            "tags".to_string(),
            JsonValue::Array(vec![JsonValue::Str("a".to_string())]),
        ),
    ])
}

#[test]
fn object_keeps_keys_in_order_and_tags() {
    let v = synthesize(&sample_template());
    match v {
        JsonValue::Object(fields) => {
            assert_eq!(fields.len(), 4);
            assert_eq!(fields[0].0, "id");
            assert_eq!(fields[1].0, "name");
            assert_eq!(fields[2].0, "active");
            assert_eq!(fields[3].0, "tags");
            assert!(matches!(fields[0].1, JsonValue::Int(_)));
            match &fields[1].1 {
                JsonValue::Str(s) => {
                    assert!(!s.is_empty());
                    assert!(s.chars().all(|c| c.is_ascii_digit()));
                    assert!(s.parse::<u32>().is_ok());
                }
                other => panic!("name synthesized as {:?}", other),
            }
            assert!(matches!(fields[2].1, JsonValue::Bool(_)));
            match &fields[3].1 {
                JsonValue::Array(items) => {
                    assert!((1..=4).contains(&items.len()));
                    for it in items {
                        assert!(matches!(it, JsonValue::Str(_)));
                    }
                }
                other => panic!("tags synthesized as {:?}", other),
            }
        }
        other => panic!("template object synthesized as {:?}", other),
    }
}

#[test]
fn empty_object_stays_empty() {
    let v = synthesize(&JsonValue::Object(vec![]));
    assert_eq!(v, JsonValue::Object(vec![]));
}

#[test]
fn empty_array_stays_empty() {
    let v = synthesize(&JsonValue::Array(vec![]));
    assert_eq!(v, JsonValue::Array(vec![]));
}

#[test]
fn null_passes_through() {
    assert_eq!(synthesize(&JsonValue::Null), JsonValue::Null);
}

#[test]
fn nonempty_array_draws_one_to_four_from_first_element() {
    let t = JsonValue::Array(vec![JsonValue::Int(7), JsonValue::Str("ignored".to_string())]);
    for _ in 0..50 {
        match synthesize(&t) {
            JsonValue::Array(items) => {
                assert!((1..=4).contains(&items.len()));
                for it in items {
                    assert!(matches!(it, JsonValue::Int(_)));
                }
            }
            other => panic!("array synthesized as {:?}", other),
        }
    }
}

#[test]
fn float_leaf_yields_finite_unit_interval_float() {
    let t = JsonValue::Float(0.25f64.to_bits());
    for _ in 0..50 {
        match synthesize(&t) {
            JsonValue::Float(bits) => {
                assert!(bits < arctic::floatbits::ONE_F64_BITS);
                let x = f64::from_bits(bits);
                assert!(x.is_finite());
                assert!((0.0..1.0).contains(&x));
            }
            other => panic!("float leaf synthesized as {:?}", other),
        }
    }
}

#[test]
fn nested_shapes_recurse() {
    let t = JsonValue::Object(vec![(
        "outer".to_string(),
        JsonValue::Object(vec![(
            "inner".to_string(),
            JsonValue::Array(vec![JsonValue::Object(vec![(
                "leaf".to_string(),
                JsonValue::Int(0),
            )])]),
        )]),
    )]);
    let v = synthesize(&t);
    assert!(same_shape(&t, &v));
}

#[test]
fn two_syntheses_share_shape() {
    let t = sample_template();
    let a = synthesize(&t);
    let b = synthesize(&t);
    assert!(same_shape(&a, &b));
}

#[test]
fn number_beyond_signed_range_passes_through() {
    let t = JsonValue::UInt(u64::MAX);
    assert_eq!(synthesize(&t), JsonValue::UInt(u64::MAX));
}

#[test]
fn scalar_content_is_not_degenerate() {
    // Sixty-four independent draws of a 64-bit integer collide with
    // probability far below any practical flake rate.
    let t = JsonValue::Int(0);
    let mut seen = Vec::new();
    for _ in 0..64 {
        match synthesize(&t) {
            JsonValue::Int(n) => seen.push(n),
            other => panic!("integer leaf synthesized as {:?}", other),
        }
    }
    seen.sort();
    seen.dedup();
    assert!(seen.len() > 1);
}
