//! Helper-function tests: bounds, distributions, identifiers and the
//! registry.
use jen::error::Error;
use jen::helper::HelperKind;
use jen::helper::builtin;
use jen::helper::helper_call;
use jen::helper::lookup_helper;
use jen::helper::custom;
use jen::session::SharedIndex;
use jen::value::Args;
use jen::value::PlainValue;

fn int_args(start: Option<i64>, end: Option<i64>) -> Args {
    let mut a = Args::new();
    if let Some(s) = start {
        a.insert("start".to_owned(), PlainValue::Int(s));
    }
    if let Some(e) = end {
        a.insert("end".to_owned(), PlainValue::Int(e));
    }
    a
}

#[test]
fn integer_stays_in_bounds_and_is_roughly_uniform() {
    // ten values, ten thousand draws: every draw in range, every value
    // seen a plausible number of times
    let args = int_args(Some(1), Some(10));
    let mut counts = [0u32; 10];
    for _ in 0..10_000 {
        match custom::integer(&args) {
            Ok(PlainValue::Int(v)) => {
                assert!((1..=10).contains(&v));
                counts[(v - 1) as usize] += 1;
            },
            other => panic!("integer answered {:?}", other),
        }
    }
    for c in counts {
        assert!((500..=1500).contains(&c), "count {} far from uniform", c);
    }
}

#[test]
fn integer_single_point_range() {
    let args = int_args(Some(7), Some(7));
    for _ in 0..100 {
        match custom::integer(&args) {
            Ok(PlainValue::Int(v)) => assert_eq!(v, 7),
            other => panic!("integer answered {:?}", other),
        }
    }
}

#[test]
fn integer_inverted_range_is_rejected_every_time() {
    let args = int_args(Some(5), Some(1));
    for _ in 0..100 {
        let r = custom::integer(&args);
        match r {
            Err(e) => assert!(e.is_invalid_range()),
            other => panic!("inverted range answered {:?}", other),
        }
    }
}

#[test]
fn integer_negative_bounds() {
    let args = int_args(Some(-10), Some(-5));
    for _ in 0..200 {
        match custom::integer(&args) {
            Ok(PlainValue::Int(v)) => assert!((-10..=-5).contains(&v)),
            other => panic!("integer answered {:?}", other),
        }
    }
}

#[test]
fn integer_missing_end_defaults_to_type_maximum() {
    // with only a lower bound, the upper bound is the type's maximum, so a
    // lower bound of the maximum itself leaves exactly one value — and is
    // not an inverted range
    let args = int_args(Some(i64::MAX), None);
    for _ in 0..20 {
        match custom::integer(&args) {
            Ok(PlainValue::Int(v)) => assert_eq!(v, i64::MAX),
            other => panic!("integer answered {:?}", other),
        }
    }
}

#[test]
fn integer_missing_start_defaults_to_type_minimum() {
    let args = int_args(None, Some(i64::MIN));
    for _ in 0..20 {
        match custom::integer(&args) {
            Ok(PlainValue::Int(v)) => assert_eq!(v, i64::MIN),
            other => panic!("integer answered {:?}", other),
        }
    }
}

#[test]
fn nanoid_length_zero_gives_empty_text() {
    let mut a = Args::new();
    a.insert("length".to_owned(), PlainValue::Uint(0));
    match custom::nanoid(&a) {
        Ok(PlainValue::Text(s)) => assert!(s.is_empty()),
        other => panic!("nanoid answered {:?}", other),
    }
}

#[test]
fn random_picks_only_given_values_roughly_uniformly() {
    let mut counts = [0u32; 4];
    for _ in 0..8_000 {
        let mut a = Args::new();
        a.insert(
            "values".to_owned(),
            PlainValue::List(vec![
                PlainValue::Int(10),
                PlainValue::Int(20),
                PlainValue::Int(30),
                PlainValue::Int(40),
            ]),
        );
        match custom::random(&mut a) {
            Ok(PlainValue::Int(v)) => {
                assert!(v == 10 || v == 20 || v == 30 || v == 40);
                counts[(v / 10 - 1) as usize] += 1;
            },
            other => panic!("random answered {:?}", other),
        }
    }
    for c in counts {
        assert!((1000..=3000).contains(&c), "count {} far from uniform", c);
    }
}

#[test]
fn random_of_texts_returns_an_element() {
    let mut a = Args::new();
    a.insert(
        "values".to_owned(),
        PlainValue::List(vec![
            PlainValue::Text("north".to_owned()),
            PlainValue::Text("south".to_owned()),
        ]),
    );
    match custom::random(&mut a) {
        Ok(PlainValue::Text(s)) => assert!(s == "north" || s == "south"),
        other => panic!("random answered {:?}", other),
    }
}

#[test]
fn random_empty_values_is_an_error() {
    let mut a = Args::new();
    a.insert("values".to_owned(), PlainValue::List(Vec::new()));
    assert!(matches!(custom::random(&mut a), Err(Error::EmptyValues)));
}

#[test]
fn random_missing_values_is_an_error() {
    let mut a = Args::new();
    assert!(matches!(custom::random(&mut a), Err(Error::EmptyValues)));
}

#[test]
fn uuid_has_canonical_version4_form() {
    for _ in 0..50 {
        match custom::uuid() {
            Ok(PlainValue::Text(s)) => {
                assert_eq!(s.len(), 36);
                for (i, c) in s.char_indices() {
                    if i == 8 || i == 13 || i == 18 || i == 23 {
                        assert_eq!(c, '-');
                    } else {
                        assert!(c.is_ascii_hexdigit() && !c.is_ascii_uppercase());
                    }
                }
                assert_eq!(s.as_bytes()[14], b'4');
                assert!(matches!(s.as_bytes()[19], b'8' | b'9' | b'a' | b'b'));
            },
            other => panic!("uuid answered {:?}", other),
        }
    }
}

#[test]
fn object_id_is_24_hex_chars() {
    match custom::object_id() {
        Ok(PlainValue::Text(s)) => {
            assert_eq!(s.len(), 24);
            assert!(s.chars().all(|c| c.is_ascii_hexdigit() && !c.is_ascii_uppercase()));
        },
        other => panic!("objectId answered {:?}", other),
    }
}

#[test]
fn nanoid_default_and_custom_length() {
    match custom::nanoid(&Args::new()) {
        Ok(PlainValue::Text(s)) => {
            assert_eq!(s.len(), 21);
            assert!(s.chars().all(|c| c.is_ascii_alphanumeric() || c == '_' || c == '-'));
        },
        other => panic!("nanoid answered {:?}", other),
    }
    let mut a = Args::new();
    a.insert("length".to_owned(), PlainValue::Uint(10));
    match custom::nanoid(&a) {
        Ok(PlainValue::Text(s)) => assert_eq!(s.len(), 10),
        other => panic!("nanoid answered {:?}", other),
    }
}

#[test]
fn timestamp_is_bounded_by_now() {
    let now = std::time::SystemTime::now()
        .duration_since(std::time::UNIX_EPOCH)
        .unwrap()
        .as_secs();
    for _ in 0..100 {
        match custom::timestamp() {
            Ok(PlainValue::Uint(v)) => assert!(v <= now + 5),
            other => panic!("timestamp answered {:?}", other),
        }
    }
}

#[test]
fn timestamp_below_respects_bound() {
    for _ in 0..1000 {
        assert!(custom::timestamp_below(10) <= 10);
    }
    assert_eq!(custom::timestamp_below(0), 0);
}

#[test]
fn boolean_takes_both_values() {
    let mut saw_true = false;
    let mut saw_false = false;
    let registry = builtin();
    let counter = SharedIndex::new();
    for _ in 0..1000 {
        let mut a = Args::new();
        match helper_call(&registry, "bool", &mut a, &counter) {
            Ok(PlainValue::Bool(true)) => saw_true = true,
            Ok(PlainValue::Bool(false)) => saw_false = true,
            other => panic!("bool answered {:?}", other),
        }
    }
    assert!(saw_true && saw_false);
}

#[test]
fn join_spaced_puts_single_spaces() {
    assert_eq!(custom::join_spaced(&Vec::new()), "");
    assert_eq!(custom::join_spaced(&vec!["one".to_owned()]), "one");
    assert_eq!(
        custom::join_spaced(&vec!["a".to_owned(), "b".to_owned(), "c".to_owned()]),
        "a b c"
    );
}

#[test]
fn paragraph_is_nonempty_text() {
    match custom::paragraph() {
        Ok(PlainValue::Text(s)) => assert!(!s.is_empty()),
        other => panic!("paragraph answered {:?}", other),
    }
}

#[test]
fn builtin_registry_has_the_canonical_names() {
    let registry = builtin();
    assert_eq!(registry.len(), 32);
    assert_eq!(lookup_helper(&registry, "integer"), Some(HelperKind::Integer));
    assert_eq!(lookup_helper(&registry, "random"), Some(HelperKind::Random));
    assert_eq!(lookup_helper(&registry, "index"), Some(HelperKind::Index));
    assert_eq!(lookup_helper(&registry, "uuid"), Some(HelperKind::Uuid));
    assert_eq!(lookup_helper(&registry, "objectId"), Some(HelperKind::ObjectId));
    assert_eq!(lookup_helper(&registry, "nanoid"), Some(HelperKind::NanoId));
    assert_eq!(lookup_helper(&registry, "timestamp"), Some(HelperKind::Timestamp));
    assert_eq!(lookup_helper(&registry, "paragraph"), Some(HelperKind::Paragraph));
    assert_eq!(lookup_helper(&registry, "float"), Some(HelperKind::Float));
    assert_eq!(lookup_helper(&registry, "bool"), Some(HelperKind::Bool));
    assert_eq!(lookup_helper(&registry, "city"), Some(HelperKind::City));
    assert_eq!(lookup_helper(&registry, "zip"), Some(HelperKind::Zip));
    assert_eq!(lookup_helper(&registry, "nosuchname"), None);
}

#[test]
fn later_registration_wins() {
    let mut registry = builtin();
    registry.push(("integer".to_owned(), HelperKind::Word));
    assert_eq!(lookup_helper(&registry, "integer"), Some(HelperKind::Word));
}

#[test]
fn helper_call_rejects_unknown_names() {
    let registry = builtin();
    let counter = SharedIndex::new();
    let mut a = Args::new();
    match helper_call(&registry, "nosuchname", &mut a, &counter) {
        Err(e) => assert!(e.is_validation()),
        other => panic!("unknown helper answered {:?}", other),
    }
}

#[test]
fn float_has_no_plain_value_form() {
    // fractional values have no plain form in the library: through the
    // plain-value dispatch the fractional kind is refused; the engine's
    // owner attaches the engine-side implementation instead
    let registry = builtin();
    let counter = SharedIndex::new();
    let mut a = Args::new();
    match helper_call(&registry, "float", &mut a, &counter) {
        Err(Error::UnsupportedHelper) => {},
        other => panic!("float answered {:?}", other),
    }
}

#[test]
fn helper_call_index_counts_up() {
    let registry = builtin();
    let counter = SharedIndex::new();
    for expected in 0..10u64 {
        let mut a = Args::new();
        match helper_call(&registry, "index", &mut a, &counter) {
            Ok(PlainValue::Uint(v)) => assert_eq!(v, expected),
            other => panic!("index answered {:?}", other),
        }
    }
}

#[test]
fn fake_helpers_answer_with_text() {
    let registry = builtin();
    let counter = SharedIndex::new();
    for name in [
        "city",
        "company",
        "domain",
        "email",
        "firstName",
        "industry",
        "lastName",
        "latitude",
        "longitude",
        "name",
        "phone",
        "postcode",
        "profession",
        "sentence",
        "state",
        "stateCode",
        "street",
        "title",
        "userAgent",
        "username",
        "word",
        "zip",
    ] {
        let mut a = Args::new();
        match helper_call(&registry, name, &mut a, &counter) {
            Ok(PlainValue::Text(s)) => assert!(!s.is_empty(), "{} gave empty text", name),
            other => panic!("{} answered {:?}", name, other),
        }
    }
}

#[test]
fn latitude_and_longitude_parse_as_numbers() {
    let registry = builtin();
    let counter = SharedIndex::new();
    for name in ["latitude", "longitude"] {
        let mut a = Args::new();
        match helper_call(&registry, name, &mut a, &counter) {
            Ok(PlainValue::Text(s)) => {
                let v: f64 = s.parse().expect("not a decimal number");
                assert!((-360.0..=360.0).contains(&v));
            },
            other => panic!("{} answered {:?}", name, other),
        }
    }
}
