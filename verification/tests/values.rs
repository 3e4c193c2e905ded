//! Argument-map and error tests.
use jen::error::Error;
use jen::value::Args;
use jen::value::PlainValue;

#[test]
fn missing_arguments_fall_back_to_defaults() {
    let a = Args::new();
    assert_eq!(a.get_i64_or("start", i64::MIN), i64::MIN);
    assert_eq!(a.get_i64_or("end", i64::MAX), i64::MAX);
    assert_eq!(a.get_u64_or("length", 21), 21);
}

#[test]
fn present_arguments_are_read() {
    let mut a = Args::new();
    a.insert("start".to_owned(), PlainValue::Int(-3));
    a.insert("length".to_owned(), PlainValue::Uint(9));
    assert_eq!(a.get_i64_or("start", 0), -3);
    assert_eq!(a.get_u64_or("length", 21), 9);
}

#[test]
fn unsigned_and_signed_readings_convert_when_they_fit() {
    let mut a = Args::new();
    a.insert("n".to_owned(), PlainValue::Uint(5));
    a.insert("m".to_owned(), PlainValue::Int(-1));
    assert_eq!(a.get_i64_or("n", 0), 5);
    assert_eq!(a.get_u64_or("m", 77), 77);
    a.insert("big".to_owned(), PlainValue::Uint(u64::MAX));
    assert_eq!(a.get_i64_or("big", -9), -9);
}

#[test]
fn non_numeric_arguments_fall_back() {
    let mut a = Args::new();
    a.insert("start".to_owned(), PlainValue::Text("five".to_owned()));
    assert_eq!(a.get_i64_or("start", 42), 42);
}

#[test]
fn later_binding_wins() {
    let mut a = Args::new();
    a.insert("start".to_owned(), PlainValue::Int(1));
    a.insert("start".to_owned(), PlainValue::Int(2));
    assert_eq!(a.get_i64_or("start", 0), 2);
}

#[test]
fn take_value_removes_the_binding() {
    let mut a = Args::new();
    a.insert("values".to_owned(), PlainValue::List(vec![PlainValue::Int(1)]));
    match a.take_value("values") {
        Some(PlainValue::List(l)) => assert_eq!(l, vec![PlainValue::Int(1)]),
        other => panic!("took {:?}", other),
    }
    assert!(a.take_value("values").is_none());
}

#[test]
fn error_messages_carry_their_text() {
    assert_eq!(Error::Parse("bad".to_owned()).message(), "bad");
    assert_eq!(Error::Validation("oops".to_owned()).message(), "oops");
    assert_eq!(Error::Render("late".to_owned()).message(), "late");
    assert!(!Error::InvalidRange(5, 1).message().is_empty());
    assert!(!Error::EmptyValues.message().is_empty());
    assert!(Error::InvalidRange(5, 1).is_invalid_range());
    assert!(Error::Parse("x".to_owned()).is_parse());
    assert!(Error::Validation("x".to_owned()).is_validation());
}
