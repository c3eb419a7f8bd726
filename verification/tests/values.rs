use amalgam::{Error, FactoryError, MaybeValue};

#[test]
fn none_has_no_value() {
    let m: MaybeValue<i32> = MaybeValue::none();
    assert!(!m.has_value());
    assert_eq!(m.value(), None);
    assert_eq!(MaybeValue::<i32>::default(), MaybeValue::none());
}

#[test]
fn from_value_round_trips() {
    let m = MaybeValue::from_value(42);
    assert!(m.has_value());
    assert_eq!(m.value(), Some(&42));
    assert_eq!(Option::from(m), Some(42));
}

#[test]
fn value_or_default_falls_back() {
    assert_eq!(MaybeValue::<i32>::none().value_or_default(), 0);
    assert_eq!(MaybeValue::from_value(7).value_or_default(), 7);
}

#[test]
fn maybe_values_are_mapped_and_replaced() {
    assert_eq!(
        MaybeValue::from_value(2).map(|n| n * 10),
        MaybeValue::from_value(20)
    );
    assert_eq!(
        MaybeValue::<i32>::none().map(|n| n * 10),
        MaybeValue::none()
    );
    assert_eq!(MaybeValue::from_value(2).value_or(5), 2);
    assert_eq!(MaybeValue::none().value_or(5), 5);
    assert_eq!(MaybeValue::from_value(2).value_or_clone(5), 2);
    assert_eq!(MaybeValue::none().value_or_clone(5), 5);
    assert_eq!(MaybeValue::from_value(2).into_value(), Some(2));
    let from_option: MaybeValue<i32> = MaybeValue::from(Some(3));
    assert_eq!(from_option, MaybeValue::from_value(3));
    let from_plain: MaybeValue<i32> = MaybeValue::from(3);
    assert_eq!(from_plain, MaybeValue::from_value(3));
}

#[test]
fn blank_factory_message_is_defaulted() {
    assert_eq!(
        FactoryError::new("   ".to_owned()).message(),
        "an error occurred while running the factory"
    );
}

#[test]
fn factory_error_preserves_source() {
    let io = std::io::Error::other("boom");
    let err = FactoryError::from_source(io.to_string());
    assert_eq!(err.message(), "boom");
    assert!(err.source.is_some());
}

#[test]
fn factory_errors_become_errors_with_their_message() {
    let err = FactoryError::new("boom".to_owned());
    assert!(err.source.is_none());
    assert_eq!(
        Error::from(err),
        Error::Factory {
            message: "boom".to_owned()
        }
    );
    assert_eq!(FactoryError::from_source(String::new()).message(), "");
}
