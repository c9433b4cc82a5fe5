use owlib::open_window::relative_humidity::{
    RelativeHumidity, RelativeHumidityInvalid, MAX_HUMIDITY, MIN_HUMIDITY,
};

const MESSAGE: &str = "relative humidity should be a percentage value between 1 and 100";

#[test]
fn humidity_bounds_are_one_and_hundred() {
    assert_eq!(MIN_HUMIDITY, 1);
    assert_eq!(MAX_HUMIDITY, 100);
}

#[test]
fn humidity_zero_is_rejected() {
    assert!(RelativeHumidity::try_new(0).is_err());
    assert!(!RelativeHumidity::valid(0));
}

#[test]
fn humidity_above_hundred_is_rejected() {
    assert!(RelativeHumidity::try_new(101).is_err());
    assert!(RelativeHumidity::try_new(255).is_err());
    assert!(!RelativeHumidity::valid(101));
}

#[test]
fn humidity_one_and_hundred_are_accepted() {
    assert_eq!(RelativeHumidity::try_new(1).unwrap().value(), 1);
    assert_eq!(RelativeHumidity::try_new(100).unwrap().value(), 100);
    assert!(RelativeHumidity::valid(1));
    assert!(RelativeHumidity::valid(100));
}

#[test]
fn humidity_try_new_accepts_exactly_one_to_hundred() {
    for value in 0..=u8::MAX {
        let expected = (1..=100).contains(&value);
        assert_eq!(RelativeHumidity::valid(value), expected);
        match RelativeHumidity::try_new(value) {
            Ok(humidity) => {
                assert!(expected);
                assert_eq!(humidity.value(), value);
            }
            Err(RelativeHumidityInvalid(message)) => {
                assert!(!expected);
                assert_eq!(message, MESSAGE);
            }
        }
    }
}

#[test]
fn humidity_new_keeps_the_value() {
    assert_eq!(RelativeHumidity::new(55).value(), 55);
    assert_eq!(RelativeHumidity::new(55), RelativeHumidity::new(55));
    assert_ne!(RelativeHumidity::new(55), RelativeHumidity::new(56));
}

#[test]
fn humidity_default_is_the_minimum() {
    assert_eq!(RelativeHumidity::default().value(), 1);
}

#[test]
fn humidity_error_describes_the_range() {
    let error = RelativeHumidity::try_new(0).unwrap_err();
    assert_eq!(error.0, MESSAGE);
    assert_eq!(error.message(), MESSAGE);
}
