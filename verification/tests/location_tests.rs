use wxdotgov::location::{classify, LocationInput};

#[test]
fn test_location_input_postal_code() {
    let input = LocationInput::PostalCode("12345".to_string());
    match input {
        LocationInput::PostalCode(code) => assert_eq!(code, "12345"),
        _ => panic!("Expected PostalCode variant"),
    }
}

#[test]
fn test_location_input_postal_code_plus_four() {
    let input = LocationInput::PostalCodePlusFour("12345".to_string(), "6789".to_string());
    match input {
        LocationInput::PostalCodePlusFour(code, plus_four) => {
            assert_eq!(code, "12345");
            assert_eq!(plus_four, "6789");
        }
        _ => panic!("Expected PostalCodePlusFour variant"),
    }
}

#[test]
fn test_location_input_city() {
    let input = LocationInput::City("New York".to_string());
    match input {
        LocationInput::City(city) => assert_eq!(city, "New York"),
        _ => panic!("Expected City variant"),
    }
}

#[test]
fn test_location_input_city_state() {
    let input = LocationInput::CityWithState("Seattle".to_string(), "WA".to_string());
    match input {
        LocationInput::CityWithState(city, state) => {
            assert_eq!(city, "Seattle");
            assert_eq!(state, "WA");
        }
        _ => panic!("Expected CityWithState variant"),
    }
}

#[test]
fn classify_five_digits_is_postal_code() {
    match classify("12345") {
        Some(LocationInput::PostalCode(code)) => assert_eq!(code, "12345"),
        other => panic!("expected PostalCode, got {:?}", other),
    }
}

#[test]
fn classify_all_zero_postal_code() {
    match classify("00000") {
        Some(LocationInput::PostalCode(code)) => assert_eq!(code, "00000"),
        other => panic!("expected PostalCode, got {:?}", other),
    }
}

#[test]
fn classify_postal_code_plus_four_splits_at_hyphen() {
    match classify("12345-6789") {
        Some(LocationInput::PostalCodePlusFour(code, plus_four)) => {
            assert_eq!(code, "12345");
            assert_eq!(plus_four, "6789");
        }
        other => panic!("expected PostalCodePlusFour, got {:?}", other),
    }
}

#[test]
fn classify_rejects_wrong_length_digits() {
    assert!(classify("1234").is_none());
    assert!(classify("123456").is_none());
    assert!(classify("123456789012").is_none());
}

#[test]
fn classify_rejects_bad_extension() {
    assert!(classify("12345-678").is_none());
    assert!(classify("12345-67890").is_none());
    assert!(classify("12345-").is_none());
    assert!(classify("12345-abcd").is_none());
}

#[test]
fn classify_city() {
    match classify("New York") {
        Some(LocationInput::City(name)) => assert_eq!(name, "New York"),
        other => panic!("expected City, got {:?}", other),
    }
}

#[test]
fn classify_single_letter_city() {
    match classify("a") {
        Some(LocationInput::City(name)) => assert_eq!(name, "a"),
        other => panic!("expected City, got {:?}", other),
    }
}

#[test]
fn classify_city_with_period() {
    match classify("St. Louis") {
        Some(LocationInput::City(name)) => assert_eq!(name, "St. Louis"),
        other => panic!("expected City, got {:?}", other),
    }
}

#[test]
fn classify_city_with_state() {
    match classify("Seattle, WA") {
        Some(LocationInput::CityWithState(name, state)) => {
            assert_eq!(name, "Seattle");
            assert_eq!(state, "WA");
        }
        other => panic!("expected CityWithState, got {:?}", other),
    }
}

#[test]
fn classify_preserves_state_casing() {
    match classify("Seattle, wa") {
        Some(LocationInput::CityWithState(name, state)) => {
            assert_eq!(name, "Seattle");
            assert_eq!(state, "wa");
        }
        other => panic!("expected CityWithState, got {:?}", other),
    }
}

#[test]
fn classify_trims_city_tokens() {
    match classify("Seattle , WA") {
        Some(LocationInput::CityWithState(name, state)) => {
            assert_eq!(name, "Seattle");
            assert_eq!(state, "WA");
        }
        other => panic!("expected CityWithState, got {:?}", other),
    }
}

#[test]
fn classify_rejects_long_state_token() {
    assert!(classify("Seattle, WAA").is_none());
}

#[test]
fn classify_rejects_short_state_token() {
    assert!(classify("Seattle, W").is_none());
}

#[test]
fn classify_rejects_digits_in_city() {
    assert!(classify("New York123").is_none());
}

#[test]
fn classify_rejects_empty_and_garbage() {
    assert!(classify("").is_none());
    assert!(classify("???").is_none());
    assert!(classify("   ").is_none());
    assert!(classify("12345 Seattle").is_none());
}
