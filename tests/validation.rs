use weather_core::validate::{validate_city, validate_country_code};

#[test]
fn city_plain_names_accepted() {
    assert!(validate_city("Madrid"));
    assert!(validate_city("New York"));
    assert!(validate_city("St. John's"));
    assert!(validate_city("Saint-Étienne"));
    assert!(validate_city("München"));
    assert!(validate_city("Washington, D.C."));
}

#[test]
fn city_trimmed_before_checking() {
    assert!(validate_city("  Madrid \t"));
    assert!(!validate_city("   "));
    assert!(!validate_city(" a "));
}

#[test]
fn city_with_digits_rejected() {
    assert!(!validate_city("Madrid1"));
    assert!(!validate_city("42"));
    assert!(!validate_city("Ber7lin"));
}

#[test]
fn city_with_other_punctuation_rejected() {
    assert!(!validate_city("Madrid!"));
    assert!(!validate_city("Par;is"));
    assert!(!validate_city("Lon/don"));
    assert!(!validate_city("Rome_"));
    assert!(!validate_city("Oslo?"));
}

#[test]
fn city_too_short_rejected() {
    assert!(!validate_city(""));
    assert!(!validate_city("A"));
    assert!(!validate_city("é"));
    assert!(validate_city("Ao"));
}

#[test]
fn country_code_two_uppercase_letters() {
    assert!(validate_country_code("ES"));
    assert!(validate_country_code("US"));
}

#[test]
fn country_code_other_shapes_rejected() {
    assert!(!validate_country_code(""));
    assert!(!validate_country_code("E"));
    assert!(!validate_country_code("es"));
    assert!(!validate_country_code("Es"));
    assert!(!validate_country_code("ESP"));
    assert!(!validate_country_code("E1"));
    assert!(!validate_country_code(" ES"));
    assert!(!validate_country_code("ES\n"));
    assert!(!validate_country_code("ÉS"));
}
