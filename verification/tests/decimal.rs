use acpi_backlight::decimal::attribute_text;
use acpi_backlight::decimal::parse_attribute_value;
use acpi_backlight::decimal::AttributeError;

#[test]
fn parse_plain_values() {
    assert_eq!(parse_attribute_value("27182"), Ok(27182));
    assert_eq!(parse_attribute_value("0"), Ok(0));
    assert_eq!(parse_attribute_value("007"), Ok(7));
    assert_eq!(parse_attribute_value("-1"), Ok(-1));
    assert_eq!(parse_attribute_value("+11"), Ok(11));
}

#[test]
fn parse_trims_whitespace() {
    assert_eq!(parse_attribute_value(" 31415\n"), Ok(31415));
    assert_eq!(parse_attribute_value("\t-42\r\n"), Ok(-42));
    assert_eq!(parse_attribute_value("11 "), Ok(11));
}

#[test]
fn parse_accepts_the_whole_range() {
    assert_eq!(parse_attribute_value("32767"), Ok(32767));
    assert_eq!(parse_attribute_value("-32768"), Ok(-32768));
    assert_eq!(parse_attribute_value("00032767"), Ok(32767));
}

#[test]
fn parse_refuses_values_out_of_range() {
    assert_eq!(parse_attribute_value("32768"), Err(AttributeError::Malformed));
    assert_eq!(parse_attribute_value("-32769"), Err(AttributeError::Malformed));
    assert_eq!(parse_attribute_value("99999999999999999999"), Err(AttributeError::Malformed));
}

#[test]
fn parse_refuses_malformed_text() {
    assert_eq!(parse_attribute_value(""), Err(AttributeError::Malformed));
    assert_eq!(parse_attribute_value("   "), Err(AttributeError::Malformed));
    assert_eq!(parse_attribute_value("abc"), Err(AttributeError::Malformed));
    assert_eq!(parse_attribute_value("12a"), Err(AttributeError::Malformed));
    assert_eq!(parse_attribute_value("1 2"), Err(AttributeError::Malformed));
    assert_eq!(parse_attribute_value("-"), Err(AttributeError::Malformed));
    assert_eq!(parse_attribute_value("+"), Err(AttributeError::Malformed));
    assert_eq!(parse_attribute_value("--1"), Err(AttributeError::Malformed));
    assert_eq!(parse_attribute_value("1.5"), Err(AttributeError::Malformed));
}

#[test]
fn attribute_text_values() {
    assert_eq!(attribute_text(0), "0");
    assert_eq!(attribute_text(7), "7");
    assert_eq!(attribute_text(10), "10");
    assert_eq!(attribute_text(27193), "27193");
    assert_eq!(attribute_text(-11), "-11");
    assert_eq!(attribute_text(32767), "32767");
    assert_eq!(attribute_text(-32768), "-32768");
}

#[test]
fn attribute_text_parses_back() {
    for v in [-32768, -407, -1, 0, 1, 9, 10, 99, 100, 27182, 32767] {
        assert_eq!(parse_attribute_value(&attribute_text(v)), Ok(v));
    }
}
