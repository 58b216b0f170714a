use acpi_backlight::backlight::BacklightConfig;

#[test]
fn create_backlight_config() {
    let backlight = BacklightConfig::from_config(31415, 27182);

    assert_eq!(backlight.brightness, 27182);
    assert_eq!(backlight.max, 31415);
}

#[test]
fn validate_percentage() {
    let mut backlight = BacklightConfig::from_config(31415, 27182);

    let expected = format!("{:.3}", backlight.brightness as f32 / backlight.max as f32);
    assert_eq!(backlight.percentage(), expected);

    backlight.brightness = backlight.max;
    assert_eq!(backlight.percentage(), "1.000");
}

#[test]
fn increase_brightness() {
    let mut backlight = BacklightConfig::from_config(31415, 27182);

    let expected = backlight.brightness + 11;
    backlight.change_brightness(11);
    assert_eq!(backlight.brightness, expected);
    assert_eq!(backlight.brightness, 27193);
}

#[test]
fn overflow_brightness() {
    let mut backlight = BacklightConfig::from_config(31415, 27182);

    backlight.brightness = backlight.max;
    backlight.change_brightness(11);
    assert_eq!(backlight.brightness, backlight.max);

    backlight.brightness = backlight.max + 123;
    backlight.change_brightness(11);
    assert_eq!(backlight.brightness, backlight.max);
}

#[test]
fn decrease_brightness() {
    let mut backlight = BacklightConfig::from_config(31415, 27182);

    let expected = backlight.brightness - 11;
    backlight.change_brightness(-11);
    assert_eq!(backlight.brightness, expected);
}

#[test]
fn underflow_brightness() {
    let mut backlight = BacklightConfig::from_config(31415, 27182);

    backlight.brightness = backlight.min;
    backlight.change_brightness(-11);
    assert_eq!(backlight.brightness, backlight.min);

    backlight.brightness = 0;
    backlight.change_brightness(-11);
    assert_eq!(backlight.brightness, backlight.min);

    backlight.brightness = -123;
    backlight.change_brightness(-11);
    assert_eq!(backlight.brightness, backlight.min);
}

#[test]
fn unchanged_at_ceiling() {
    let mut backlight = BacklightConfig::from_config(31415, 31415);
    backlight.change_brightness(50);
    assert_eq!(backlight.brightness, 31415);
}

#[test]
fn unchanged_at_floor() {
    let mut backlight = BacklightConfig::from_config(31415, 1);
    backlight.change_brightness(-50);
    assert_eq!(backlight.brightness, 1);
}

#[test]
fn clamps_from_below_to_floor_not_zero() {
    let mut backlight = BacklightConfig::from_config(31415, -123);
    backlight.change_brightness(-11);
    assert_eq!(backlight.brightness, 1);
}

#[test]
fn clamp_stays_in_range() {
    for start in [-200i16, 0, 1, 100, 31415] {
        for delta in [-32767i16, -50, -1, 0, 1, 50, 32767] {
            let mut backlight = BacklightConfig::from_config(31415, start);
            backlight.change_brightness(delta);
            assert!(backlight.brightness >= backlight.min);
            assert!(backlight.brightness <= backlight.max);
        }
    }
}

#[test]
fn percentage_at_max_is_one() {
    for max in [1i16, 2, 7, 100, 32767] {
        let backlight = BacklightConfig::from_config(max, max);
        assert_eq!(backlight.percentage(), "1.000");
    }
}

#[test]
fn percentage_values() {
    assert_eq!(BacklightConfig::from_config(2, 1).percentage(), "0.500");
    assert_eq!(BacklightConfig::from_config(1000, 865).percentage(), "0.865");
    assert_eq!(BacklightConfig::from_config(32767, 1).percentage(), "0.000");
    assert_eq!(BacklightConfig::from_config(3, 2).percentage(), "0.667");
    assert_eq!(BacklightConfig::from_config(10000, 9996).percentage(), "1.000");
}
