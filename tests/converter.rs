use weathrs::converter::{convert_temperature, format_hundredths, to_titlecase, TemperatureFormat};

#[test]
fn freezing_point_in_celsius_and_fahrenheit() {
    let (c, cu) = convert_temperature(27315, TemperatureFormat::Celsius);
    assert_eq!(c, 0);
    assert_eq!(cu, "°C");
    let (f, fu) = convert_temperature(27315, TemperatureFormat::Fahrenheit);
    assert_eq!(f, 3200);
    assert_eq!(fu, "°F");
}

#[test]
fn kelvin_is_kept_unchanged() {
    let (k, ku) = convert_temperature(29515, TemperatureFormat::Kelvin);
    assert_eq!(k, 29515);
    assert_eq!(ku, "K");
    assert_eq!(convert_temperature(-7, TemperatureFormat::Kelvin).0, -7);
}

#[test]
fn celsius_is_rounded_to_whole_degrees() {
    assert_eq!(convert_temperature(29515, TemperatureFormat::Celsius).0, 2200);
    assert_eq!(convert_temperature(29564, TemperatureFormat::Celsius).0, 2200);
    assert_eq!(convert_temperature(27365, TemperatureFormat::Celsius).0, 100);
    assert_eq!(convert_temperature(27265, TemperatureFormat::Celsius).0, -100);
    assert_eq!(convert_temperature(27266, TemperatureFormat::Celsius).0, 0);
    assert_eq!(convert_temperature(0, TemperatureFormat::Celsius).0, -27300);
}

#[test]
fn fahrenheit_is_rounded_to_whole_degrees() {
    // 22 °C is 71.6 °F
    assert_eq!(convert_temperature(29515, TemperatureFormat::Fahrenheit).0, 7200);
    // -40 °C is -40 °F
    assert_eq!(convert_temperature(23315, TemperatureFormat::Fahrenheit).0, -4000);
    // 100 °C is 212 °F
    assert_eq!(convert_temperature(37315, TemperatureFormat::Fahrenheit).0, 21200);
}

#[test]
fn extreme_inputs_do_not_overflow() {
    let (c, _) = convert_temperature(i32::MAX, TemperatureFormat::Celsius);
    assert_eq!(c, 2147456300);
    let (f, _) = convert_temperature(i32::MIN, TemperatureFormat::Fahrenheit);
    assert_eq!(f, -3865516500);
}

#[test]
fn hundredths_are_written_with_fewest_digits() {
    assert_eq!(format_hundredths(2200), "22");
    assert_eq!(format_hundredths(29515), "295.15");
    assert_eq!(format_hundredths(29510), "295.1");
    assert_eq!(format_hundredths(5), "0.05");
    assert_eq!(format_hundredths(-50), "-0.5");
    assert_eq!(format_hundredths(0), "0");
    assert_eq!(format_hundredths(-27300), "-273");
}

#[test]
fn titlecase_examples() {
    assert_eq!(to_titlecase("scattered clouds"), "Scattered Clouds");
    assert_eq!(to_titlecase(""), "");
    assert_eq!(to_titlecase("a b"), "A B");
}

#[test]
fn titlecase_collapses_whitespace_and_keeps_the_rest() {
    assert_eq!(to_titlecase("  light   rain  "), "Light Rain");
    assert_eq!(to_titlecase("heavy\tiNTENSITY\nrain"), "Heavy INTENSITY Rain");
    assert_eq!(to_titlecase("   "), "");
    assert_eq!(to_titlecase("3 clouds"), "3 Clouds");
}

#[test]
fn titlecase_uses_full_unicode_uppercase() {
    assert_eq!(to_titlecase("élan vital"), "Élan Vital");
    assert_eq!(to_titlecase("ßa"), "SSa");
}
