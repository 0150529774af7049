use envmon::frame::{compose_frame, splash_frame, HUM_X, HUM_Y, SPLASH_X, SPLASH_Y, TEMP_X, TEMP_Y};
use envmon::reading::{DeviceView, SensorReading};

#[test]
fn reading_frame_has_two_fields_at_fixed_positions() {
    let r = SensorReading { temperature_deci: 215, humidity_deci: 400, timestamp: 7 };
    let f = compose_frame(&DeviceView::Reading(r));
    assert_eq!(f.fields.len(), 2);
    assert_eq!(f.fields[0].content, "21.5");
    assert_eq!((f.fields[0].x, f.fields[0].y), (TEMP_X, TEMP_Y));
    assert_eq!(f.fields[1].content, "40.0");
    assert_eq!((f.fields[1].x, f.fields[1].y), (HUM_X, HUM_Y));
}

#[test]
fn positions_are_the_fixed_screen_coordinates() {
    assert_eq!((TEMP_X, TEMP_Y), (10, 30));
    assert_eq!((HUM_X, HUM_Y), (10, 50));
    assert_eq!((SPLASH_X, SPLASH_Y), (10, 10));
}

#[test]
fn placeholder_frame_blanks_both_values() {
    let f = compose_frame(&DeviceView::Placeholder);
    assert_eq!(f.fields.len(), 2);
    assert_eq!(f.fields[0].content, "--.-");
    assert_eq!(f.fields[1].content, "--.-");
    assert_eq!((f.fields[0].x, f.fields[0].y), (TEMP_X, TEMP_Y));
    assert_eq!((f.fields[1].x, f.fields[1].y), (HUM_X, HUM_Y));
}

#[test]
fn negative_temperature_renders_with_sign() {
    let r = SensorReading { temperature_deci: -123, humidity_deci: 0, timestamp: 0 };
    let f = compose_frame(&DeviceView::Reading(r));
    assert_eq!(f.fields[0].content, "-12.3");
    assert_eq!(f.fields[1].content, "0.0");
}

#[test]
fn splash_frame_greets_at_fixed_position() {
    let f = splash_frame();
    assert_eq!(f.fields.len(), 1);
    assert_eq!(f.fields[0].content, "Hello Alex");
    assert_eq!((f.fields[0].x, f.fields[0].y), (SPLASH_X, SPLASH_Y));
}
