use mecha_ctl::motion::{AxisValue, MotionSensorControl, MotionSensorControlErrorCodes};

fn sensor() -> MotionSensorControl {
    MotionSensorControl::new("iio/x_raw", "iio/y_raw", "iio/z_raw")
}

#[test]
fn test_read_motion_sensor() {
    let sensor = sensor();

    let result = sensor.read_motion_sensor_value(Some("1.0\n"), Some("2.0\n"), Some("3.0\n"));

    assert!(result.is_ok());
    assert_eq!(
        result.unwrap(),
        (
            AxisValue { negative: false, int_part: 1, frac_part: 0 },
            AxisValue { negative: false, int_part: 2, frac_part: 0 },
            AxisValue { negative: false, int_part: 3, frac_part: 0 },
        )
    );
}

#[test]
fn test_detact_motion_sensor_event() {
    let sensor = sensor();

    let result = sensor.detect_motion_sensor_event(Some("1.0\n"), Some("2.0\n"), Some("3.0\n"));

    assert!(result.is_ok());
    assert_eq!(result.unwrap(), true);
}

#[test]
fn test_motion_event_all_zero_axes() {
    let sensor = sensor();

    let quiet = sensor.detect_motion_sensor_event(Some("0.0\n"), Some("0.0\n"), Some("0.0\n"));
    assert_eq!(quiet.unwrap(), false);

    let moving = sensor.detect_motion_sensor_event(Some("0.0\n"), Some("0.3\n"), Some("0.0\n"));
    assert_eq!(moving.unwrap(), true);
}

#[test]
fn test_motion_axis_parse_shapes() {
    let sensor = sensor();

    let negative = sensor.read_axis(Some("-12.25\n")).unwrap();
    assert_eq!(
        negative,
        AxisValue { negative: true, int_part: 12, frac_part: 25 }
    );

    let bare = sensor.read_axis(Some("7\n")).unwrap();
    assert_eq!(bare, AxisValue { negative: false, int_part: 7, frac_part: 0 });

    let fraction_only = sensor.read_axis(Some(".5\n")).unwrap();
    assert_eq!(
        fraction_only,
        AxisValue { negative: false, int_part: 0, frac_part: 5 }
    );

    let negative_zero = sensor.read_axis(Some("-0.0\n")).unwrap();
    assert_eq!(
        negative_zero,
        AxisValue { negative: true, int_part: 0, frac_part: 0 }
    );
}

#[test]
fn test_motion_axis_errors() {
    let sensor = sensor();

    let open_err = sensor.read_axis(None).unwrap_err();
    assert_eq!(open_err.code, MotionSensorControlErrorCodes::UnableToOpenFile);

    let empty_err = sensor.read_axis(Some("")).unwrap_err();
    assert_eq!(empty_err.code, MotionSensorControlErrorCodes::UnableToOpenFile);

    let parse_err = sensor.read_axis(Some("fast\n")).unwrap_err();
    assert_eq!(parse_err.code, MotionSensorControlErrorCodes::UnableToParseValue);
}

#[test]
fn test_motion_first_failure_wins() {
    let sensor = sensor();

    let x_first = sensor
        .read_motion_sensor_value(None, Some("bad\n"), Some("1.0\n"))
        .unwrap_err();
    assert_eq!(
        x_first.code,
        MotionSensorControlErrorCodes::UnableToReadMotionSensorControl
    );
    assert_eq!(x_first.message, "unable to read x axis value");

    let y_next = sensor
        .read_motion_sensor_value(Some("1.0\n"), None, None)
        .unwrap_err();
    assert_eq!(y_next.message, "unable to read y axis value");

    let z_last = sensor
        .read_motion_sensor_value(Some("1.0\n"), Some("2.0\n"), None)
        .unwrap_err();
    assert_eq!(z_last.message, "unable to read z axis value");
}

#[test]
fn test_detect_event_propagates_failure() {
    let sensor = sensor();

    let err = sensor
        .detect_motion_sensor_event(Some("1.0\n"), Some("oops\n"), Some("3.0\n"))
        .unwrap_err();
    assert_eq!(
        err.code,
        MotionSensorControlErrorCodes::UnableToReadMotionSensorControl
    );
}
