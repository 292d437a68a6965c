use mecha_ctl::cpu::{CpuFrequency, CpuGovernanceCtl, CpuGovernanceCtlErrorCodes};
use mecha_ctl::display::{DisplayControl, DisplayErrorCodes};
use mecha_ctl::led::{parse_rgb, LedColor, LedControl, LedctlErrorCodes};
use mecha_ctl::WriteOutcome;

#[test]
fn test_cpu_ctrl() {
    let cpu_ctrl = CpuGovernanceCtl::new();
    assert_eq!(
        cpu_ctrl.cpu_frequency_path,
        "/sys/devices/system/cpu/cpu0/cpufreq"
    );
}

#[test]
fn test_set_cpu_governor() {
    let cpu_ctrl = CpuGovernanceCtl::new();

    assert_eq!(
        cpu_ctrl.governor_file(),
        "/sys/devices/system/cpu/cpu0/cpufreq/scaling_governor".to_string()
    );
    assert_eq!(cpu_ctrl.governor_token(), "userspace");

    let result = cpu_ctrl.set_cpu_governor(WriteOutcome::Written);
    assert!(result.is_ok());
}

#[test]
fn test_get_cpu_governor() {
    let cpu_ctrl = CpuGovernanceCtl::new();

    let result = cpu_ctrl.get_cpu_governor(Some("userspace"));
    assert!(result.is_ok());
    assert_eq!(result.unwrap(), "userspace");
}

#[test]
fn test_get_cpu_frequency() {
    let cpu_ctrl = CpuGovernanceCtl::new();

    let result = cpu_ctrl.get_cpu_frequency(Some("1200000"));
    assert!(result.is_ok());
    assert_eq!(result.unwrap(), "1200000");
}

#[test]
fn test_set_cpu_frequency() {
    let cpu_ctrl = CpuGovernanceCtl::new();

    assert_eq!(
        cpu_ctrl.frequency_write_file(),
        "/sys/devices/system/cpu/cpu0/cpufreq/scaling_setspeed".to_string()
    );
    assert_eq!(CpuFrequency::Freq1200000.token(), "1200000");

    let result = cpu_ctrl.set_cpu_frequency(CpuFrequency::Freq1200000, WriteOutcome::Written);
    assert!(result.is_ok());
}

#[test]
fn test_cpu_frequency_tokens() {
    assert_eq!(CpuFrequency::Freq1600000.token(), "1600000");
    assert_eq!(CpuFrequency::Freq1800000.token(), "1800000");
}

#[test]
fn test_cpu_frequency_closed_set() {
    assert_eq!(
        CpuFrequency::from_level("1200"),
        Some(CpuFrequency::Freq1200000)
    );
    assert_eq!(
        CpuFrequency::from_level("1600"),
        Some(CpuFrequency::Freq1600000)
    );
    assert_eq!(
        CpuFrequency::from_level("1800"),
        Some(CpuFrequency::Freq1800000)
    );
    assert_eq!(CpuFrequency::from_level("1400"), None);
    assert_eq!(CpuFrequency::from_level("1200000"), None);
    assert_eq!(CpuFrequency::from_level(""), None);
}

#[test]
fn test_set_cpu_frequency_failure_points_distinct() {
    let cpu_ctrl = CpuGovernanceCtl::new();

    let path_err = cpu_ctrl
        .set_cpu_frequency(CpuFrequency::Freq1600000, WriteOutcome::CouldNotCreate)
        .unwrap_err();
    assert_eq!(
        path_err.code,
        CpuGovernanceCtlErrorCodes::FailedToSetCpuFrequencyPath
    );

    let write_err = cpu_ctrl
        .set_cpu_frequency(CpuFrequency::Freq1600000, WriteOutcome::CouldNotWrite)
        .unwrap_err();
    assert_eq!(
        write_err.code,
        CpuGovernanceCtlErrorCodes::FailedToSetCpuFrequency
    );
}

#[test]
fn test_display_brightness() {
    let display = DisplayControl::new("path/to/display", true).unwrap();

    let result = display.set_display_brightness(100);
    assert!(result.is_ok());
    let payload = result.unwrap();
    assert_eq!(payload, "100");

    let brightness = display.get_display_brightness(Some(&payload));
    assert!(brightness.is_ok());
    assert_eq!(brightness.unwrap(), 100);
}

#[test]
fn test_display_brightness_ceiling() {
    let display = DisplayControl::new("path/to/display", true).unwrap();

    let ok = display.set_display_brightness(244);
    assert_eq!(ok.unwrap(), "244");

    let err = display.set_display_brightness(245).unwrap_err();
    assert_eq!(err.code, DisplayErrorCodes::InvalidBrightnessValueError);

    let err = display.set_display_brightness(255).unwrap_err();
    assert_eq!(err.code, DisplayErrorCodes::InvalidBrightnessValueError);
}

#[test]
fn test_display_construction_validates_path() {
    let err = DisplayControl::new("no/such/path", false).unwrap_err();
    assert_eq!(err.code, DisplayErrorCodes::InvalidBrightnessPathError);
}

#[test]
fn test_display_get_brightness_errors() {
    let display = DisplayControl::new("path/to/display", true).unwrap();

    let open_err = display.get_display_brightness(None).unwrap_err();
    assert_eq!(open_err.code, DisplayErrorCodes::InvalidBrightnessPathError);

    let empty_err = display.get_display_brightness(Some("")).unwrap_err();
    assert_eq!(empty_err.code, DisplayErrorCodes::InvalidBrightnessValueError);

    let parse_err = display.get_display_brightness(Some("bright\n")).unwrap_err();
    assert_eq!(parse_err.code, DisplayErrorCodes::InvalidBrightnessValueError);

    let first_line = display.get_display_brightness(Some("90\n100\n"));
    assert_eq!(first_line.unwrap(), 90);
}

#[test]
fn test_racing_brightness_writers_settle_whole() {
    let display = DisplayControl::new("path/to/display", true).unwrap();

    // Whichever of two racing writers lands last, the file holds one whole
    // payload, and each payload reads back as the value it carried.
    let first = display.set_display_brightness(7).unwrap();
    let second = display.set_display_brightness(200).unwrap();

    assert_eq!(display.get_display_brightness(Some(&first)).unwrap(), 7);
    assert_eq!(display.get_display_brightness(Some(&second)).unwrap(), 200);
}

#[test]
fn test_led_ctrl_new() {
    let red_led_path = "/sys/class/leds/red_led/brightness";
    let green_led_path = "/sys/class/leds/green_led/brightness";
    let blue_led_path = "/sys/class/leds/blue_led/brightness";
    let led_ctrl = LedControl::new(red_led_path, green_led_path, blue_led_path);
    assert_eq!(led_ctrl.red_led_path, red_led_path);
    assert_eq!(led_ctrl.green_led_path, green_led_path);
    assert_eq!(led_ctrl.blue_led_path, blue_led_path);
}

#[test]
fn test_set_led() {
    let led_ctrl = LedControl::new("led/red", "led/green", "led/blue");

    let writes = led_ctrl.set_led(1, 2, 3);

    assert_eq!(writes.len(), 3);
    assert_eq!(writes[0].path, "led/red");
    assert_eq!(writes[0].payload, "1");
    assert_eq!(writes[1].path, "led/green");
    assert_eq!(writes[1].payload, "2");
    assert_eq!(writes[2].path, "led/blue");
    assert_eq!(writes[2].payload, "3");
}

#[test]
fn test_clear_led() {
    let led_ctrl = LedControl::new("led/red", "green", "blue");

    let write = led_ctrl.clear_led(LedColor::Red);

    assert_eq!(write.path, "led/red");
    assert_eq!(write.payload, "0");
}

#[test]
fn test_rgb_descriptor_shapes() {
    assert_eq!(parse_rgb("1,2,3").unwrap(), (true, true, true));
    assert_eq!(parse_rgb("0,0,0").unwrap(), (false, false, false));
    assert_eq!(parse_rgb("0,3,0").unwrap(), (false, true, false));

    let err = parse_rgb("1,2").unwrap_err();
    assert_eq!(err.code, LedctlErrorCodes::InvalidLedColorError);

    let err = parse_rgb("1,2,3,4").unwrap_err();
    assert_eq!(err.code, LedctlErrorCodes::InvalidLedColorError);

    let err = parse_rgb("red,2,3").unwrap_err();
    assert_eq!(err.code, LedctlErrorCodes::InvalidLedColorError);

    let err = parse_rgb("256,0,0").unwrap_err();
    assert_eq!(err.code, LedctlErrorCodes::InvalidLedColorError);

    let err = parse_rgb("").unwrap_err();
    assert_eq!(err.code, LedctlErrorCodes::InvalidLedColorError);
}

#[test]
fn test_led_write_result() {
    let led_ctrl = LedControl::new("r", "g", "b");

    assert!(led_ctrl.write_result(true).is_ok());
    let err = led_ctrl.write_result(false).unwrap_err();
    assert_eq!(err.code, LedctlErrorCodes::InvalidLedPathValueError);
}
