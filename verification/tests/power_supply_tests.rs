use mecha_ctl::power_supply::{Battery, PowerSupplyErrorCodes};

#[test]
fn test_battery_info() {
    let battery = Battery::default();

    let contents = "POWER_SUPPLY_NAME=BAT0\n\
POWER_SUPPLY_VOLTAGE_NOW=12157000\n\
POWER_SUPPLY_TYPE=Battery\n\
POWER_SUPPLY_STATUS=Discharging\n\
POWER_SUPPLY_PRESENT=1\n\
POWER_SUPPLY_CURRENT_NOW=0\n\
POWER_SUPPLY_CAPACITY=100\n\
POWER_SUPPLY_CAPACITY_LEVEL=Normal\n\
POWER_SUPPLY_TEMP=30000\n\
POWER_SUPPLY_TECHNOLOGY=Li-ion\n\
POWER_SUPPLY_CHARGE_FULL=4400000\n\
POWER_SUPPLY_CHARGE_NOW=4400000\n\
POWER_SUPPLY_CHARGE_FULL_DESIGN=4400000\n\
POWER_SUPPLY_MANUFACTURER=SMP\n";

    let power_supply = battery.info(Some(contents)).unwrap();

    assert_eq!(power_supply.name, "BAT0");
    assert_eq!(power_supply.voltage_now, 12157000);
    assert_eq!(power_supply.supply_type, "Battery");
    assert_eq!(power_supply.status, "Discharging");
    assert_eq!(power_supply.present, true);
    assert_eq!(power_supply.current_now, 0);
    assert_eq!(power_supply.capacity, 100);
    assert_eq!(power_supply.capacity_level, "Normal");
    assert_eq!(power_supply.temp, 30000);
    assert_eq!(power_supply.technology, "Li-ion");
    assert_eq!(power_supply.charge_full, 4400000);
    assert_eq!(power_supply.charge_now, 4400000);
    assert_eq!(power_supply.charge_full_design, 4400000);
    assert_eq!(power_supply.manufacturer, "SMP");
}

#[test]
fn test_set_device() {
    let mut battery = Battery::default();
    battery.set_device("test_path").unwrap();

    assert_eq!(battery.path, "test_path");
}

#[test]
fn test_get_device() {
    let mut battery = Battery::default();
    battery.path = "test_path".to_string();

    assert_eq!(battery.get_device().unwrap(), "test_path");
}

#[test]
fn test_get_current() {
    let battery = Battery::default();

    let current = battery.get_current(Some("12345\n")).unwrap();

    assert_eq!(current, 12345);
}

#[test]
fn test_set_device_empty_rejected() {
    let mut battery = Battery::default();
    battery.path = "kept".to_string();

    let err = battery.set_device("").unwrap_err();

    assert_eq!(err.code, PowerSupplyErrorCodes::FailedToOpenFile);
    assert_eq!(battery.path, "kept");
}

#[test]
fn test_get_device_empty_path() {
    let battery = Battery::default();

    let err = battery.get_device().unwrap_err();

    assert_eq!(err.code, PowerSupplyErrorCodes::FailedToOpenFile);
}

#[test]
fn test_info_unopenable_file() {
    let battery = Battery::default();

    let err = battery.info(None).unwrap_err();

    assert_eq!(err.code, PowerSupplyErrorCodes::FailedToOpenFile);
}

#[test]
fn test_info_unknown_keys_ignored_and_missing_keys_default() {
    let battery = Battery::default();

    let contents = "POWER_SUPPLY_NAME=BAT1\nPOWER_SUPPLY_WEATHER=sunny\nNOISE\n";
    let power_supply = battery.info(Some(contents)).unwrap();

    assert_eq!(power_supply.name, "BAT1");
    assert_eq!(power_supply.supply_type, "");
    assert_eq!(power_supply.present, false);
    assert_eq!(power_supply.voltage_now, 0);
    assert_eq!(power_supply.current_now, 0);
    assert_eq!(power_supply.capacity, 0);
    assert_eq!(power_supply.temp, 0);
    assert_eq!(power_supply.charge_full, 0);
    assert_eq!(power_supply.charge_now, 0);
    assert_eq!(power_supply.charge_full_design, 0);
    assert_eq!(power_supply.manufacturer, "");
}

#[test]
fn test_info_malformed_numeric_defaults_to_zero() {
    let battery = Battery::default();

    let contents = "POWER_SUPPLY_CAPACITY=many\nPOWER_SUPPLY_VOLTAGE_NOW=12x\nPOWER_SUPPLY_TEMP=-5\n";
    let power_supply = battery.info(Some(contents)).unwrap();

    assert_eq!(power_supply.capacity, 0);
    assert_eq!(power_supply.voltage_now, 0);
    assert_eq!(power_supply.temp, -5);
}

#[test]
fn test_info_whitespace_trimmed() {
    let battery = Battery::default();

    let contents = "POWER_SUPPLY_NAME = BAT2 \n POWER_SUPPLY_CAPACITY = 42\n";
    let power_supply = battery.info(Some(contents)).unwrap();

    assert_eq!(power_supply.name, "BAT2");
    assert_eq!(power_supply.capacity, 42);
}

#[test]
fn test_get_current_negative_and_invalid() {
    let battery = Battery::default();

    assert_eq!(battery.get_current(Some("-250000\n")).unwrap(), -250000);

    let err = battery.get_current(Some("not a number\n")).unwrap_err();
    assert_eq!(err.code, PowerSupplyErrorCodes::InvalidDataFormat);
}

#[test]
fn test_error_code_names() {
    assert_eq!(
        PowerSupplyErrorCodes::FailedToOpenFile.name(),
        "FailedToOpenFile".to_string()
    );
    assert_eq!(
        PowerSupplyErrorCodes::InvalidDataFormat.name(),
        "InvalidDataFormat".to_string()
    );
}
