use mecha_ctl::bluetooth::{
    AdapterCommand, AdapterQuery, BluetoothControl, BluetoothErrorCodes,
};
use mecha_ctl::network::{
    KnownNetworkItem, NetworkErrorCodes, NetworkManager, WirelessScanItem,
};

#[test]
fn test_bluetooth_session_gate() {
    let controller = BluetoothControl::new(true);
    assert!(controller.is_ok());

    let err = BluetoothControl::new(false).unwrap_err();
    assert_eq!(err.code, BluetoothErrorCodes::NoBluetoothDeviceFound);
    assert_eq!(err.message, "unable to detect radio stack");
}

#[test]
fn test_bluetooth_status_outcomes() {
    let controller = BluetoothControl::new(true).unwrap();

    assert_eq!(controller.bluetooth_status(AdapterQuery::Powered(true)).unwrap(), true);
    assert_eq!(controller.bluetooth_status(AdapterQuery::Powered(false)).unwrap(), false);

    let err = controller.bluetooth_status(AdapterQuery::QueryFailed).unwrap_err();
    assert_eq!(err.code, BluetoothErrorCodes::UnableToGetBluetoothDeviceStatus);

    let err = controller.bluetooth_status(AdapterQuery::NoAdapter).unwrap_err();
    assert_eq!(err.code, BluetoothErrorCodes::Unknown);
}

#[test]
fn test_bluetooth_power_commands() {
    let controller = BluetoothControl::new(true).unwrap();

    assert!(controller.enable_bluetooth(AdapterCommand::Done).is_ok());
    let err = controller.enable_bluetooth(AdapterCommand::CommandFailed).unwrap_err();
    assert_eq!(err.code, BluetoothErrorCodes::UnableToTurnOnBluetooth);

    assert!(controller.disable_bluetooth(AdapterCommand::Done).is_ok());
    let err = controller.disable_bluetooth(AdapterCommand::CommandFailed).unwrap_err();
    assert_eq!(err.code, BluetoothErrorCodes::UnableToTurnOffBluetooth);
}

#[test]
fn test_wifi_status_is_total() {
    let manager = NetworkManager::default();

    assert_eq!(manager.get_wifi_status(false).wifi_on, false);
    assert_eq!(manager.get_wifi_status(true).wifi_on, true);
}

#[test]
fn test_wifi_connect_response_messages() {
    let manager = NetworkManager::default();

    let ok = manager.connect_wireless_network(true);
    assert!(ok.success);
    assert_eq!(ok.message, "WiFi connection successful");

    let failed = manager.connect_wireless_network(false);
    assert!(!failed.success);
    assert_eq!(failed.message, "WiFi connection failed");
}

#[test]
fn test_wifi_removal_response_messages() {
    let manager = NetworkManager::default();

    let ok = manager.disconnect_wireless_network(true);
    assert!(ok.success);
    assert_eq!(ok.message, "WiFi network removed successfully");

    let failed = manager.disconnect_wireless_network(false);
    assert!(!failed.success);
    assert_eq!(failed.message, "WiFi network removal failed");
}

#[test]
fn test_scan_conversion() {
    let manager = NetworkManager::default();

    let items = vec![WirelessScanItem {
        mac: "aa:bb:cc:dd:ee:ff".to_string(),
        frequency: "2437".to_string(),
        signal: -61,
        flags: "[WPA2-PSK-CCMP][ESS]".to_string(),
        name: "workshop".to_string(),
    }];

    let results = manager.scan_wireless_network(Some(items)).unwrap();

    assert_eq!(results.len(), 1);
    assert_eq!(results[0].mac, "aa:bb:cc:dd:ee:ff");
    assert_eq!(results[0].frequency, "2437");
    assert_eq!(results[0].signal, -61);
    assert_eq!(results[0].flags, "[WPA2-PSK-CCMP][ESS]");
    assert_eq!(results[0].name, "workshop");

    let err = manager.scan_wireless_network(None).unwrap_err();
    assert_eq!(err.code, NetworkErrorCodes::UnableToScanWifi);
}

#[test]
fn test_known_network_conversion() {
    let manager = NetworkManager::default();

    let items = vec![KnownNetworkItem {
        network_id: 3,
        ssid: "workshop".to_string(),
        flags: "[CURRENT]".to_string(),
    }];

    let results = manager.scan_known_wireless_network(Some(items)).unwrap();

    assert_eq!(results.len(), 1);
    assert_eq!(results[0].network_id, 3);
    assert_eq!(results[0].ssid, "workshop");
    assert_eq!(results[0].flags, "[CURRENT]");
}

#[test]
fn test_current_network_conversion() {
    let manager = NetworkManager::default();

    let current = manager
        .get_current_network(Some(WirelessScanItem {
            mac: "aa:bb:cc:dd:ee:00".to_string(),
            frequency: "5180".to_string(),
            signal: -40,
            flags: "[ESS]".to_string(),
            name: "uplink".to_string(),
        }))
        .unwrap();
    assert_eq!(current.name, "uplink");
    assert_eq!(current.signal, -40);

    let err = manager.get_current_network(None).unwrap_err();
    assert_eq!(err.code, NetworkErrorCodes::Unknown);
}

#[test]
fn test_network_id_from_name_string() {
    let manager = NetworkManager::default();

    assert_eq!(manager.parse_network_id("42"), Some(42));
    assert_eq!(manager.parse_network_id("workshop"), None);
    assert_eq!(manager.parse_network_id(""), None);
}
