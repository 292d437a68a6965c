use mecha_ctl::device_info::{DeviceInfoControl, DeviceInfoCtlErrorCodes};
use mecha_ctl::metrics::DeviceMetricsCtl;

#[test]
fn test_get_memory_info() {
    let memory_info = DeviceInfoControl::memory_info_from_stats(8000, 2000, 3000);

    assert_eq!(memory_info.total_memory, 8000);
    assert_eq!(memory_info.free_memory, 2000);
    assert_eq!(memory_info.available_memory, 3000);
}

#[test]
fn test_get_cpu_info() {
    let cpu_info = DeviceInfoControl::cpu_info_from_parts(
        "Intel(R) Core(TM) i7-7700HQ CPU @ 2.80GHz".to_string(),
        2800000,
        Some(4),
    )
    .unwrap();

    assert_eq!(
        cpu_info.cpu_name,
        "Intel(R) Core(TM) i7-7700HQ CPU @ 2.80GHz"
    );
    assert_eq!(cpu_info.cpu_frequency, 2800000);
    assert_eq!(cpu_info.number_of_cores, 4);
}

#[test]
fn test_get_disk_info() {
    let disk_info = DeviceInfoControl::disk_info_from_parts(
        "sda".to_string(),
        "ext4".to_string(),
        false,
        "/".to_string(),
        1000000000,
        500000000,
    );

    assert_eq!(disk_info.name, "sda");
    assert_eq!(disk_info.fs, "ext4");
    assert_eq!(disk_info.removable, false);
    assert_eq!(disk_info.mount_point, "/");
    assert_eq!(disk_info.used_space, 500000000);
    assert_eq!(disk_info.total_space, 1000000000);
}

#[test]
fn test_cpu_info_without_core_count() {
    let err = DeviceInfoControl::cpu_info_from_parts("brand".to_string(), 1000, None).unwrap_err();

    assert_eq!(err.code, DeviceInfoCtlErrorCodes::FailedToGetCpuUsage);
}

#[test]
fn test_disk_usage_from_space() {
    assert_eq!(DeviceMetricsCtl::disk_usage_from_space(1000, 400), 600);
    assert_eq!(DeviceMetricsCtl::disk_usage_from_space(1000, 1000), 0);
    // inconsistent figures floor at zero instead of wrapping
    assert_eq!(DeviceMetricsCtl::disk_usage_from_space(400, 1000), 0);
}

#[test]
fn test_memory_info_sampled_from_machine() {
    let device_info = DeviceInfoControl::new();

    let memory_info = device_info.get_memory_info().unwrap();
    assert!(memory_info.total_memory >= memory_info.free_memory);
}

#[test]
fn test_metrics_sampled_from_machine() {
    let metrics = DeviceMetricsCtl::new();

    assert!(metrics.get_memory_usage().is_ok());
}
