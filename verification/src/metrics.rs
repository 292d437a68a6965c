//! Device metrics controller: memory and primary-disk usage.
//!
//! The system handle is loaded once at construction and read on demand.
//! The one figure this controller computes itself — the primary disk's used
//! share — is verified; the sampled numbers are machine state.

use crate::device_info::spec_used_space;
use crate::sys::{
    disk_available_space, disk_total_space, sys_disks, sys_new_all, sys_refresh_all,
    sys_used_memory,
};
use vstd::prelude::*;
use vstd::string::*;

verus! {

#[derive(Debug, Clone, Copy, PartialEq, Eq)]
pub enum DeviceMetricsCtlErrorCodes {
    UnknownError,
    FailedToGetCpuUsage,
    FailedToGetMemoryUsage,
    FailedToGetDiskUsage,
}

impl DeviceMetricsCtlErrorCodes {
    /// The code's name, as the front-ends print it.
    pub fn name(&self) -> (r: String)
        ensures
            match *self {
                DeviceMetricsCtlErrorCodes::UnknownError => r@ == "UnknownError"@,
                DeviceMetricsCtlErrorCodes::FailedToGetCpuUsage => r@ == "FailedToGetCpuUsage"@,
                DeviceMetricsCtlErrorCodes::FailedToGetMemoryUsage => r@
                    == "FailedToGetMemoryUsage"@,
                DeviceMetricsCtlErrorCodes::FailedToGetDiskUsage => r@ == "FailedToGetDiskUsage"@,
            },
    {
        match *self {
            DeviceMetricsCtlErrorCodes::UnknownError => String::from_str("UnknownError"),
            DeviceMetricsCtlErrorCodes::FailedToGetCpuUsage => String::from_str(
                "FailedToGetCpuUsage",
            ),
            DeviceMetricsCtlErrorCodes::FailedToGetMemoryUsage => String::from_str(
                "FailedToGetMemoryUsage",
            ),
            DeviceMetricsCtlErrorCodes::FailedToGetDiskUsage => String::from_str(
                "FailedToGetDiskUsage",
            ),
        }
    }
}

#[derive(Debug)]
pub struct DeviceMetricsCtlError {
    pub code: DeviceMetricsCtlErrorCodes,
    pub message: String,
}

impl DeviceMetricsCtlError {
    pub fn new(code: DeviceMetricsCtlErrorCodes, message: String) -> (r: Self)
        ensures
            r.code == code,
            r.message == message,
    {
        DeviceMetricsCtlError { code, message }
    }
}

/// Holds the system handle loaded at construction.
pub struct DeviceMetricsCtl {
    system: sysinfo::System,
}

impl DeviceMetricsCtl {
    pub fn new() -> (r: Self) {
        let mut system = sys_new_all();
        sys_refresh_all(&mut system);
        DeviceMetricsCtl { system }
    }

    /// The used share of a disk from its total and available space.
    pub fn disk_usage_from_space(total: u64, available: u64) -> (r: u64)
        ensures
            r == spec_used_space(total, available),
    {
        if available <= total {
            total - available
        } else {
            0
        }
    }

    /// Bytes of memory in use; sampling cannot fail.
    pub fn get_memory_usage(&self) -> (r: Result<u64, DeviceMetricsCtlError>)
        ensures
            r is Ok,
    {
        Ok(sys_used_memory(&self.system))
    }

    /// Used bytes on the primary disk: the first disk listed; a machine
    /// that lists none is the disk error.
    pub fn get_disk_usage(&self) -> (r: Result<u64, DeviceMetricsCtlError>)
        ensures
            r is Err ==> r->Err_0.code is FailedToGetDiskUsage,
    {
        let disks = sys_disks(&self.system);
        if disks.len() == 0 {
            return Err(
                DeviceMetricsCtlError::new(
                    DeviceMetricsCtlErrorCodes::FailedToGetDiskUsage,
                    String::from_str("failed to get disk usage"),
                ),
            );
        }
        let d = &disks[0];
        Ok(Self::disk_usage_from_space(disk_total_space(d), disk_available_space(d)))
    }
}

} // verus!
