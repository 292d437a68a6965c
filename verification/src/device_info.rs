//! Device information controller: memory, CPU and disk descriptions.
//!
//! The figures come from the system-information crate and are machine
//! state; what is verified is how they are combined — which inputs yield
//! which typed error, and that every field of a returned record carries
//! exactly the figure it was built from.

use crate::sys::{
    cpu_brand, cpu_frequency, disk_file_system, disk_is_removable, disk_mount_point, disk_name,
    disk_total_space, disk_available_space, sys_available_memory, sys_cpus, sys_disks,
    sys_free_memory, sys_new_all, sys_physical_core_count, sys_refresh_all, sys_total_memory,
};
use vstd::prelude::*;
use vstd::string::*;

verus! {

#[derive(Debug, Clone, Copy, PartialEq, Eq)]
pub enum DeviceInfoCtlErrorCodes {
    UnknownError,
    FailedToGetCpuUsage,
    FailedToGetMemoryUsage,
    FailedToGetDiskUsage,
}

impl DeviceInfoCtlErrorCodes {
    /// The code's name, as the front-ends print it.
    pub fn name(&self) -> (r: String)
        ensures
            match *self {
                DeviceInfoCtlErrorCodes::UnknownError => r@ == "UnknownError"@,
                DeviceInfoCtlErrorCodes::FailedToGetCpuUsage => r@ == "FailedToGetCpuUsage"@,
                DeviceInfoCtlErrorCodes::FailedToGetMemoryUsage => r@ == "FailedToGetMemoryUsage"@,
                DeviceInfoCtlErrorCodes::FailedToGetDiskUsage => r@ == "FailedToGetDiskUsage"@,
            },
    {
        match *self {
            DeviceInfoCtlErrorCodes::UnknownError => String::from_str("UnknownError"),
            DeviceInfoCtlErrorCodes::FailedToGetCpuUsage => String::from_str(
                "FailedToGetCpuUsage",
            ),
            DeviceInfoCtlErrorCodes::FailedToGetMemoryUsage => String::from_str(
                "FailedToGetMemoryUsage",
            ),
            DeviceInfoCtlErrorCodes::FailedToGetDiskUsage => String::from_str(
                "FailedToGetDiskUsage",
            ),
        }
    }
}

#[derive(Debug)]
pub struct DeviceInfoCtlError {
    pub code: DeviceInfoCtlErrorCodes,
    pub message: String,
}

impl DeviceInfoCtlError {
    pub fn new(code: DeviceInfoCtlErrorCodes, message: String) -> (r: Self)
        ensures
            r.code == code,
            r.message == message,
    {
        DeviceInfoCtlError { code, message }
    }
}

#[derive(Debug, Default, Clone, Copy, PartialEq, Eq)]
pub struct MemoryInfo {
    pub total_memory: u64,
    pub available_memory: u64,
    pub free_memory: u64,
}

#[derive(Debug, Default)]
pub struct CpuInfo {
    pub cpu_name: String,
    pub cpu_frequency: u64,
    pub number_of_cores: usize,
}

#[derive(Debug, Default)]
pub struct DiskInfo {
    pub name: String,
    pub fs: String,
    pub removable: bool,
    pub mount_point: String,
    pub used_space: u64,
    pub total_space: u64,
}

/// The used share of a disk: total minus available, floored at zero so no
/// inconsistent pair of figures can make the subtraction wrap.
pub open spec fn spec_used_space(total: u64, available: u64) -> u64 {
    if available <= total {
        (total - available) as u64
    } else {
        0u64
    }
}

#[derive(Debug, Default)]
pub struct DeviceInfoControl {}

impl DeviceInfoControl {
    pub fn new() -> (r: Self) {
        DeviceInfoControl {  }
    }

    /// A memory record carries exactly the three figures it was built from.
    pub fn memory_info_from_stats(total: u64, free: u64, available: u64) -> (r: MemoryInfo)
        ensures
            r.total_memory == total,
            r.free_memory == free,
            r.available_memory == available,
    {
        MemoryInfo { total_memory: total, free_memory: free, available_memory: available }
    }

    /// Sample the machine's memory figures. The figures themselves are
    /// machine state; the call itself cannot fail.
    pub fn get_memory_info(&self) -> (r: Result<MemoryInfo, DeviceInfoCtlError>)
        ensures
            r is Ok,
    {
        let mut system = sys_new_all();
        sys_refresh_all(&mut system);
        let total = sys_total_memory(&system);
        let free = sys_free_memory(&system);
        let available = sys_available_memory(&system);
        Ok(Self::memory_info_from_stats(total, free, available))
    }

    /// Combine one processor's figures: a machine that does not tell its
    /// physical core count yields the CPU error, nothing else does.
    pub fn cpu_info_from_parts(brand: String, frequency: u64, cores: Option<usize>) -> (r: Result<
        CpuInfo,
        DeviceInfoCtlError,
    >)
        ensures
            cores is None ==> r is Err && r->Err_0.code is FailedToGetCpuUsage,
            cores matches Some(n) ==> r is Ok && r->Ok_0.cpu_name == brand && r->Ok_0.cpu_frequency
                == frequency && r->Ok_0.number_of_cores == n,
    {
        match cores {
            None => Err(
                DeviceInfoCtlError::new(
                    DeviceInfoCtlErrorCodes::FailedToGetCpuUsage,
                    String::from_str("failed to get CPU info"),
                ),
            ),
            Some(n) => Ok(
                CpuInfo { cpu_name: brand, cpu_frequency: frequency, number_of_cores: n },
            ),
        }
    }

    /// Describe the first processor: no processor listed, or no core count,
    /// is the CPU error.
    pub fn get_cpu_info(&self) -> (r: Result<CpuInfo, DeviceInfoCtlError>)
        ensures
            r is Err ==> r->Err_0.code is FailedToGetCpuUsage,
    {
        let mut system = sys_new_all();
        sys_refresh_all(&mut system);
        let cpus = sys_cpus(&system);
        if cpus.len() == 0 {
            return Err(
                DeviceInfoCtlError::new(
                    DeviceInfoCtlErrorCodes::FailedToGetCpuUsage,
                    String::from_str("failed to get CPU info"),
                ),
            );
        }
        let brand = cpu_brand(&cpus[0]);
        let frequency = cpu_frequency(&cpus[0]);
        let cores = sys_physical_core_count(&system);
        Self::cpu_info_from_parts(brand, frequency, cores)
    }

    /// A disk record carries exactly the figures it was built from, with
    /// the used share derived from total and available space.
    pub fn disk_info_from_parts(
        name: String,
        fs: String,
        removable: bool,
        mount_point: String,
        total: u64,
        available: u64,
    ) -> (r: DiskInfo)
        ensures
            r.name == name,
            r.fs == fs,
            r.removable == removable,
            r.mount_point == mount_point,
            r.total_space == total,
            r.used_space == spec_used_space(total, available),
    {
        let used: u64 = if available <= total {
            total - available
        } else {
            0
        };
        DiskInfo {
            name,
            fs,
            removable,
            mount_point,
            used_space: used,
            total_space: total,
        }
    }

    /// Describe every mounted disk; a machine that lists none is the disk
    /// error, and a non-empty answer holds one record per disk.
    pub fn get_disk_info(&self) -> (r: Result<Vec<DiskInfo>, DeviceInfoCtlError>)
        ensures
            r is Err ==> r->Err_0.code is FailedToGetDiskUsage,
            r matches Ok(v) ==> v@.len() > 0,
    {
        let mut system = sys_new_all();
        sys_refresh_all(&mut system);
        let disks = sys_disks(&system);
        let mut out: Vec<DiskInfo> = Vec::new();
        let n = disks.len();
        let mut i: usize = 0;
        while i < n
            invariant
                0 <= i <= n,
                n == disks@.len(),
                out@.len() == i,
            decreases n - i,
        {
            let d = &disks[i];
            let info = Self::disk_info_from_parts(
                disk_name(d),
                disk_file_system(d),
                disk_is_removable(d),
                disk_mount_point(d),
                disk_total_space(d),
                disk_available_space(d),
            );
            out.push(info);
            i = i + 1;
        }
        if out.len() == 0 {
            return Err(
                DeviceInfoCtlError::new(
                    DeviceInfoCtlErrorCodes::FailedToGetDiskUsage,
                    String::from_str("failed to get disk info"),
                ),
            );
        }
        Ok(out)
    }
}

} // verus!
