//! Bindings to the system-information crate.
//!
//! Memory, CPU and disk figures are machine state: nothing useful can be
//! promised about the numbers themselves, so each binding carries no more
//! contract than its source shows, and the controllers state instead how
//! they combine whatever comes back.

use sysinfo::{CpuExt, DiskExt, SystemExt};
use vstd::prelude::*;

verus! {

#[verifier::external_type_specification]
#[verifier::external_body]
pub struct ExSystem(sysinfo::System);

#[verifier::external_type_specification]
#[verifier::external_body]
pub struct ExCpu(sysinfo::Cpu);

#[verifier::external_type_specification]
#[verifier::external_body]
pub struct ExDisk(sysinfo::Disk);

/// Relies on sysinfo's `System::new_all`: a system handle with all state
/// loaded once.
#[verifier::external_body]
pub(crate) fn sys_new_all() -> sysinfo::System {
    sysinfo::System::new_all()
}

/// Relies on sysinfo's `System::refresh_all`: re-reads every figure.
#[verifier::external_body]
pub(crate) fn sys_refresh_all(s: &mut sysinfo::System) {
    s.refresh_all();
}

/// Relies on sysinfo's `System::total_memory`, in bytes.
#[verifier::external_body]
pub(crate) fn sys_total_memory(s: &sysinfo::System) -> u64 {
    s.total_memory()
}

/// Relies on sysinfo's `System::free_memory`, in bytes.
#[verifier::external_body]
pub(crate) fn sys_free_memory(s: &sysinfo::System) -> u64 {
    s.free_memory()
}

/// Relies on sysinfo's `System::available_memory`, in bytes.
#[verifier::external_body]
pub(crate) fn sys_available_memory(s: &sysinfo::System) -> u64 {
    s.available_memory()
}

/// Relies on sysinfo's `System::used_memory`, in bytes.
#[verifier::external_body]
pub(crate) fn sys_used_memory(s: &sysinfo::System) -> u64 {
    s.used_memory()
}

/// Relies on sysinfo's `System::physical_core_count`: `None` when the
/// machine does not tell.
#[verifier::external_body]
pub(crate) fn sys_physical_core_count(s: &sysinfo::System) -> Option<usize> {
    s.physical_core_count()
}

/// Relies on sysinfo's `System::cpus`: one entry per logical processor.
#[verifier::external_body]
pub(crate) fn sys_cpus(s: &sysinfo::System) -> &[sysinfo::Cpu] {
    s.cpus()
}

/// Relies on sysinfo's `System::disks`: the mounted disks last refreshed.
#[verifier::external_body]
pub(crate) fn sys_disks(s: &sysinfo::System) -> &[sysinfo::Disk] {
    s.disks()
}

/// Relies on sysinfo's `Cpu::brand`.
#[verifier::external_body]
pub(crate) fn cpu_brand(c: &sysinfo::Cpu) -> String {
    c.brand().to_owned()
}

/// Relies on sysinfo's `Cpu::frequency`, in megahertz.
#[verifier::external_body]
pub(crate) fn cpu_frequency(c: &sysinfo::Cpu) -> u64 {
    c.frequency()
}

/// Relies on sysinfo's `Disk::name`.
#[verifier::external_body]
pub(crate) fn disk_name(d: &sysinfo::Disk) -> String {
    d.name().to_string_lossy().into_owned()
}

/// Relies on sysinfo's `Disk::file_system`.
#[verifier::external_body]
pub(crate) fn disk_file_system(d: &sysinfo::Disk) -> String {
    String::from_utf8_lossy(d.file_system()).into_owned()
}

/// Relies on sysinfo's `Disk::is_removable`.
#[verifier::external_body]
pub(crate) fn disk_is_removable(d: &sysinfo::Disk) -> bool {
    d.is_removable()
}

/// Relies on sysinfo's `Disk::mount_point`.
#[verifier::external_body]
pub(crate) fn disk_mount_point(d: &sysinfo::Disk) -> String {
    d.mount_point().to_string_lossy().into_owned()
}

/// Relies on sysinfo's `Disk::total_space`, in bytes.
#[verifier::external_body]
pub(crate) fn disk_total_space(d: &sysinfo::Disk) -> u64 {
    d.total_space()
}

/// Relies on sysinfo's `Disk::available_space`, in bytes.
#[verifier::external_body]
pub(crate) fn disk_available_space(d: &sysinfo::Disk) -> u64 {
    d.available_space()
}

} // verus!
