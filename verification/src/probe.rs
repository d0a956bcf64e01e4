//! The probe boundary: one trusted query per hardware or OS category.
//!
//! Each probe reads live host state, so nothing can be pinned down about
//! the values it returns; every probe hands back plain records, and the
//! snapshot constructors (which are verified) apply the degradation rules
//! that turn a missing or failed reading into an explicit default.
use vstd::prelude::*;

verus! {

/// A raw processor reading: counts, brand of the first processor (when one
/// is present), architecture, and the instantaneous usage in whole percents.
pub struct CpuProbe {
    pub logical_cores: usize,
    pub physical_cores: Option<usize>,
    pub brand: Option<String>,
    pub arch: String,
    pub usage: i32,
}

/// A raw reading of one mounted volume, byte counts unscaled.
pub struct DiskProbe {
    pub name: Option<String>,
    pub available_space: u64,
    pub total_space: u64,
    pub kind: String,
    pub file_system: Option<String>,
    pub is_removable: bool,
    pub is_read_only: bool,
}

/// A raw memory reading, all fields in bytes.
pub struct MemoryProbe {
    pub total_memory: u64,
    pub used_memory: u64,
    pub total_swap: u64,
    pub free_swap: u64,
    pub used_swap: u64,
    pub available_memory: u64,
}

/// A raw reading of the host's identity; fields the host cannot report
/// come back as `None`.
pub struct OsProbe {
    pub name_os: Option<String>,
    pub kernel_version: Option<String>,
    pub os_version: Option<String>,
    pub distribution: String,
    pub host_name: Option<String>,
    pub cpu_arch: String,
}

/// A raw reading of one network interface.
pub struct NetProbe {
    pub interface_name: String,
    pub ip_networks: Vec<String>,
    pub mac_address: String,
    pub total_errors_on_received: u64,
    pub total_errors_on_transmitted: u64,
    pub total_packets_received: u64,
    pub total_packets_transmitted: u64,
    pub mtu: u64,
}

/// A raw reading of one thermal sensor; temperatures in whole degrees,
/// `None` where the sensor reports nothing.
pub struct ComponentProbe {
    pub label: String,
    pub temperature: Option<i64>,
    pub max_temp: Option<i64>,
    pub critical_temp: Option<i64>,
}

/// Relies on sysinfo::System (new_all, refresh_cpu_all, cpus,
/// physical_core_count, global_cpu_usage, cpu_arch): a live reading of the
/// host's processors; the usage percentage is truncated to a whole number.
#[verifier::external_body]
pub(crate) fn probe_cpu() -> CpuProbe {
    let mut sys = sysinfo::System::new_all();
    sys.refresh_cpu_all();
    CpuProbe {
        logical_cores: sys.cpus().len(),
        physical_cores: sys.physical_core_count(),
        brand: sys.cpus().first().map(|c| c.brand().to_string()),
        arch: sysinfo::System::cpu_arch(),
        usage: sys.global_cpu_usage() as i32,
    }
}

/// Relies on sys_info::cpu_speed: the processor clock in MHz, or `None`
/// when the host cannot report it.
#[verifier::external_body]
pub(crate) fn probe_cpu_speed() -> Option<u64> {
    sys_info::cpu_speed().ok()
}

/// Relies on systemstat::Platform::cpu_temp: the processor temperature
/// truncated to whole degrees, or `None` when the host cannot report it.
#[verifier::external_body]
pub(crate) fn probe_cpu_temp() -> Option<i32> {
    let sys = <systemstat::System as systemstat::Platform>::new();
    systemstat::Platform::cpu_temp(&sys).ok().map(|t| t as i32)
}

/// Relies on gfx_backend_vulkan::Instance and
/// gfx_hal::Instance::enumerate_adapters: the names of the graphics
/// adapters, or `None` when no backend could be created.
#[verifier::external_body]
pub(crate) fn probe_gpu_adapters() -> Option<Vec<String>> {
    match <gfx_backend_vulkan::Instance as gfx_hal::Instance<gfx_backend_vulkan::Backend>>::create(
        "monitoring", 1,
    ) {
        Ok(inst) => Some(
            gfx_hal::Instance::enumerate_adapters(&inst).into_iter().map(|a| a.info.name).collect(),
        ),
        Err(_) => None,
    }
}

/// Relies on sysinfo::Disks::new_with_refreshed_list and the per-volume
/// accessors: one record per mounted volume, fields read as-is.
#[verifier::external_body]
pub(crate) fn probe_disks() -> Vec<DiskProbe> {
    let disks = sysinfo::Disks::new_with_refreshed_list();
    disks.list().iter().map(|d| DiskProbe {
        name: d.name().to_str().map(|s| s.to_owned()),
        available_space: d.available_space(),
        total_space: d.total_space(),
        kind: d.kind().to_string(),
        file_system: d.file_system().to_str().map(|s| s.to_owned()),
        is_removable: d.is_removable(),
        is_read_only: d.is_read_only(),
    }).collect()
}

/// Relies on sysinfo::System (new, refresh_memory and the memory getters):
/// a live reading of memory and swap byte counts.
#[verifier::external_body]
pub(crate) fn probe_memory() -> MemoryProbe {
    let mut sys = sysinfo::System::new();
    sys.refresh_memory();
    MemoryProbe {
        total_memory: sys.total_memory(),
        used_memory: sys.used_memory(),
        total_swap: sys.total_swap(),
        free_swap: sys.free_swap(),
        used_swap: sys.used_swap(),
        available_memory: sys.available_memory(),
    }
}

/// Relies on sys_info::os_type: the OS kind, or `None` on error.
#[verifier::external_body]
pub(crate) fn probe_os_type() -> Option<String> {
    sys_info::os_type().ok()
}

/// Relies on sysinfo::System's identity queries (name, kernel_version,
/// os_version, distribution_id, host_name, cpu_arch).
#[verifier::external_body]
pub(crate) fn probe_os_identity() -> OsProbe {
    OsProbe {
        name_os: sysinfo::System::name(),
        kernel_version: sysinfo::System::kernel_version(),
        os_version: sysinfo::System::os_version(),
        distribution: sysinfo::System::distribution_id(),
        host_name: sysinfo::System::host_name(),
        cpu_arch: sysinfo::System::cpu_arch(),
    }
}

/// Relies on sysinfo::Networks::new_with_refreshed_list and the
/// per-interface accessors: one record per interface, in the underlying
/// map's own (unspecified) order.
#[verifier::external_body]
pub(crate) fn probe_networks() -> Vec<NetProbe> {
    let networks = sysinfo::Networks::new_with_refreshed_list();
    networks.list().iter().map(|(name, n)| NetProbe {
        interface_name: name.to_string(),
        ip_networks: n.ip_networks().iter().map(|i| i.to_string()).collect(),
        mac_address: n.mac_address().to_string(),
        total_errors_on_received: n.total_errors_on_received(),
        total_errors_on_transmitted: n.total_errors_on_transmitted(),
        total_packets_received: n.total_packets_received(),
        total_packets_transmitted: n.total_packets_transmitted(),
        mtu: n.mtu(),
    }).collect()
}

/// Relies on sysinfo::Components::new_with_refreshed_list and the
/// per-sensor accessors; temperatures are truncated to whole degrees.
#[verifier::external_body]
pub(crate) fn probe_components() -> Vec<ComponentProbe> {
    let list = sysinfo::Components::new_with_refreshed_list();
    list.list().iter().map(|c| ComponentProbe {
        label: c.label().to_owned(),
        temperature: c.temperature().map(|t| t as i64),
        max_temp: c.max().map(|t| t as i64),
        critical_temp: c.critical().map(|t| t as i64),
    }).collect()
}

} // verus!
