//! The platform readout collaborator, modelled as data.
//!
//! The pipeline itself performs no operating-system queries. Whoever drives a
//! render pass queries the host once per readout operation and hands the
//! results over as a `Platform` value: one field per operation, each either a
//! plain value or a typed probe error. The snapshot is built once and then
//! read freely by every probe of the pass.

use vstd::prelude::*;
use crate::probe::ProbeError;

verus! {

/// One render pass's view of the host: the result of every platform readout
/// operation the metric catalog can ask for.
///
/// Quantities keep the units the platform hands out: uptime in seconds,
/// memory in KiB, disk usage in bytes.
pub struct Platform {
    pub username: Result<String, ProbeError>,
    pub hostname: Result<String, ProbeError>,
    pub os_name: Result<String, ProbeError>,
    pub distribution: Result<String, ProbeError>,
    pub vendor: Result<String, ProbeError>,
    pub product: Result<String, ProbeError>,
    pub kernel_release: Result<String, ProbeError>,
    pub uptime_seconds: Result<usize, ProbeError>,
    /// Installed-package tallies, one `(package manager, count)` pair each.
    pub package_counts: Result<Vec<(String, usize)>, ProbeError>,
    pub shell: Result<String, ProbeError>,
    pub resolution: Result<String, ProbeError>,
    pub desktop_environment: Result<String, ProbeError>,
    pub window_manager: Result<String, ProbeError>,
    pub terminal: Result<String, ProbeError>,
    pub cpu_model: Result<String, ProbeError>,
    /// CPU usage as an integer percentage.
    pub cpu_usage: Result<usize, ProbeError>,
    /// One name per installed GPU.
    pub gpus: Result<Vec<String>, ProbeError>,
    pub memory_used_kib: Result<u64, ProbeError>,
    pub memory_total_kib: Result<u64, ProbeError>,
    /// Disk usage as `(used, total)` in bytes.
    pub disk_space: Result<(u64, u64), ProbeError>,
    pub battery_percentage: Result<u8, ProbeError>,
    /// Whether the battery is charging (as opposed to discharging).
    pub battery_charging: Result<bool, ProbeError>,
    /// Local network addresses, one text per address.
    pub local_addresses: Result<Vec<String>, ProbeError>,
}

impl Platform {
    /// A snapshot on which every readout operation failed as unavailable:
    /// the neutral starting point for a caller that fills in only the
    /// operations its configuration needs.
    pub fn unavailable() -> (p: Platform)
        ensures
            p.username == Err::<String, ProbeError>(ProbeError::MetricsUnavailable),
            p.hostname == Err::<String, ProbeError>(ProbeError::MetricsUnavailable),
            p.os_name == Err::<String, ProbeError>(ProbeError::MetricsUnavailable),
            p.distribution == Err::<String, ProbeError>(ProbeError::MetricsUnavailable),
            p.vendor == Err::<String, ProbeError>(ProbeError::MetricsUnavailable),
            p.product == Err::<String, ProbeError>(ProbeError::MetricsUnavailable),
            p.kernel_release == Err::<String, ProbeError>(ProbeError::MetricsUnavailable),
            p.uptime_seconds == Err::<usize, ProbeError>(ProbeError::MetricsUnavailable),
            p.package_counts == Err::<Vec<(String, usize)>, ProbeError>(
                ProbeError::MetricsUnavailable,
            ),
            p.shell == Err::<String, ProbeError>(ProbeError::MetricsUnavailable),
            p.resolution == Err::<String, ProbeError>(ProbeError::MetricsUnavailable),
            p.desktop_environment == Err::<String, ProbeError>(ProbeError::MetricsUnavailable),
            p.window_manager == Err::<String, ProbeError>(ProbeError::MetricsUnavailable),
            p.terminal == Err::<String, ProbeError>(ProbeError::MetricsUnavailable),
            p.cpu_model == Err::<String, ProbeError>(ProbeError::MetricsUnavailable),
            p.cpu_usage == Err::<usize, ProbeError>(ProbeError::MetricsUnavailable),
            p.gpus == Err::<Vec<String>, ProbeError>(ProbeError::MetricsUnavailable),
            p.memory_used_kib == Err::<u64, ProbeError>(ProbeError::MetricsUnavailable),
            p.memory_total_kib == Err::<u64, ProbeError>(ProbeError::MetricsUnavailable),
            p.disk_space == Err::<(u64, u64), ProbeError>(ProbeError::MetricsUnavailable),
            p.battery_percentage == Err::<u8, ProbeError>(ProbeError::MetricsUnavailable),
            p.battery_charging == Err::<bool, ProbeError>(ProbeError::MetricsUnavailable),
            p.local_addresses == Err::<Vec<String>, ProbeError>(ProbeError::MetricsUnavailable),
    {
        Platform {
            username: Err(ProbeError::MetricsUnavailable),
            hostname: Err(ProbeError::MetricsUnavailable),
            os_name: Err(ProbeError::MetricsUnavailable),
            distribution: Err(ProbeError::MetricsUnavailable),
            vendor: Err(ProbeError::MetricsUnavailable),
            product: Err(ProbeError::MetricsUnavailable),
            kernel_release: Err(ProbeError::MetricsUnavailable),
            uptime_seconds: Err(ProbeError::MetricsUnavailable),
            package_counts: Err(ProbeError::MetricsUnavailable),
            shell: Err(ProbeError::MetricsUnavailable),
            resolution: Err(ProbeError::MetricsUnavailable),
            desktop_environment: Err(ProbeError::MetricsUnavailable),
            window_manager: Err(ProbeError::MetricsUnavailable),
            terminal: Err(ProbeError::MetricsUnavailable),
            cpu_model: Err(ProbeError::MetricsUnavailable),
            cpu_usage: Err(ProbeError::MetricsUnavailable),
            gpus: Err(ProbeError::MetricsUnavailable),
            memory_used_kib: Err(ProbeError::MetricsUnavailable),
            memory_total_kib: Err(ProbeError::MetricsUnavailable),
            disk_space: Err(ProbeError::MetricsUnavailable),
            battery_percentage: Err(ProbeError::MetricsUnavailable),
            battery_charging: Err(ProbeError::MetricsUnavailable),
            local_addresses: Err(ProbeError::MetricsUnavailable),
        }
    }
}

} // verus!
