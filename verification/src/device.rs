//! The device descriptor, made from what the system reports of itself.

use crate::text::{trimmed, trimmed_text};
use crate::types::{DeviceInfo, DeviceInfoView};
use vstd::prelude::*;

verus! {

/// The number of bytes in a gigabyte, as memory is counted.
pub const BYTES_PER_GB: u64 = 1024 * 1024 * 1024;

/// The text that stands for an operating system that did not name itself.
pub open spec fn unknown_os() -> Seq<char> {
    "Unknown OS"@
}

/// The text that stands for a processor that did not name itself.
pub open spec fn unknown_cpu() -> Seq<char> {
    "Unknown CPU"@
}

/// The descriptor for a machine that reports these facts: the names
/// without white space around them, a stand-in for each name that is
/// missing, and the memory in whole gigabytes, rounded down.
pub open spec fn descriptor_of(
    os: Option<Seq<char>>,
    cpu_brand: Option<Seq<char>>,
    total_memory_bytes: u64,
) -> DeviceInfoView {
    DeviceInfoView {
        os: trimmed(
            match os {
                Some(name) => name,
                None => unknown_os(),
            },
        ),
        cpu_model: trimmed(
            match cpu_brand {
                Some(name) => name,
                None => unknown_cpu(),
            },
        ),
        ram_capacity_gb: total_memory_bytes / BYTES_PER_GB,
    }
}

/// The view of a text that may be missing.
pub open spec fn text_view(t: Option<String>) -> Option<Seq<char>> {
    match t {
        Some(s) => Some(s@),
        None => None,
    }
}

/// The descriptor for a machine that reports these facts: the long name of
/// its operating system, the brand of its first processor, and its memory
/// in bytes.
pub fn device_info_from(os: Option<String>, cpu_brand: Option<String>, total_memory_bytes: u64)
    -> (d: DeviceInfo)
    ensures
        d@ == descriptor_of(text_view(os), text_view(cpu_brand), total_memory_bytes),
{
    let os_name = match &os {
        Some(name) => trimmed_text(name.as_str()),
        None => trimmed_text("Unknown OS"),
    };
    let cpu_name = match &cpu_brand {
        Some(name) => trimmed_text(name.as_str()),
        None => trimmed_text("Unknown CPU"),
    };
    DeviceInfo {
        os: os_name,
        cpu_model: cpu_name,
        ram_capacity_gb: total_memory_bytes / BYTES_PER_GB,
    }
}

} // verus!
