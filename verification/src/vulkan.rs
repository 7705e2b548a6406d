//! Vulkan-side capability probing, and the Vulkan entry point for batch
//! shared-buffer allocation.
//!
//! Cross-API sharing on this backend needs an adapter whose underlying API
//! version is at least 1.1 (for the extended property queries that expose a
//! device UUID) and that supports the platform's Win32 external-memory
//! extension. The probe reads those facts, extracted from the adapter by
//! the unverified host, and either hands back the device UUID or reports
//! the missing feature.

use vstd::prelude::*;

use crate::allocator::BufferPlan;
use crate::Backend;
use crate::Device;
use crate::DeviceCreateError;
use crate::SharedBufferCreateError;

verus! {

/// What the host reads off a Vulkan adapter before pairing: the packed
/// API version, whether the Win32 external-memory extension is supported,
/// and the device UUID from the extended ID properties.
#[derive(Clone, Copy, Debug)]
pub struct VulkanCapabilities {
    pub api_version: u32,
    pub supports_external_memory_win32: bool,
    pub device_uuid: [u8; 16],
}

/// The major field of a packed Vulkan API version.
pub open spec fn api_major(v: u32) -> u32 {
    (v >> 22) & 0x7f
}

/// The minor field of a packed Vulkan API version.
pub open spec fn api_minor(v: u32) -> u32 {
    (v >> 12) & 0x3ff
}

/// The extended property queries used by the probe exist from API
/// version 1.1 on.
pub open spec fn version_at_least_1_1(v: u32) -> bool {
    api_major(v) > 1 || (api_major(v) == 1 && api_minor(v) >= 1)
}

/// Whether an adapter qualifies for cross-API sharing on this backend.
pub open spec fn adapter_supported(caps: VulkanCapabilities) -> bool {
    version_at_least_1_1(caps.api_version) && caps.supports_external_memory_win32
}

/// The capability probe: either the stable device UUID with which a
/// matching engine device can be requested, or `MissingFeature`.
pub fn probe_adapter(caps: &VulkanCapabilities) -> (r: Result<[u8; 16], DeviceCreateError>)
    ensures
        adapter_supported(*caps) ==> r == Ok::<[u8; 16], DeviceCreateError>(caps.device_uuid),
        !adapter_supported(*caps) ==> r == Err::<[u8; 16], DeviceCreateError>(
            DeviceCreateError::MissingFeature,
        ),
{
    let major = (caps.api_version >> 22) & 0x7f;
    let minor = (caps.api_version >> 12) & 0x3ff;
    let version_ok = major > 1 || (major == 1 && minor >= 1);
    if version_ok && caps.supports_external_memory_win32 {
        Ok(caps.device_uuid)
    } else {
        Err(DeviceCreateError::MissingFeature)
    }
}

/// Start a batch of `count` shared-buffer allocations of `size` bytes
/// each on a Vulkan device. Forcing this allocator onto a device of the
/// other backend is a programming error, excluded by contract, so the
/// host must assert the tag before calling. A zero size or a zero count
/// is rejected before any native call.
pub fn allocate_buffers(device: &Device, size: u64, count: u8) -> (r: Result<
    Vec<BufferPlan>,
    SharedBufferCreateError,
>)
    requires
        device.backend() == Backend::Vulkan,
    ensures
        (size == 0 || count == 0) <==> r is Err,
        r matches Err(e) ==> e == SharedBufferCreateError::InvalidSize(size),
        r matches Ok(v) ==> v@.len() == count && (forall|i: int|
            0 <= i < v@.len() ==> v@[i].is_initial(Backend::Vulkan, size)),
{
    if size == 0 || count == 0 {
        return Err(SharedBufferCreateError::InvalidSize(size));
    }
    let mut plans: Vec<BufferPlan> = Vec::new();
    let mut i: u8 = 0;
    while i < count
        invariant
            size > 0,
            0 <= i <= count,
            plans@.len() == i,
            forall|j: int| 0 <= j < plans@.len() ==> plans@[j].is_initial(Backend::Vulkan, size),
        decreases count - i,
    {
        let plan = BufferPlan::begin(Backend::Vulkan, size);
        plans.push(plan);
        i += 1;
    }
    Ok(plans)
}

} // verus!
