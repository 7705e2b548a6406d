//! The device-pairing state machine.
//!
//! Pairing binds a graphics device and an engine device to the same
//! physical adapter: probe the adapter's capabilities, request an engine
//! device by the adapter's stable identifier, commit it and intersect its
//! supported external-memory types with the platform's required handle
//! type, then request the graphics device. The unverified host performs
//! the native calls; this machine decides each step and guarantees that
//! every failing path releases the engine device it may have acquired, so
//! no partially constructed device ever reaches a caller.

use vstd::prelude::*;

use crate::vulkan::adapter_supported;
use crate::vulkan::probe_adapter;
use crate::vulkan::VulkanCapabilities;
use crate::Backend;
use crate::BackendKind;
use crate::DeviceCreateError;

verus! {

/// The engine's external-memory type flag for opaque Win32 handles, the
/// import path used by the Vulkan backend.
pub const ENGINE_IMPORT_OPAQUE_WIN32: i32 = 4;

/// The engine's external-memory type flag for shared heap resources, the
/// import path used by the DX12 backend.
pub const ENGINE_IMPORT_D3D12_RESOURCE: i32 = 512;

/// The external-memory type the engine must support to import buffers
/// allocated under the given backend.
pub open spec fn required_import_flag(backend: Backend) -> i32 {
    match backend {
        Backend::Vulkan => ENGINE_IMPORT_OPAQUE_WIN32,
        Backend::Dx12 => ENGINE_IMPORT_D3D12_RESOURCE,
    }
}

/// The stable identifier with which a matching engine device is
/// requested: the device UUID on the Vulkan backend, the adapter LUID on
/// the DX12 backend.
#[derive(Clone, Copy, Debug, PartialEq, Eq)]
pub enum DeviceIdentifier {
    Uuid([u8; 16]),
    Luid(u64),
}

/// What the host read off an adapter before pairing, by backend kind.
/// Kinds other than Vulkan and DX12 cannot be paired.
#[derive(Clone, Copy, Debug)]
pub enum AdapterProbe {
    Vulkan(VulkanCapabilities),
    Dx12 { luid: u64 },
    Unsupported(BackendKind),
}

/// Where in the pairing sequence a machine stands.
#[derive(Clone, Copy, Debug, PartialEq, Eq, Structural)]
pub enum PairingStep {
    AwaitEngineDevice,
    AwaitMemoryTypes,
    AwaitGraphicsDevice,
    Complete,
    Failed,
}

/// The next native call the host must perform.
#[derive(Clone, Copy, Debug, PartialEq, Eq)]
pub enum PairingAction {
    /// Request an engine device for this identifier; a null handle means
    /// the engine cannot target the adapter.
    RequestEngineDevice(DeviceIdentifier),
    /// Commit the engine device, then query its supported
    /// external-memory-type bitmask.
    CommitAndQueryMemoryTypes,
    /// Release the engine device: the pairing failed after acquiring it.
    ReleaseEngineDevice,
    /// Request the graphics device and queue from the adapter with the
    /// caller's descriptor.
    RequestGraphicsDevice,
    /// All steps succeeded: assemble the paired device.
    AssembleDevice,
    /// The pairing failed before acquiring anything; surface the error.
    Abort,
}

/// One pairing in progress.
pub struct Pairing {
    backend: Backend,
    identifier: DeviceIdentifier,
    step: PairingStep,
    engine_live: bool,
    supported_flags: i32,
    failure: Option<DeviceCreateError>,
}

impl Pairing {
    pub closed spec fn backend(&self) -> Backend {
        self.backend
    }

    pub closed spec fn identifier(&self) -> DeviceIdentifier {
        self.identifier
    }

    pub closed spec fn step(&self) -> PairingStep {
        self.step
    }

    /// The engine device was acquired and not yet released or handed
    /// over.
    pub closed spec fn engine_live(&self) -> bool {
        self.engine_live
    }

    /// The intersection of the engine's supported external-memory types
    /// with the backend's required flag, once known.
    pub closed spec fn supported_flags(&self) -> i32 {
        self.supported_flags
    }

    pub closed spec fn failure_spec(&self) -> Option<DeviceCreateError> {
        self.failure
    }

    /// The machine's invariant: an engine device is held exactly while
    /// the machine is between acquiring it and completing, a failed
    /// pairing holds nothing, and a complete pairing found a non-empty
    /// intersection of supported external-memory types.
    pub open spec fn wf(&self) -> bool {
        &&& (self.step() == PairingStep::Failed <==> self.failure_spec() is Some)
        &&& match self.step() {
            PairingStep::AwaitEngineDevice => !self.engine_live(),
            PairingStep::AwaitMemoryTypes => self.engine_live(),
            PairingStep::AwaitGraphicsDevice => self.engine_live() && self.supported_flags()
                & required_import_flag(self.backend()) == self.supported_flags()
                && self.supported_flags() != 0,
            PairingStep::Complete => self.engine_live() && self.supported_flags()
                & required_import_flag(self.backend()) == self.supported_flags()
                && self.supported_flags() != 0,
            PairingStep::Failed => !self.engine_live(),
        }
    }

    /// Dispatch on the adapter's backend kind and run the capability
    /// probe. An unsupported kind and an unqualified Vulkan adapter fail
    /// here, before anything is acquired; otherwise the machine starts by
    /// requesting an engine device for the adapter's identifier.
    pub fn begin(probe: AdapterProbe) -> (r: Result<(Pairing, PairingAction), DeviceCreateError>)
        ensures
            probe matches AdapterProbe::Vulkan(caps) ==> ({
                &&& adapter_supported(caps) ==> {
                    &&& r matches Ok((p, a))
                    &&& p.wf()
                    &&& p.step() == PairingStep::AwaitEngineDevice
                    &&& p.backend() == Backend::Vulkan
                    &&& !p.engine_live()
                    &&& p.identifier() == DeviceIdentifier::Uuid(caps.device_uuid)
                    &&& a matches PairingAction::RequestEngineDevice(i)
                    &&& i == p.identifier()
                }
                &&& !adapter_supported(caps) ==> r == Err::<
                    (Pairing, PairingAction),
                    DeviceCreateError,
                >(DeviceCreateError::MissingFeature)
            }),
            probe matches AdapterProbe::Dx12 { luid } ==> ({
                &&& r matches Ok((p, a))
                &&& p.wf()
                &&& p.step() == PairingStep::AwaitEngineDevice
                &&& p.backend() == Backend::Dx12
                &&& !p.engine_live()
                &&& p.identifier() == DeviceIdentifier::Luid(luid)
                &&& a matches PairingAction::RequestEngineDevice(i)
                &&& i == p.identifier()
            }),
            probe matches AdapterProbe::Unsupported(kind) ==> r == Err::<
                (Pairing, PairingAction),
                DeviceCreateError,
            >(DeviceCreateError::UnsupportedBackend(kind)),
    {
        match probe {
            AdapterProbe::Vulkan(caps) => {
                let uuid = probe_adapter(&caps)?;
                let identifier = DeviceIdentifier::Uuid(uuid);
                let p = Pairing {
                    backend: Backend::Vulkan,
                    identifier,
                    step: PairingStep::AwaitEngineDevice,
                    engine_live: false,
                    supported_flags: 0,
                    failure: None,
                };
                Ok((p, PairingAction::RequestEngineDevice(identifier)))
            },
            AdapterProbe::Dx12 { luid } => {
                let identifier = DeviceIdentifier::Luid(luid);
                let p = Pairing {
                    backend: Backend::Dx12,
                    identifier,
                    step: PairingStep::AwaitEngineDevice,
                    engine_live: false,
                    supported_flags: 0,
                    failure: None,
                };
                Ok((p, PairingAction::RequestEngineDevice(identifier)))
            },
            AdapterProbe::Unsupported(kind) => Err(DeviceCreateError::UnsupportedBackend(kind)),
        }
    }

    /// Outcome of requesting the engine device. A null handle means the
    /// engine has no device for this adapter; nothing was acquired, so
    /// nothing is released.
    pub fn on_engine_device(&mut self, is_null: bool) -> (a: PairingAction)
        requires
            old(self).wf(),
            old(self).step() == PairingStep::AwaitEngineDevice,
        ensures
            final(self).wf(),
            final(self).backend() == old(self).backend(),
            !is_null ==> {
                &&& final(self).step() == PairingStep::AwaitMemoryTypes
                &&& final(self).engine_live()
                &&& a is CommitAndQueryMemoryTypes
            },
            is_null ==> {
                &&& final(self).step() == PairingStep::Failed
                &&& final(self).failure_spec() == Some(DeviceCreateError::OidnUnsupported)
                &&& !final(self).engine_live()
                &&& a is Abort
            },
    {
        if is_null {
            self.step = PairingStep::Failed;
            self.failure = Some(DeviceCreateError::OidnUnsupported);
            PairingAction::Abort
        } else {
            self.engine_live = true;
            self.step = PairingStep::AwaitMemoryTypes;
            PairingAction::CommitAndQueryMemoryTypes
        }
    }

    /// The engine device's supported external-memory-type bitmask, read
    /// after committing it. Intersect it with the backend's required
    /// flag: an empty intersection means buffers allocated here could
    /// never be imported, so the engine device is released and the
    /// pairing fails.
    pub fn on_memory_types(&mut self, supported_memory_types: i32) -> (a: PairingAction)
        requires
            old(self).wf(),
            old(self).step() == PairingStep::AwaitMemoryTypes,
        ensures
            final(self).wf(),
            final(self).backend() == old(self).backend(),
            supported_memory_types & required_import_flag(old(self).backend()) != 0 ==> {
                &&& final(self).step() == PairingStep::AwaitGraphicsDevice
                &&& final(self).engine_live()
                &&& final(self).supported_flags() == supported_memory_types & required_import_flag(
                    old(self).backend(),
                )
                &&& a is RequestGraphicsDevice
            },
            supported_memory_types & required_import_flag(old(self).backend()) == 0 ==> {
                &&& final(self).step() == PairingStep::Failed
                &&& final(self).failure_spec() == Some(DeviceCreateError::OidnImportUnsupported)
                &&& !final(self).engine_live()
                &&& a is ReleaseEngineDevice
            },
    {
        let required: i32 = match self.backend {
            Backend::Vulkan => ENGINE_IMPORT_OPAQUE_WIN32,
            Backend::Dx12 => ENGINE_IMPORT_D3D12_RESOURCE,
        };
        let flags = supported_memory_types & required;
        if flags == 0 {
            self.engine_live = false;
            self.step = PairingStep::Failed;
            self.failure = Some(DeviceCreateError::OidnImportUnsupported);
            PairingAction::ReleaseEngineDevice
        } else {
            proof {
                assert(flags & required == flags) by (bit_vector)
                    requires
                        flags == supported_memory_types & required,
                ;
            }
            self.supported_flags = flags;
            self.step = PairingStep::AwaitGraphicsDevice;
            PairingAction::RequestGraphicsDevice
        }
    }

    /// Outcome of requesting the graphics device. A native request
    /// failure carries the native error message; the engine device
    /// already acquired is released before the error is surfaced.
    pub fn on_graphics_device(&mut self, outcome: Result<(), String>) -> (a: PairingAction)
        requires
            old(self).wf(),
            old(self).step() == PairingStep::AwaitGraphicsDevice,
        ensures
            final(self).wf(),
            final(self).backend() == old(self).backend(),
            outcome is Ok ==> {
                &&& final(self).step() == PairingStep::Complete
                &&& final(self).engine_live()
                &&& final(self).supported_flags() == old(self).supported_flags()
                &&& a is AssembleDevice
            },
            outcome matches Err(message) ==> {
                &&& final(self).step() == PairingStep::Failed
                &&& final(self).failure_spec() == Some(
                    DeviceCreateError::RequestDeviceError(message),
                )
                &&& !final(self).engine_live()
                &&& a is ReleaseEngineDevice
            },
    {
        match outcome {
            Ok(()) => {
                self.step = PairingStep::Complete;
                PairingAction::AssembleDevice
            },
            Err(message) => {
                self.engine_live = false;
                self.step = PairingStep::Failed;
                self.failure = Some(DeviceCreateError::RequestDeviceError(message));
                PairingAction::ReleaseEngineDevice
            },
        }
    }

    pub fn is_complete(&self) -> (r: bool)
        ensures
            r == (self.step() == PairingStep::Complete),
    {
        match self.step {
            PairingStep::Complete => true,
            _ => false,
        }
    }

    pub fn is_failed(&self) -> (r: bool)
        ensures
            r == (self.step() == PairingStep::Failed),
    {
        match self.step {
            PairingStep::Failed => true,
            _ => false,
        }
    }

    /// The typed error of a failed pairing.
    pub fn failure(&self) -> (r: &Option<DeviceCreateError>)
        ensures
            *r == self.failure_spec(),
    {
        &self.failure
    }

    pub fn backend_tag(&self) -> (r: Backend)
        ensures
            r == self.backend(),
    {
        self.backend
    }

    /// The non-empty intersection of supported external-memory types,
    /// valid once the machine passed the memory-type check.
    pub fn import_flags(&self) -> (r: i32)
        ensures
            r == self.supported_flags(),
    {
        self.supported_flags
    }
}

/// A failed pairing holds no engine device: whichever step failed, its
/// action released the engine device if one had been acquired, so a
/// caller that sees an error never inherits a live native handle.
pub proof fn lemma_failed_pairing_holds_no_engine_device(p: &Pairing)
    requires
        p.wf(),
        p.step() == PairingStep::Failed,
    ensures
        !p.engine_live(),
{
}

} // verus!
