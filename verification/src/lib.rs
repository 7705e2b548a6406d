//! Cross-API shared GPU memory: a device pairing and shared-buffer
//! allocation subsystem that lets one physical memory allocation back both a
//! graphics-API buffer and a compute-engine buffer.
//!
//! The native graphics and engine calls themselves are driven by an
//! unverified host; this crate holds the decision logic: capability
//! probing, backend dispatch, the pairing and allocation state machines
//! (with their rollback obligations), memory-type selection, size
//! alignment, and a byte-level model of the shared memory's visibility
//! rules.

use vstd::prelude::*;

pub mod allocator;
pub mod memory;
pub mod pairing;
pub mod vulkan;

verus! {

/// Which native graphics ecosystem a device and its buffers belong to.
/// Only these two backends support the external-memory interop path.
#[derive(Clone, Copy, Debug, PartialEq, Eq, Structural)]
pub enum Backend {
    Dx12,
    Vulkan,
}

/// The backend kind reported by an adapter, before dispatch. Mirrors the
/// graphics API's own adapter classification; only `Vulkan` and `Dx12`
/// can be paired.
#[derive(Clone, Copy, Debug, PartialEq, Eq, Structural)]
pub enum BackendKind {
    Empty,
    Vulkan,
    Metal,
    Dx12,
    Gl,
    BrowserWebGpu,
}

/// Why pairing a graphics device with an engine device failed.
#[derive(Debug, Clone, PartialEq, Eq)]
pub enum DeviceCreateError {
    /// The native graphics device request failed; carries its message.
    RequestDeviceError(String),
    /// The engine has no device for this adapter.
    OidnUnsupported,
    /// The engine device shares no supported external-memory type with
    /// the platform's required handle type.
    OidnImportUnsupported,
    /// The adapter lacks a required extension or API version.
    MissingFeature,
    /// The adapter's backend kind is not one of the two supported ones.
    UnsupportedBackend(BackendKind),
}

impl DeviceCreateError {
    /// A fixed description of the failure, one per variant.
    pub fn message(&self) -> (m: &'static str)
        ensures
            m == self.message_spec(),
    {
        match self {
            DeviceCreateError::RequestDeviceError(_) => "The native device request failed",
            DeviceCreateError::OidnUnsupported => "OIDN could not create a device for this Adapter (does this adapter support OIDN?)",
            DeviceCreateError::OidnImportUnsupported => "OIDN does not support the required import method",
            DeviceCreateError::MissingFeature => "A required feature is missing",
            DeviceCreateError::UnsupportedBackend(_) => "The backend is not supported.",
        }
    }

    pub open spec fn message_spec(&self) -> &'static str {
        match self {
            DeviceCreateError::RequestDeviceError(_) => "The native device request failed",
            DeviceCreateError::OidnUnsupported => "OIDN could not create a device for this Adapter (does this adapter support OIDN?)",
            DeviceCreateError::OidnImportUnsupported => "OIDN does not support the required import method",
            DeviceCreateError::MissingFeature => "A required feature is missing",
            DeviceCreateError::UnsupportedBackend(_) => "The backend is not supported.",
        }
    }
}

/// Why a shared-buffer allocation failed.
#[derive(Debug, Clone, PartialEq, Eq)]
pub enum SharedBufferCreateError {
    /// A zero-byte request; carries the rejected size.
    InvalidSize(u64),
    /// The engine rejected the imported handle; carries the engine's
    /// error code and message.
    Oidn(i32, String),
    /// Physical-resource exhaustion: no qualifying memory type, a failed
    /// native allocation or bind, or a failed handle export.
    OutOfMemory,
}

impl SharedBufferCreateError {
    /// A fixed description of the failure, one per variant.
    pub fn message(&self) -> (m: &'static str)
        ensures
            m == self.message_spec(),
    {
        match self {
            SharedBufferCreateError::InvalidSize(_) => "Size is not allowed",
            SharedBufferCreateError::Oidn(_, _) => "OIDN shared buffer creation failed",
            SharedBufferCreateError::OutOfMemory => "Out of memory",
        }
    }

    pub open spec fn message_spec(&self) -> &'static str {
        match self {
            SharedBufferCreateError::InvalidSize(_) => "Size is not allowed",
            SharedBufferCreateError::Oidn(_, _) => "OIDN shared buffer creation failed",
            SharedBufferCreateError::OutOfMemory => "Out of memory",
        }
    }
}

/// A native handle held by the unverified host, stood for here by a
/// plain token. The library never dereferences one; it only routes them.
pub type HandleToken = u64;

/// The engine-side view of a shared buffer: the engine buffer created by
/// importing the allocation's exported handle.
#[derive(Clone, Copy, Debug, PartialEq, Eq, Structural)]
pub struct EngineBufferView {
    pub handle: HandleToken,
    pub size: u64,
}

/// The graphics-side view of a shared buffer: the graphics-API buffer
/// object wrapping the same allocation.
#[derive(Clone, Copy, Debug, PartialEq, Eq, Structural)]
pub struct GraphicsBufferView {
    pub handle: HandleToken,
    pub size: u64,
}

/// The release order a shared buffer owes on destruction. The API-level
/// buffer objects hold only references into the allocation, so they go
/// first and the allocation is freed last.
#[derive(Clone, Copy, Debug, PartialEq, Eq, Structural)]
pub enum ReleaseStep {
    ReleaseGraphicsBuffer,
    ReleaseEngineBuffer,
    FreeAllocation,
}

/// A paired device: one graphics device, one engine device, one graphics
/// queue, all bound to the same physical device, tagged with the backend
/// they were created under. Assembled only from a completed pairing, so
/// a caller never holds a partially constructed device.
pub struct Device {
    backend: Backend,
    wgpu_device: HandleToken,
    oidn_device: HandleToken,
    queue: HandleToken,
    import_flags: i32,
}

impl Device {
    pub closed spec fn backend(&self) -> Backend {
        self.backend
    }

    pub closed spec fn graphics_handle(&self) -> HandleToken {
        self.wgpu_device
    }

    pub closed spec fn engine_handle(&self) -> HandleToken {
        self.oidn_device
    }

    pub closed spec fn queue_handle(&self) -> HandleToken {
        self.queue
    }

    pub closed spec fn import_flags_spec(&self) -> i32 {
        self.import_flags
    }

    /// A device always carries a non-empty intersection of the engine's
    /// supported external-memory types with its backend's required flag:
    /// pairing cannot complete without one.
    pub open spec fn wf(&self) -> bool {
        &&& self.import_flags_spec() & crate::pairing::required_import_flag(self.backend())
            == self.import_flags_spec()
        &&& self.import_flags_spec() != 0
    }

    /// Assemble the paired device from a completed pairing and the
    /// handles the host acquired while driving it. Returns the device
    /// and a clone of the queue handle, as callers want a queue of their
    /// own next to the device.
    pub fn new(
        pairing: &crate::pairing::Pairing,
        graphics_device: HandleToken,
        engine_device: HandleToken,
        queue: HandleToken,
    ) -> (r: (Device, HandleToken))
        requires
            pairing.wf(),
            pairing.step() == crate::pairing::PairingStep::Complete,
        ensures
            r.0.wf(),
            r.0.backend() == pairing.backend(),
            r.0.graphics_handle() == graphics_device,
            r.0.engine_handle() == engine_device,
            r.0.queue_handle() == queue,
            r.0.import_flags_spec() == pairing.supported_flags(),
            r.1 == queue,
    {
        let device = Device {
            backend: pairing.backend_tag(),
            wgpu_device: graphics_device,
            oidn_device: engine_device,
            queue,
            import_flags: pairing.import_flags(),
        };
        (device, queue)
    }

    /// Start one shared-buffer allocation of `size` bytes. A zero-byte
    /// request is rejected here, before any native call; otherwise the
    /// returned plan is dispatched under this device's own backend tag
    /// and holds no resource yet.
    pub fn allocate_shared_buffers(&self, size: u64) -> (r: Result<
        crate::allocator::BufferPlan,
        SharedBufferCreateError,
    >)
        ensures
            size == 0 <==> r is Err,
            r matches Err(e) ==> e == SharedBufferCreateError::InvalidSize(size),
            r matches Ok(p) ==> p.is_initial(self.backend(), size),
    {
        if size == 0 {
            return Err(SharedBufferCreateError::InvalidSize(size));
        }
        Ok(crate::allocator::BufferPlan::begin(self.backend, size))
    }

    /// The engine device handle.
    pub fn oidn_device(&self) -> (r: HandleToken)
        ensures
            r == self.engine_handle(),
    {
        self.oidn_device
    }

    /// The graphics device handle.
    pub fn wgpu_device(&self) -> (r: HandleToken)
        ensures
            r == self.graphics_handle(),
    {
        self.wgpu_device
    }

    pub fn backend_tag(&self) -> (r: Backend)
        ensures
            r == self.backend(),
    {
        self.backend
    }

    /// The intersection of supported external-memory types recorded at
    /// pairing time.
    pub fn import_flags(&self) -> (r: i32)
        ensures
            r == self.import_flags_spec(),
    {
        self.import_flags
    }
}

/// One unit of cross-API memory sharing: the allocation's exported
/// handle (the lifetime anchor), the engine-side buffer importing it,
/// the graphics-side buffer wrapping it, and the model of the bytes both
/// views address.
pub struct SharedBuffer {
    backend: Backend,
    allocation: HandleToken,
    oidn_buffer: EngineBufferView,
    wgpu_buffer: GraphicsBufferView,
    memory: crate::memory::SharedMemory,
}

impl SharedBuffer {
    pub closed spec fn backend(&self) -> Backend {
        self.backend
    }

    pub closed spec fn allocation(&self) -> HandleToken {
        self.allocation
    }

    pub closed spec fn engine_view(&self) -> EngineBufferView {
        self.oidn_buffer
    }

    pub closed spec fn graphics_view(&self) -> GraphicsBufferView {
        self.wgpu_buffer
    }

    /// The bytes both views address.
    pub closed spec fn contents(&self) -> Seq<u8> {
        self.memory.contents()
    }

    /// Whether the graphics queue has been drained since the last
    /// graphics-side submission.
    pub closed spec fn synced(&self) -> bool {
        self.memory.synced()
    }

    pub open spec fn size(&self) -> u64 {
        self.engine_view().size
    }

    /// Both views address the identical byte range.
    pub open spec fn wf(&self) -> bool {
        &&& self.engine_view().size == self.graphics_view().size
        &&& self.engine_view().size == self.contents().len()
    }

    /// Package a completed allocation plan and the handles it produced
    /// into a shared buffer. The plan's zero-fill was submitted but not
    /// waited on, so the buffer starts zeroed and undrained.
    pub fn from_plan(
        plan: &crate::allocator::BufferPlan,
        allocation: HandleToken,
        engine_buffer: HandleToken,
        graphics_buffer: HandleToken,
    ) -> (b: SharedBuffer)
        requires
            plan.wf(),
            plan.step() == crate::allocator::AllocStep::Done,
            plan.aligned_size() <= usize::MAX,
        ensures
            b.wf(),
            b.backend() == plan.backend(),
            b.size() == plan.aligned_size(),
            b.allocation() == allocation,
            b.engine_view().handle == engine_buffer,
            b.graphics_view().handle == graphics_buffer,
            b.contents() == Seq::new(plan.aligned_size() as nat, |i: int| 0u8),
            !b.synced(),
    {
        let size = plan.final_size();
        let memory = crate::memory::SharedMemory::new_zeroed(size as usize);
        SharedBuffer {
            backend: plan.backend_tag(),
            allocation,
            oidn_buffer: EngineBufferView { handle: engine_buffer, size },
            wgpu_buffer: GraphicsBufferView { handle: graphics_buffer, size },
            memory,
        }
    }

    /// The engine-side view.
    pub fn oidn_buffer(&self) -> (r: &EngineBufferView)
        ensures
            *r == self.engine_view(),
    {
        &self.oidn_buffer
    }

    /// The engine-side view, mutably.
    pub fn oidn_buffer_mut(&mut self) -> (r: &mut EngineBufferView)
        ensures
            *r == old(self).engine_view(),
            final(self).engine_view() == *final(r),
            final(self).backend() == old(self).backend(),
            final(self).allocation() == old(self).allocation(),
            final(self).graphics_view() == old(self).graphics_view(),
            final(self).contents() == old(self).contents(),
            final(self).synced() == old(self).synced(),
    {
        &mut self.oidn_buffer
    }

    /// The graphics-side view.
    pub fn wgpu_buffer(&self) -> (r: &GraphicsBufferView)
        ensures
            *r == self.graphics_view(),
    {
        &self.wgpu_buffer
    }

    /// A graphics-side write of `data` at `offset`: submitted to the
    /// graphics queue, leaving the buffer undrained until the next
    /// drain.
    pub fn graphics_write(&mut self, offset: usize, data: &Vec<u8>)
        requires
            old(self).wf(),
            offset + data@.len() <= old(self).contents().len(),
        ensures
            final(self).wf(),
            final(self).contents() == crate::memory::written(
                old(self).contents(),
                offset as int,
                data@,
            ),
            !final(self).synced(),
            final(self).backend() == old(self).backend(),
            final(self).allocation() == old(self).allocation(),
            final(self).engine_view() == old(self).engine_view(),
            final(self).graphics_view() == old(self).graphics_view(),
    {
        self.memory.graphics_write(offset, data);
    }

    /// Drain the graphics queue: block until every prior graphics-side
    /// submission has retired. Required between a graphics-side write
    /// and any engine-side access.
    pub fn drain_graphics(&mut self)
        ensures
            final(self).wf() == old(self).wf(),
            final(self).contents() == old(self).contents(),
            final(self).synced(),
            final(self).backend() == old(self).backend(),
            final(self).allocation() == old(self).allocation(),
            final(self).engine_view() == old(self).engine_view(),
            final(self).graphics_view() == old(self).graphics_view(),
    {
        self.memory.drain_graphics();
    }

    /// An engine-side read of `len` bytes at `offset`. Demands a drained
    /// graphics queue; the engine blocks to completion, so the buffer
    /// stays drained.
    pub fn compute_read(&self, offset: usize, len: usize) -> (r: Vec<u8>)
        requires
            self.wf(),
            self.synced(),
            offset + len <= self.contents().len(),
        ensures
            r@ == crate::memory::read_back(self.contents(), offset as int, len as int),
    {
        self.memory.compute_read(offset, len)
    }

    /// An engine-side write of `data` at `offset`. Demands a drained
    /// graphics queue; the engine blocks to completion, so the buffer
    /// stays drained.
    pub fn compute_write(&mut self, offset: usize, data: &Vec<u8>)
        requires
            old(self).wf(),
            old(self).synced(),
            offset + data@.len() <= old(self).contents().len(),
        ensures
            final(self).wf(),
            final(self).contents() == crate::memory::written(
                old(self).contents(),
                offset as int,
                data@,
            ),
            final(self).synced(),
            final(self).backend() == old(self).backend(),
            final(self).allocation() == old(self).allocation(),
            final(self).engine_view() == old(self).engine_view(),
            final(self).graphics_view() == old(self).graphics_view(),
    {
        self.memory.compute_write(offset, data);
    }

    pub fn is_synced(&self) -> (r: bool)
        ensures
            r == self.synced(),
    {
        self.memory.is_synced()
    }

    pub fn len(&self) -> (n: usize)
        ensures
            n == self.contents().len(),
    {
        self.memory.len()
    }

    pub fn backend_tag(&self) -> (r: Backend)
        ensures
            r == self.backend(),
    {
        self.backend
    }

    /// The teardown order on destruction: graphics buffer, then engine
    /// buffer wrapper, then the allocation itself, which the buffer
    /// objects only reference.
    pub fn release_plan(&self) -> (r: Vec<ReleaseStep>)
        ensures
            r@ == seq![
                ReleaseStep::ReleaseGraphicsBuffer,
                ReleaseStep::ReleaseEngineBuffer,
                ReleaseStep::FreeAllocation,
            ],
    {
        let mut r: Vec<ReleaseStep> = Vec::new();
        r.push(ReleaseStep::ReleaseGraphicsBuffer);
        r.push(ReleaseStep::ReleaseEngineBuffer);
        r.push(ReleaseStep::FreeAllocation);
        proof {
            assert(r@ =~= seq![
                ReleaseStep::ReleaseGraphicsBuffer,
                ReleaseStep::ReleaseEngineBuffer,
                ReleaseStep::FreeAllocation,
            ]);
        }
        r
    }
}

} // verus!
