//! The per-buffer shared-allocation state machine.
//!
//! One shared buffer is built by a fixed sequence of native calls: create a
//! transfer-capable, exportable buffer object; query its memory
//! requirements; pick a device-local memory type from the adapter's list;
//! allocate, bind, and export the memory as an opaque OS handle; import
//! that handle into the engine; wrap the buffer for the graphics API and
//! submit a zero-fill. Every native call can fail, and a failure must roll
//! back everything acquired so far.
//!
//! The unverified host performs the native calls; this machine makes every
//! decision: each `on_*` step consumes the outcome of one native call and
//! returns the exact next action, including the rollback actions on the
//! failing paths. The machine tracks which native resources are
//! outstanding, and its well-formedness invariant pins the rollback
//! obligation: a failed plan holds no resource.

use vstd::arithmetic::div_mod::lemma_fundamental_div_mod;
use vstd::arithmetic::div_mod::lemma_mod_bound;
use vstd::arithmetic::div_mod::lemma_mod_multiples_basic;
use vstd::prelude::*;

use crate::Backend;
use crate::SharedBufferCreateError;

verus! {

/// Memory types flagged with this bit reside on the device itself.
pub const DEVICE_LOCAL_MEMORY_FLAG: u32 = 1;

/// The least multiple of `align` that is at least `size`.
pub open spec fn spec_align_up(size: u64, align: u64) -> int
    recommends
        1 <= align,
{
    ((size + align - 1) / (align as int)) * (align as int)
}

/// Round `size` up to the next multiple of `align`.
pub fn align_up(size: u64, align: u64) -> (r: u64)
    requires
        1 <= align,
        size + align - 1 <= u64::MAX,
    ensures
        r == spec_align_up(size, align),
        size <= r < size + align,
        r % align == 0,
{
    let sp = size + (align - 1);
    let q = sp / align;
    proof {
        lemma_fundamental_div_mod(sp as int, align as int);
        lemma_mod_bound(sp as int, align as int);
        lemma_mod_multiples_basic(q as int, align as int);
        assert((q as int) * (align as int) == (align as int) * (q as int)) by (nonlinear_arith);
    }
    q * align
}

/// Whether memory type `i` can back the buffer: the buffer's
/// acceptable-type mask has bit `i` set and the type is device-local.
pub open spec fn qualifies(memory_type_bits: u32, flags: Seq<u32>, i: int) -> bool {
    &&& 0 <= i < flags.len()
    &&& i < 32
    &&& (memory_type_bits >> (i as u32)) & 1 == 1
    &&& flags[i] & DEVICE_LOCAL_MEMORY_FLAG == DEVICE_LOCAL_MEMORY_FLAG
}

/// Select the memory type that backs the buffer: the lowest-indexed type
/// that the buffer's acceptable-type mask admits and that is
/// device-local. No fallback to non-device-local memory is attempted.
pub fn select_memory_type(memory_type_bits: u32, memory_type_flags: &Vec<u32>) -> (r: Option<
    u32,
>)
    requires
        memory_type_flags@.len() <= 32,
    ensures
        r matches Some(i) ==> qualifies(memory_type_bits, memory_type_flags@, i as int)
            && (forall|j: int| 0 <= j < i ==> !qualifies(memory_type_bits, memory_type_flags@, j)),
        r is None ==> (forall|j: int| !qualifies(memory_type_bits, memory_type_flags@, j)),
{
    let n = memory_type_flags.len();
    let mut i: usize = 0;
    while i < n
        invariant
            n == memory_type_flags@.len() <= 32,
            0 <= i <= n,
            forall|j: int| 0 <= j < i ==> !qualifies(memory_type_bits, memory_type_flags@, j),
        decreases n - i,
    {
        let accepted = (memory_type_bits >> (i as u32)) & 1 == 1;
        let device_local = memory_type_flags[i] & DEVICE_LOCAL_MEMORY_FLAG
            == DEVICE_LOCAL_MEMORY_FLAG;
        if accepted && device_local {
            return Some(i as u32);
        }
        i += 1;
    }
    None
}

/// Where in the allocation sequence a plan stands. The first eight steps
/// each await the outcome of one native call.
#[derive(Clone, Copy, Debug, PartialEq, Eq, Structural)]
pub enum AllocStep {
    CreateBuffer,
    QueryRequirements,
    QueryMemoryProperties,
    AllocateMemory,
    BindMemory,
    ExportHandle,
    ImportEngineBuffer,
    WrapAndClear,
    Done,
    Failed,
}

/// The next native call the host must perform, or the rollback it owes.
#[derive(Clone, Copy, Debug, PartialEq, Eq, Structural)]
pub enum AllocAction {
    /// Create the native buffer object, tagged for transfer use and
    /// marked exportable through the platform's opaque handle type.
    CreateBufferObject { size: u64 },
    /// Query the buffer object's memory requirements.
    QueryMemoryRequirements,
    /// Query the physical device's memory type list.
    QueryMemoryProperties,
    /// Allocate device memory of the aligned size from the selected
    /// type, with export metadata for the platform's opaque handle type.
    AllocateDeviceMemory { size: u64, memory_type_index: u32 },
    /// Bind the buffer object to the allocation at offset 0.
    BindBufferMemory,
    /// Export an OS-level handle from the allocation.
    ExportOpaqueHandle,
    /// Import the exported handle into the engine as a shared buffer of
    /// the same byte size.
    ImportEngineBuffer { size: u64 },
    /// Wrap the buffer object as a graphics-API buffer and submit one
    /// zero-fill of its whole range.
    WrapGraphicsBufferAndClear { size: u64 },
    /// The step failed: release exactly the listed resources, then
    /// surface the plan's error.
    ReleaseAndFail { destroy_buffer: bool, free_memory: bool },
    /// The buffer is fully built; package it.
    Complete,
}

/// One shared-buffer allocation in progress.
pub struct BufferPlan {
    backend: Backend,
    requested_size: u64,
    step: AllocStep,
    aligned_size: u64,
    memory_type_bits: u32,
    memory_type_index: u32,
    buffer_live: bool,
    memory_live: bool,
    engine_buffer_live: bool,
    failure: Option<SharedBufferCreateError>,
}

impl BufferPlan {
    pub closed spec fn backend(&self) -> Backend {
        self.backend
    }

    pub closed spec fn requested_size(&self) -> u64 {
        self.requested_size
    }

    pub closed spec fn step(&self) -> AllocStep {
        self.step
    }

    pub closed spec fn aligned_size(&self) -> u64 {
        self.aligned_size
    }

    pub closed spec fn memory_type_bits(&self) -> u32 {
        self.memory_type_bits
    }

    pub closed spec fn memory_type_index(&self) -> u32 {
        self.memory_type_index
    }

    /// The native buffer object exists and is not yet owned by a result.
    pub closed spec fn buffer_live(&self) -> bool {
        self.buffer_live
    }

    /// The device memory allocation exists and is not yet owned by a
    /// result.
    pub closed spec fn memory_live(&self) -> bool {
        self.memory_live
    }

    /// The engine-side shared buffer exists and is not yet owned by a
    /// result.
    pub closed spec fn engine_buffer_live(&self) -> bool {
        self.engine_buffer_live
    }

    pub closed spec fn failure_spec(&self) -> Option<SharedBufferCreateError> {
        self.failure
    }

    /// The machine's invariant. It orders resource lifetimes along the
    /// steps and pins the rollback obligation: a failed plan holds no
    /// native resource, and only a failed plan carries an error.
    pub open spec fn wf(&self) -> bool {
        &&& self.requested_size() > 0
        &&& (self.step() == AllocStep::Failed <==> self.failure_spec() is Some)
        &&& match self.step() {
            AllocStep::CreateBuffer => !self.buffer_live() && !self.memory_live()
                && !self.engine_buffer_live(),
            AllocStep::QueryRequirements => self.buffer_live() && !self.memory_live()
                && !self.engine_buffer_live(),
            AllocStep::QueryMemoryProperties => self.buffer_live() && !self.memory_live()
                && !self.engine_buffer_live() && self.aligned_size() >= self.requested_size(),
            AllocStep::AllocateMemory => self.buffer_live() && !self.memory_live()
                && !self.engine_buffer_live() && self.aligned_size() >= self.requested_size(),
            AllocStep::BindMemory => self.buffer_live() && self.memory_live()
                && !self.engine_buffer_live() && self.aligned_size() >= self.requested_size(),
            AllocStep::ExportHandle => self.buffer_live() && self.memory_live()
                && !self.engine_buffer_live() && self.aligned_size() >= self.requested_size(),
            AllocStep::ImportEngineBuffer => self.buffer_live() && self.memory_live()
                && !self.engine_buffer_live() && self.aligned_size() >= self.requested_size(),
            AllocStep::WrapAndClear => self.buffer_live() && self.memory_live()
                && self.engine_buffer_live() && self.aligned_size() >= self.requested_size(),
            AllocStep::Done => self.buffer_live() && self.memory_live()
                && self.engine_buffer_live() && self.aligned_size() >= self.requested_size(),
            AllocStep::Failed => !self.buffer_live() && !self.memory_live()
                && !self.engine_buffer_live(),
        }
    }

    /// A plan as handed out by a device: nothing done, nothing held.
    pub open spec fn is_initial(&self, backend: Backend, size: u64) -> bool {
        &&& self.wf()
        &&& self.step() == AllocStep::CreateBuffer
        &&& self.backend() == backend
        &&& self.requested_size() == size
        &&& self.aligned_size() == size
    }

    /// The request a plan serves never changes across steps.
    pub open spec fn same_request(&self, other: &BufferPlan) -> bool {
        &&& self.backend() == other.backend()
        &&& self.requested_size() == other.requested_size()
    }

    /// Start a plan for one shared buffer of `size` bytes.
    pub fn begin(backend: Backend, size: u64) -> (p: BufferPlan)
        requires
            size > 0,
        ensures
            p.is_initial(backend, size),
    {
        BufferPlan {
            backend,
            requested_size: size,
            step: AllocStep::CreateBuffer,
            aligned_size: size,
            memory_type_bits: 0,
            memory_type_index: 0,
            buffer_live: false,
            memory_live: false,
            engine_buffer_live: false,
            failure: None,
        }
    }

    /// The first native call of a plan.
    pub fn first_action(&self) -> (a: AllocAction)
        requires
            self.step() == AllocStep::CreateBuffer,
        ensures
            a == (AllocAction::CreateBufferObject { size: self.requested_size() }),
    {
        AllocAction::CreateBufferObject { size: self.requested_size }
    }

    /// Outcome of creating the native buffer object. A rejected create is
    /// physical exhaustion; nothing was acquired, so nothing is rolled
    /// back.
    pub fn on_buffer_created(&mut self, ok: bool) -> (a: AllocAction)
        requires
            old(self).wf(),
            old(self).step() == AllocStep::CreateBuffer,
        ensures
            final(self).wf(),
            old(self).same_request(final(self)),
            ok ==> {
                &&& final(self).step() == AllocStep::QueryRequirements
                &&& final(self).buffer_live()
                &&& a == AllocAction::QueryMemoryRequirements
            },
            !ok ==> {
                &&& final(self).step() == AllocStep::Failed
                &&& final(self).failure_spec() == Some(SharedBufferCreateError::OutOfMemory)
                &&& !final(self).buffer_live() && !final(self).memory_live()
                    && !final(self).engine_buffer_live()
                &&& a == (AllocAction::ReleaseAndFail { destroy_buffer: false, free_memory: false })
            },
    {
        if ok {
            self.buffer_live = true;
            self.step = AllocStep::QueryRequirements;
            AllocAction::QueryMemoryRequirements
        } else {
            self.step = AllocStep::Failed;
            self.failure = Some(SharedBufferCreateError::OutOfMemory);
            AllocAction::ReleaseAndFail { destroy_buffer: false, free_memory: false }
        }
    }

    /// The buffer's reported memory requirements: its alignment and the
    /// bitmask of acceptable memory types. The requested size is rounded
    /// up to the alignment; a size that cannot be represented after
    /// rounding counts as exhaustion and rolls the buffer object back.
    pub fn on_memory_requirements(&mut self, alignment: u64, memory_type_bits: u32) -> (a:
        AllocAction)
        requires
            old(self).wf(),
            old(self).step() == AllocStep::QueryRequirements,
            1 <= alignment,
        ensures
            final(self).wf(),
            old(self).same_request(final(self)),
            old(self).requested_size() + alignment - 1 <= u64::MAX ==> {
                &&& final(self).step() == AllocStep::QueryMemoryProperties
                &&& final(self).buffer_live()
                &&& final(self).aligned_size() == spec_align_up(
                    old(self).requested_size(),
                    alignment,
                )
                &&& final(self).memory_type_bits() == memory_type_bits
                &&& a == AllocAction::QueryMemoryProperties
            },
            old(self).requested_size() + alignment - 1 > u64::MAX ==> {
                &&& final(self).step() == AllocStep::Failed
                &&& final(self).failure_spec() == Some(SharedBufferCreateError::OutOfMemory)
                &&& !final(self).buffer_live() && !final(self).memory_live()
                    && !final(self).engine_buffer_live()
                &&& a == (AllocAction::ReleaseAndFail { destroy_buffer: true, free_memory: false })
            },
    {
        if self.requested_size <= u64::MAX - (alignment - 1) {
            self.aligned_size = align_up(self.requested_size, alignment);
            self.memory_type_bits = memory_type_bits;
            self.step = AllocStep::QueryMemoryProperties;
            AllocAction::QueryMemoryProperties
        } else {
            self.buffer_live = false;
            self.step = AllocStep::Failed;
            self.failure = Some(SharedBufferCreateError::OutOfMemory);
            AllocAction::ReleaseAndFail { destroy_buffer: true, free_memory: false }
        }
    }

    /// The physical device's memory type list, one property bitmask per
    /// type. Selects the lowest-indexed type that the requirements accept
    /// and that is device-local; with no fallback to other memory, a
    /// fruitless search is exhaustion and rolls the buffer object back.
    pub fn on_memory_properties(&mut self, memory_type_flags: &Vec<u32>) -> (a: AllocAction)
        requires
            old(self).wf(),
            old(self).step() == AllocStep::QueryMemoryProperties,
            memory_type_flags@.len() <= 32,
        ensures
            final(self).wf(),
            old(self).same_request(final(self)),
            final(self).aligned_size() == old(self).aligned_size(),
            final(self).step() == AllocStep::AllocateMemory || final(self).step()
                == AllocStep::Failed,
            final(self).step() == AllocStep::AllocateMemory ==> {
                &&& final(self).buffer_live()
                &&& qualifies(
                    old(self).memory_type_bits(),
                    memory_type_flags@,
                    final(self).memory_type_index() as int,
                )
                &&& forall|j: int| 0 <= j < final(self).memory_type_index()
                    ==> !qualifies(old(self).memory_type_bits(), memory_type_flags@, j)
                &&& a == (AllocAction::AllocateDeviceMemory {
                    size: old(self).aligned_size(),
                    memory_type_index: final(self).memory_type_index(),
                })
            },
            final(self).step() == AllocStep::Failed ==> {
                &&& forall|i: int| !qualifies(old(self).memory_type_bits(), memory_type_flags@, i)
                &&& final(self).failure_spec() == Some(SharedBufferCreateError::OutOfMemory)
                &&& !final(self).buffer_live() && !final(self).memory_live()
                    && !final(self).engine_buffer_live()
                &&& a == (AllocAction::ReleaseAndFail { destroy_buffer: true, free_memory: false })
            },
    {
        let r = select_memory_type(self.memory_type_bits, memory_type_flags);
        match r {
            Some(idx) => {
                proof {
                    assert(qualifies(self.memory_type_bits, memory_type_flags@, idx as int));
                }
                self.memory_type_index = idx;
                self.step = AllocStep::AllocateMemory;
                AllocAction::AllocateDeviceMemory {
                    size: self.aligned_size,
                    memory_type_index: idx,
                }
            },
            None => {
                self.buffer_live = false;
                self.step = AllocStep::Failed;
                self.failure = Some(SharedBufferCreateError::OutOfMemory);
                AllocAction::ReleaseAndFail { destroy_buffer: true, free_memory: false }
            },
        }
    }

    /// Outcome of allocating device memory from the selected type. A
    /// rejected allocation rolls the buffer object back.
    pub fn on_memory_allocated(&mut self, ok: bool) -> (a: AllocAction)
        requires
            old(self).wf(),
            old(self).step() == AllocStep::AllocateMemory,
        ensures
            final(self).wf(),
            old(self).same_request(final(self)),
            final(self).aligned_size() == old(self).aligned_size(),
            ok ==> {
                &&& final(self).step() == AllocStep::BindMemory
                &&& final(self).buffer_live() && final(self).memory_live()
                &&& a == AllocAction::BindBufferMemory
            },
            !ok ==> {
                &&& final(self).step() == AllocStep::Failed
                &&& final(self).failure_spec() == Some(SharedBufferCreateError::OutOfMemory)
                &&& !final(self).buffer_live() && !final(self).memory_live()
                    && !final(self).engine_buffer_live()
                &&& a == (AllocAction::ReleaseAndFail { destroy_buffer: true, free_memory: false })
            },
    {
        if ok {
            self.memory_live = true;
            self.step = AllocStep::BindMemory;
            AllocAction::BindBufferMemory
        } else {
            self.buffer_live = false;
            self.step = AllocStep::Failed;
            self.failure = Some(SharedBufferCreateError::OutOfMemory);
            AllocAction::ReleaseAndFail { destroy_buffer: true, free_memory: false }
        }
    }

    /// Outcome of binding the buffer object to the allocation. A failed
    /// bind frees the allocation and destroys the buffer object.
    pub fn on_memory_bound(&mut self, ok: bool) -> (a: AllocAction)
        requires
            old(self).wf(),
            old(self).step() == AllocStep::BindMemory,
        ensures
            final(self).wf(),
            old(self).same_request(final(self)),
            final(self).aligned_size() == old(self).aligned_size(),
            ok ==> {
                &&& final(self).step() == AllocStep::ExportHandle
                &&& a == AllocAction::ExportOpaqueHandle
            },
            !ok ==> {
                &&& final(self).step() == AllocStep::Failed
                &&& final(self).failure_spec() == Some(SharedBufferCreateError::OutOfMemory)
                &&& !final(self).buffer_live() && !final(self).memory_live()
                    && !final(self).engine_buffer_live()
                &&& a == (AllocAction::ReleaseAndFail { destroy_buffer: true, free_memory: true })
            },
    {
        if ok {
            self.step = AllocStep::ExportHandle;
            AllocAction::ExportOpaqueHandle
        } else {
            self.buffer_live = false;
            self.memory_live = false;
            self.step = AllocStep::Failed;
            self.failure = Some(SharedBufferCreateError::OutOfMemory);
            AllocAction::ReleaseAndFail { destroy_buffer: true, free_memory: true }
        }
    }

    /// Outcome of exporting the OS handle. A failed export frees the
    /// allocation and destroys the buffer object.
    pub fn on_handle_exported(&mut self, ok: bool) -> (a: AllocAction)
        requires
            old(self).wf(),
            old(self).step() == AllocStep::ExportHandle,
        ensures
            final(self).wf(),
            old(self).same_request(final(self)),
            final(self).aligned_size() == old(self).aligned_size(),
            ok ==> {
                &&& final(self).step() == AllocStep::ImportEngineBuffer
                &&& a == (AllocAction::ImportEngineBuffer { size: old(self).aligned_size() })
            },
            !ok ==> {
                &&& final(self).step() == AllocStep::Failed
                &&& final(self).failure_spec() == Some(SharedBufferCreateError::OutOfMemory)
                &&& !final(self).buffer_live() && !final(self).memory_live()
                    && !final(self).engine_buffer_live()
                &&& a == (AllocAction::ReleaseAndFail { destroy_buffer: true, free_memory: true })
            },
    {
        if ok {
            self.step = AllocStep::ImportEngineBuffer;
            AllocAction::ImportEngineBuffer { size: self.aligned_size }
        } else {
            self.buffer_live = false;
            self.memory_live = false;
            self.step = AllocStep::Failed;
            self.failure = Some(SharedBufferCreateError::OutOfMemory);
            AllocAction::ReleaseAndFail { destroy_buffer: true, free_memory: true }
        }
    }

    /// Outcome of importing the handle into the engine. A null engine
    /// buffer carries the engine's own error code and message; the
    /// allocation and the buffer object are rolled back.
    pub fn on_engine_import(&mut self, outcome: Result<(), (i32, String)>) -> (a: AllocAction)
        requires
            old(self).wf(),
            old(self).step() == AllocStep::ImportEngineBuffer,
        ensures
            final(self).wf(),
            old(self).same_request(final(self)),
            final(self).aligned_size() == old(self).aligned_size(),
            outcome is Ok ==> {
                &&& final(self).step() == AllocStep::WrapAndClear
                &&& final(self).engine_buffer_live()
                &&& a == (AllocAction::WrapGraphicsBufferAndClear { size: old(self).aligned_size() })
            },
            outcome matches Err((code, message)) ==> {
                &&& final(self).step() == AllocStep::Failed
                &&& final(self).failure_spec() == Some(
                    SharedBufferCreateError::Oidn(code, message),
                )
                &&& !final(self).buffer_live() && !final(self).memory_live()
                    && !final(self).engine_buffer_live()
                &&& a == (AllocAction::ReleaseAndFail { destroy_buffer: true, free_memory: true })
            },
    {
        match outcome {
            Ok(()) => {
                self.engine_buffer_live = true;
                self.step = AllocStep::WrapAndClear;
                AllocAction::WrapGraphicsBufferAndClear { size: self.aligned_size }
            },
            Err((code, message)) => {
                self.buffer_live = false;
                self.memory_live = false;
                self.step = AllocStep::Failed;
                self.failure = Some(SharedBufferCreateError::Oidn(code, message));
                AllocAction::ReleaseAndFail { destroy_buffer: true, free_memory: true }
            },
        }
    }

    /// The graphics-API wrapper exists and the zero-fill was submitted;
    /// the plan is complete. The zero-fill is in flight, not retired.
    pub fn on_cleared(&mut self) -> (a: AllocAction)
        requires
            old(self).wf(),
            old(self).step() == AllocStep::WrapAndClear,
        ensures
            final(self).wf(),
            old(self).same_request(final(self)),
            final(self).aligned_size() == old(self).aligned_size(),
            final(self).step() == AllocStep::Done,
            a == AllocAction::Complete,
    {
        self.step = AllocStep::Done;
        AllocAction::Complete
    }

    pub fn is_done(&self) -> (r: bool)
        ensures
            r == (self.step() == AllocStep::Done),
    {
        match self.step {
            AllocStep::Done => true,
            _ => false,
        }
    }

    pub fn is_failed(&self) -> (r: bool)
        ensures
            r == (self.step() == AllocStep::Failed),
    {
        match self.step {
            AllocStep::Failed => true,
            _ => false,
        }
    }

    /// The typed error of a failed plan.
    pub fn failure(&self) -> (r: &Option<SharedBufferCreateError>)
        ensures
            *r == self.failure_spec(),
    {
        &self.failure
    }

    pub fn backend_tag(&self) -> (r: Backend)
        ensures
            r == self.backend(),
    {
        self.backend
    }

    pub fn final_size(&self) -> (r: u64)
        ensures
            r == self.aligned_size(),
    {
        self.aligned_size
    }

    pub fn selected_memory_type(&self) -> (r: u32)
        ensures
            r == self.memory_type_index(),
    {
        self.memory_type_index
    }
}

/// No resource survives a failure: whatever step failed, the rollback
/// actions of that step released every native object the plan had
/// acquired, so a failed plan never leaks a buffer object, an allocation
/// or an engine buffer.
pub proof fn lemma_failed_plan_holds_no_resources(p: &BufferPlan)
    requires
        p.wf(),
        p.step() == AllocStep::Failed,
    ensures
        !p.buffer_live(),
        !p.memory_live(),
        !p.engine_buffer_live(),
{
}

} // verus!
