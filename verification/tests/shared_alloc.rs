use gpu_interop::allocator::align_up;
use gpu_interop::allocator::select_memory_type;
use gpu_interop::allocator::AllocAction;
use gpu_interop::allocator::BufferPlan;
use gpu_interop::pairing::AdapterProbe;
use gpu_interop::pairing::Pairing;
use gpu_interop::pairing::ENGINE_IMPORT_D3D12_RESOURCE;
use gpu_interop::pairing::ENGINE_IMPORT_OPAQUE_WIN32;
use gpu_interop::vulkan::allocate_buffers;
use gpu_interop::vulkan::VulkanCapabilities;
use gpu_interop::Backend;
use gpu_interop::Device;
use gpu_interop::SharedBuffer;
use gpu_interop::SharedBufferCreateError;

fn vulkan_device() -> Device {
    let caps = VulkanCapabilities {
        api_version: (1u32 << 22) | (1u32 << 12),
        supports_external_memory_win32: true,
        device_uuid: [1u8; 16],
    };
    let (mut pairing, _) = Pairing::begin(AdapterProbe::Vulkan(caps)).unwrap();
    pairing.on_engine_device(false);
    pairing.on_memory_types(ENGINE_IMPORT_OPAQUE_WIN32);
    pairing.on_graphics_device(Ok(()));
    Device::new(&pairing, 1, 2, 3).0
}

fn dx12_device() -> Device {
    let (mut pairing, _) = Pairing::begin(AdapterProbe::Dx12 { luid: 5 }).unwrap();
    pairing.on_engine_device(false);
    pairing.on_memory_types(ENGINE_IMPORT_D3D12_RESOURCE);
    pairing.on_graphics_device(Ok(()));
    Device::new(&pairing, 4, 5, 6).0
}

/// Drive a plan through every native-call outcome of the happy path.
fn complete_plan(mut plan: BufferPlan, alignment: u64, memory_type_flags: Vec<u32>) -> BufferPlan {
    let a = plan.on_buffer_created(true);
    assert_eq!(a, AllocAction::QueryMemoryRequirements);
    let a = plan.on_memory_requirements(alignment, 0xff);
    assert_eq!(a, AllocAction::QueryMemoryProperties);
    let a = plan.on_memory_properties(&memory_type_flags);
    assert!(matches!(a, AllocAction::AllocateDeviceMemory { .. }));
    let a = plan.on_memory_allocated(true);
    assert_eq!(a, AllocAction::BindBufferMemory);
    let a = plan.on_memory_bound(true);
    assert_eq!(a, AllocAction::ExportOpaqueHandle);
    let a = plan.on_handle_exported(true);
    assert!(matches!(a, AllocAction::ImportEngineBuffer { .. }));
    let a = plan.on_engine_import(Ok(()));
    assert!(matches!(a, AllocAction::WrapGraphicsBufferAndClear { .. }));
    let a = plan.on_cleared();
    assert_eq!(a, AllocAction::Complete);
    assert!(plan.is_done());
    plan
}

#[test]
fn zero_size_request_is_rejected_before_any_native_call() {
    let device = vulkan_device();
    let r = device.allocate_shared_buffers(0);
    assert!(matches!(r, Err(SharedBufferCreateError::InvalidSize(0))));
}

#[test]
fn allocation_dispatches_under_the_devices_own_backend() {
    let vulkan_plan = vulkan_device().allocate_shared_buffers(12).unwrap();
    assert_eq!(vulkan_plan.backend_tag(), Backend::Vulkan);
    let dx12_plan = dx12_device().allocate_shared_buffers(12).unwrap();
    assert_eq!(dx12_plan.backend_tag(), Backend::Dx12);
}

#[test]
fn batch_allocation_rejects_zero_size_and_zero_count() {
    let device = vulkan_device();
    assert!(matches!(
        allocate_buffers(&device, 0, 3),
        Err(SharedBufferCreateError::InvalidSize(0))
    ));
    assert!(matches!(
        allocate_buffers(&device, 16, 0),
        Err(SharedBufferCreateError::InvalidSize(16))
    ));
}

#[test]
fn batch_allocation_hands_out_one_plan_per_buffer() {
    let device = vulkan_device();
    let plans = allocate_buffers(&device, 16, 3).unwrap();
    assert_eq!(plans.len(), 3);
    for plan in &plans {
        assert_eq!(plan.backend_tag(), Backend::Vulkan);
        assert_eq!(
            plan.first_action(),
            AllocAction::CreateBufferObject { size: 16 }
        );
    }
}

#[test]
fn align_up_rounds_to_the_least_multiple() {
    assert_eq!(align_up(12, 4), 12);
    assert_eq!(align_up(13, 4), 16);
    assert_eq!(align_up(1, 256), 256);
    assert_eq!(align_up(512, 256), 512);
    assert_eq!(align_up(12, 1), 12);
}

#[test]
fn memory_type_selection_picks_lowest_device_local_accepted_type() {
    // Type 0 not accepted by the mask; type 1 accepted and device-local.
    assert_eq!(select_memory_type(0b110, &vec![1, 1, 1]), Some(1));
    // Type 0 accepted but not device-local; type 2 qualifies.
    assert_eq!(select_memory_type(0b101, &vec![0, 1, 1]), Some(2));
    // Lowest index wins.
    assert_eq!(select_memory_type(0b111, &vec![1, 1, 1]), Some(0));
    // No device-local type among the accepted ones.
    assert_eq!(select_memory_type(0b1, &vec![0, 1]), None);
    // Empty mask accepts nothing.
    assert_eq!(select_memory_type(0, &vec![1, 1]), None);
}

#[test]
fn failed_buffer_create_reports_out_of_memory_with_nothing_to_release() {
    let mut plan = vulkan_device().allocate_shared_buffers(12).unwrap();
    let a = plan.on_buffer_created(false);
    assert_eq!(
        a,
        AllocAction::ReleaseAndFail {
            destroy_buffer: false,
            free_memory: false
        }
    );
    assert!(plan.is_failed());
    assert_eq!(
        plan.failure().clone(),
        Some(SharedBufferCreateError::OutOfMemory)
    );
}

#[test]
fn failed_memory_type_selection_rolls_back_the_buffer_object() {
    let mut plan = vulkan_device().allocate_shared_buffers(12).unwrap();
    plan.on_buffer_created(true);
    plan.on_memory_requirements(4, 0b1);
    // The only accepted type is not device-local: no fallback, so the
    // buffer object created in the first step must be destroyed.
    let a = plan.on_memory_properties(&vec![0, 1]);
    assert_eq!(
        a,
        AllocAction::ReleaseAndFail {
            destroy_buffer: true,
            free_memory: false
        }
    );
    assert!(plan.is_failed());
    assert_eq!(
        plan.failure().clone(),
        Some(SharedBufferCreateError::OutOfMemory)
    );
}

#[test]
fn failed_bind_frees_memory_and_destroys_the_buffer() {
    let mut plan = vulkan_device().allocate_shared_buffers(12).unwrap();
    plan.on_buffer_created(true);
    plan.on_memory_requirements(4, 0b1);
    plan.on_memory_properties(&vec![1]);
    plan.on_memory_allocated(true);
    let a = plan.on_memory_bound(false);
    assert_eq!(
        a,
        AllocAction::ReleaseAndFail {
            destroy_buffer: true,
            free_memory: true
        }
    );
    assert!(plan.is_failed());
}

#[test]
fn engine_import_failure_carries_the_engine_error() {
    let mut plan = vulkan_device().allocate_shared_buffers(12).unwrap();
    plan.on_buffer_created(true);
    plan.on_memory_requirements(4, 0b1);
    plan.on_memory_properties(&vec![1]);
    plan.on_memory_allocated(true);
    plan.on_memory_bound(true);
    plan.on_handle_exported(true);
    let a = plan.on_engine_import(Err((2, String::from("import rejected"))));
    assert_eq!(
        a,
        AllocAction::ReleaseAndFail {
            destroy_buffer: true,
            free_memory: true
        }
    );
    assert!(plan.is_failed());
    assert_eq!(
        plan.failure().clone(),
        Some(SharedBufferCreateError::Oidn(
            2,
            String::from("import rejected")
        ))
    );
}

#[test]
fn requested_size_is_rounded_up_to_the_reported_alignment() {
    let mut plan = vulkan_device().allocate_shared_buffers(10).unwrap();
    plan.on_buffer_created(true);
    plan.on_memory_requirements(8, 0b1);
    let a = plan.on_memory_properties(&vec![1]);
    assert_eq!(
        a,
        AllocAction::AllocateDeviceMemory {
            size: 16,
            memory_type_index: 0
        }
    );
    assert_eq!(plan.final_size(), 16);
}

#[test]
fn completed_plan_packages_a_zeroed_undrained_buffer() {
    let plan = vulkan_device().allocate_shared_buffers(12).unwrap();
    let plan = complete_plan(plan, 4, vec![1]);
    let mut buffer = SharedBuffer::from_plan(&plan, 100, 200, 300);
    assert_eq!(buffer.backend_tag(), Backend::Vulkan);
    assert_eq!(buffer.len(), 12);
    assert_eq!(buffer.oidn_buffer().handle, 200);
    assert_eq!(buffer.oidn_buffer().size, 12);
    assert_eq!(buffer.wgpu_buffer().handle, 300);
    assert_eq!(buffer.wgpu_buffer().size, 12);
    assert!(!buffer.is_synced());
    // The zero-fill is in flight: only after the drain may the engine
    // side look, and it must see zeroes.
    buffer.drain_graphics();
    assert_eq!(buffer.compute_read(0, 12), vec![0u8; 12]);
}

#[test]
fn selected_memory_type_is_recorded_in_the_plan() {
    let mut plan = vulkan_device().allocate_shared_buffers(4).unwrap();
    plan.on_buffer_created(true);
    plan.on_memory_requirements(4, 0b110);
    let a = plan.on_memory_properties(&vec![1, 0, 1]);
    assert_eq!(
        a,
        AllocAction::AllocateDeviceMemory {
            size: 4,
            memory_type_index: 2
        }
    );
    assert_eq!(plan.selected_memory_type(), 2);
}
