use gpu_interop::pairing::AdapterProbe;
use gpu_interop::pairing::DeviceIdentifier;
use gpu_interop::pairing::Pairing;
use gpu_interop::pairing::PairingAction;
use gpu_interop::pairing::ENGINE_IMPORT_D3D12_RESOURCE;
use gpu_interop::pairing::ENGINE_IMPORT_OPAQUE_WIN32;
use gpu_interop::vulkan::VulkanCapabilities;
use gpu_interop::Backend;
use gpu_interop::BackendKind;
use gpu_interop::Device;
use gpu_interop::DeviceCreateError;

fn api_version_1_1() -> u32 {
    (1u32 << 22) | (1u32 << 12)
}

fn good_vulkan_caps() -> VulkanCapabilities {
    VulkanCapabilities {
        api_version: api_version_1_1(),
        supports_external_memory_win32: true,
        device_uuid: [7u8; 16],
    }
}

fn complete_vulkan_pairing() -> Pairing {
    let (mut pairing, action) = Pairing::begin(AdapterProbe::Vulkan(good_vulkan_caps())).unwrap();
    assert_eq!(
        action,
        PairingAction::RequestEngineDevice(DeviceIdentifier::Uuid([7u8; 16]))
    );
    let action = pairing.on_engine_device(false);
    assert_eq!(action, PairingAction::CommitAndQueryMemoryTypes);
    let action = pairing.on_memory_types(ENGINE_IMPORT_OPAQUE_WIN32 | 1);
    assert_eq!(action, PairingAction::RequestGraphicsDevice);
    let action = pairing.on_graphics_device(Ok(()));
    assert_eq!(action, PairingAction::AssembleDevice);
    pairing
}

#[test]
fn unsupported_backend_is_rejected_at_dispatch() {
    for kind in [
        BackendKind::Empty,
        BackendKind::Metal,
        BackendKind::Gl,
        BackendKind::BrowserWebGpu,
    ] {
        let r = Pairing::begin(AdapterProbe::Unsupported(kind));
        match r {
            Err(DeviceCreateError::UnsupportedBackend(k)) => assert_eq!(k, kind),
            _ => panic!("expected UnsupportedBackend"),
        }
    }
}

#[test]
fn adapter_without_extension_yields_missing_feature() {
    let caps = VulkanCapabilities {
        api_version: api_version_1_1(),
        supports_external_memory_win32: false,
        device_uuid: [0u8; 16],
    };
    let r = Pairing::begin(AdapterProbe::Vulkan(caps));
    assert!(matches!(r, Err(DeviceCreateError::MissingFeature)));
}

#[test]
fn adapter_below_version_1_1_yields_missing_feature() {
    let caps = VulkanCapabilities {
        api_version: 1u32 << 22,
        supports_external_memory_win32: true,
        device_uuid: [0u8; 16],
    };
    let r = Pairing::begin(AdapterProbe::Vulkan(caps));
    assert!(matches!(r, Err(DeviceCreateError::MissingFeature)));
}

#[test]
fn qualified_vulkan_adapter_starts_with_its_uuid() {
    let (pairing, action) = Pairing::begin(AdapterProbe::Vulkan(good_vulkan_caps())).unwrap();
    assert_eq!(pairing.backend_tag(), Backend::Vulkan);
    assert!(!pairing.is_complete());
    assert!(!pairing.is_failed());
    assert_eq!(
        action,
        PairingAction::RequestEngineDevice(DeviceIdentifier::Uuid([7u8; 16]))
    );
}

#[test]
fn dx12_adapter_starts_with_its_luid() {
    let (pairing, action) = Pairing::begin(AdapterProbe::Dx12 { luid: 99 }).unwrap();
    assert_eq!(pairing.backend_tag(), Backend::Dx12);
    assert_eq!(
        action,
        PairingAction::RequestEngineDevice(DeviceIdentifier::Luid(99))
    );
}

#[test]
fn null_engine_device_aborts_without_release() {
    let (mut pairing, _) = Pairing::begin(AdapterProbe::Vulkan(good_vulkan_caps())).unwrap();
    let action = pairing.on_engine_device(true);
    assert_eq!(action, PairingAction::Abort);
    assert!(pairing.is_failed());
    assert_eq!(
        pairing.failure().clone(),
        Some(DeviceCreateError::OidnUnsupported)
    );
}

#[test]
fn empty_memory_type_intersection_releases_engine_device() {
    let (mut pairing, _) = Pairing::begin(AdapterProbe::Vulkan(good_vulkan_caps())).unwrap();
    pairing.on_engine_device(false);
    let action = pairing.on_memory_types(2);
    assert_eq!(action, PairingAction::ReleaseEngineDevice);
    assert!(pairing.is_failed());
    assert_eq!(
        pairing.failure().clone(),
        Some(DeviceCreateError::OidnImportUnsupported)
    );
}

#[test]
fn graphics_request_failure_releases_engine_device() {
    let (mut pairing, _) = Pairing::begin(AdapterProbe::Vulkan(good_vulkan_caps())).unwrap();
    pairing.on_engine_device(false);
    pairing.on_memory_types(ENGINE_IMPORT_OPAQUE_WIN32);
    let action = pairing.on_graphics_device(Err(String::from("driver says no")));
    assert_eq!(action, PairingAction::ReleaseEngineDevice);
    assert!(pairing.is_failed());
    assert_eq!(
        pairing.failure().clone(),
        Some(DeviceCreateError::RequestDeviceError(String::from(
            "driver says no"
        )))
    );
}

#[test]
fn completed_pairing_assembles_a_device() {
    let pairing = complete_vulkan_pairing();
    assert!(pairing.is_complete());
    assert_eq!(pairing.import_flags(), ENGINE_IMPORT_OPAQUE_WIN32);
    let (device, queue) = Device::new(&pairing, 10, 20, 30);
    assert_eq!(device.backend_tag(), Backend::Vulkan);
    assert_eq!(device.wgpu_device(), 10);
    assert_eq!(device.oidn_device(), 20);
    assert_eq!(queue, 30);
    assert_eq!(device.import_flags(), ENGINE_IMPORT_OPAQUE_WIN32);
}

#[test]
fn dx12_pairing_intersects_with_resource_flag() {
    let (mut pairing, _) = Pairing::begin(AdapterProbe::Dx12 { luid: 1 }).unwrap();
    pairing.on_engine_device(false);
    let action = pairing.on_memory_types(ENGINE_IMPORT_D3D12_RESOURCE | ENGINE_IMPORT_OPAQUE_WIN32);
    assert_eq!(action, PairingAction::RequestGraphicsDevice);
    pairing.on_graphics_device(Ok(()));
    assert!(pairing.is_complete());
    assert_eq!(pairing.import_flags(), ENGINE_IMPORT_D3D12_RESOURCE);
}

#[test]
fn device_create_error_messages_are_fixed() {
    assert_eq!(
        DeviceCreateError::OidnUnsupported.message(),
        "OIDN could not create a device for this Adapter (does this adapter support OIDN?)"
    );
    assert_eq!(
        DeviceCreateError::OidnImportUnsupported.message(),
        "OIDN does not support the required import method"
    );
    assert_eq!(
        DeviceCreateError::MissingFeature.message(),
        "A required feature is missing"
    );
    assert_eq!(
        DeviceCreateError::UnsupportedBackend(BackendKind::Metal).message(),
        "The backend is not supported."
    );
    assert_eq!(
        DeviceCreateError::RequestDeviceError(String::from("x")).message(),
        "The native device request failed"
    );
}
