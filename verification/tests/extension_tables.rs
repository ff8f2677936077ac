use std::cell::RefCell;

use vulkan::command::{Command, Tier};
use vulkan::dispatch::InstanceDispatchTable;
use vulkan::entry::VulkanEntry;
use vulkan::error::LoadError;
use vulkan::extensions::{Extension, ExtensionDispatchTable, ExtensionKind};
use vulkan::pointer::FunctionPointer;
use vulkan::resolve::{ProcAddrCall, ResolutionContext};

const BOOTSTRAP: usize = 0xB007_0000;
const DEVICE_RESOLVER: usize = 0xD000_0000;

fn address_of(name: &str) -> usize {
    if name == "vkGetDeviceProcAddr" {
        DEVICE_RESOLVER
    } else {
        0x4000 + name.len()
    }
}

fn pointer(address: usize) -> FunctionPointer {
    FunctionPointer::from_address(address).unwrap()
}

fn entry() -> VulkanEntry<()> {
    let opened: Result<(), ()> = Ok(());
    VulkanEntry::open(opened, |_library: &(), _name: &'static str| BOOTSTRAP).unwrap()
}

#[test]
fn surface_extension_declares_its_commands() {
    assert_eq!(Extension::VK_KHR_surface.kind(), ExtensionKind::Instance);
    assert_eq!(
        Extension::VK_KHR_surface.commands(),
        vec![
            Command::instance("vkDestroySurfaceKHR"),
            Command::instance("vkGetPhysicalDeviceSurfaceSupportKHR"),
            Command::instance("vkGetPhysicalDeviceSurfaceCapabilitiesKHR"),
            Command::instance("vkGetPhysicalDeviceSurfaceFormatsKHR"),
            Command::instance("vkGetPhysicalDeviceSurfacePresentModesKHR"),
        ]
    );
}

#[test]
fn device_group_extension_mixes_tiers() {
    assert_eq!(Extension::VK_KHX_device_group.kind(), ExtensionKind::Device);
    let commands = Extension::VK_KHX_device_group.commands();
    assert_eq!(commands.len(), 9);
    assert_eq!(commands[0], Command::device("vkGetDeviceGroupPeerMemoryFeaturesKHX"));
    assert_eq!(commands[7].tier, Tier::Device);
    assert_eq!(commands[8], Command::instance("vkGetPhysicalDevicePresentRectanglesKHX"));
}

#[test]
fn extension_without_commands_declares_none() {
    assert_eq!(Extension::VK_NV_glsl_shader.kind(), ExtensionKind::Device);
    assert!(Extension::VK_NV_glsl_shader.commands().is_empty());
    assert_eq!(Extension::VK_EXT_validation_flags.kind(), ExtensionKind::Instance);
    assert!(Extension::VK_EXT_validation_flags.commands().is_empty());
}

#[test]
fn instance_extension_is_resolved_by_the_bootstrap_resolver() {
    let entry = entry();
    let log = RefCell::new(Vec::new());
    let native = |call: ProcAddrCall| {
        log.borrow_mut().push(call);
        address_of(call.name)
    };
    let loaded =
        ExtensionDispatchTable::for_instance(Extension::VK_KHR_surface, &entry, 0x77, &native)
            .unwrap();
    assert_eq!(loaded.extension(), Extension::VK_KHR_surface);
    assert_eq!(loaded.table().len(), 5);
    assert_eq!(
        loaded.table().get(0).unwrap().address(),
        address_of("vkDestroySurfaceKHR")
    );
    assert_eq!(loaded.table().command(4).unwrap().name, "vkGetPhysicalDeviceSurfacePresentModesKHR");
    let log = log.into_inner();
    assert_eq!(log.len(), 5);
    for call in log.iter() {
        assert_eq!(call.resolver, pointer(BOOTSTRAP));
        assert_eq!(call.handle, 0x77);
    }
}

#[test]
fn device_extension_resolves_each_command_by_its_own_tier() {
    let entry = entry();
    let native = |call: ProcAddrCall| address_of(call.name);
    let instance_table = InstanceDispatchTable::new(&entry, 0x77, &native).unwrap();
    let log = RefCell::new(Vec::new());
    let recording = |call: ProcAddrCall| {
        log.borrow_mut().push(call);
        address_of(call.name)
    };
    let loaded = ExtensionDispatchTable::for_device(
        Extension::VK_KHX_device_group,
        &entry,
        0x77,
        &instance_table,
        0x99,
        &recording,
    )
    .unwrap();
    assert_eq!(loaded.table().len(), 9);
    let log = log.into_inner();
    assert_eq!(log.len(), 9);
    for call in log[..8].iter() {
        assert_eq!(call.resolver, pointer(DEVICE_RESOLVER));
        assert_eq!(call.handle, 0x99);
    }
    assert_eq!(
        log[8],
        ProcAddrCall {
            resolver: pointer(BOOTSTRAP),
            handle: 0x77,
            name: "vkGetPhysicalDevicePresentRectanglesKHX"
        }
    );
}

#[test]
fn extension_table_fails_with_the_first_missing_command() {
    let entry = entry();
    let native = |call: ProcAddrCall| {
        if call.name == "vkGetPhysicalDeviceSurfaceCapabilitiesKHR" {
            0
        } else {
            address_of(call.name)
        }
    };
    let loaded =
        ExtensionDispatchTable::for_instance(Extension::VK_KHR_surface, &entry, 0x77, &native);
    assert_eq!(
        loaded.unwrap_err(),
        LoadError::SymbolNotFound("vkGetPhysicalDeviceSurfaceCapabilitiesKHR")
    );
}

#[test]
fn extension_without_commands_loads_whatever_the_context() {
    let calls = RefCell::new(0u32);
    let native = |_call: ProcAddrCall| {
        *calls.borrow_mut() += 1;
        0
    };
    let nothing = ResolutionContext { bootstrap: None, instance: None, device: None };
    let loaded =
        ExtensionDispatchTable::load(Extension::VK_AMD_gcn_shader, &nothing, &native).unwrap();
    assert_eq!(loaded.table().len(), 0);
    assert_eq!(loaded.extension(), Extension::VK_AMD_gcn_shader);
    let entry = entry();
    let for_instance =
        ExtensionDispatchTable::for_instance(Extension::VK_NV_glsl_shader, &entry, 0, &native)
            .unwrap();
    assert_eq!(for_instance.table().len(), 0);
    assert_eq!(*calls.borrow(), 0);
}

#[test]
fn device_commands_are_missing_where_there_is_no_device() {
    let entry = entry();
    let calls = RefCell::new(0u32);
    let native = |call: ProcAddrCall| {
        *calls.borrow_mut() += 1;
        address_of(call.name)
    };
    let loaded =
        ExtensionDispatchTable::for_instance(Extension::VK_KHR_swapchain, &entry, 0x77, &native);
    assert_eq!(loaded.unwrap_err(), LoadError::SymbolNotFound("vkCreateSwapchainKHR"));
    assert_eq!(*calls.borrow(), 0);
}
