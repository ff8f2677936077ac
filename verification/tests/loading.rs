use std::cell::RefCell;

use vulkan::command::{Command, Tier};
use vulkan::core_commands::{device_command_list, global_command_list, instance_command_list};
use vulkan::dispatch::{
    DeviceDispatchTable, GlobalDispatchTable, InstanceDispatchTable, DEVICE_RESOLVER_INDEX,
};
use vulkan::entry::VulkanEntry;
use vulkan::error::LoadError;
use vulkan::pointer::FunctionPointer;
use vulkan::resolve::{found_or_fail, resolve, resolve_or_fail, ProcAddrCall, ResolutionContext};
use vulkan::table::DispatchTable;

const BOOTSTRAP: usize = 0xB007_0000;
const DEVICE_RESOLVER: usize = 0xD000_0000;

/// Stands for an open library in tests that load nothing.
#[derive(Debug, PartialEq)]
struct FakeLibrary(u32);

/// The address that the fake native library gives to a name.
fn fake_address(name: &str) -> usize {
    if name == "vkGetDeviceProcAddr" {
        DEVICE_RESOLVER
    } else {
        let mut sum: usize = 0x1000;
        for byte in name.bytes() {
            sum = sum * 31 + byte as usize;
            sum %= 0x0FFF_FFFF;
        }
        sum + 1
    }
}

fn pointer(address: usize) -> FunctionPointer {
    FunctionPointer::from_address(address).unwrap()
}

fn fake_entry() -> VulkanEntry<FakeLibrary> {
    let opened: Result<FakeLibrary, ()> = Ok(FakeLibrary(7));
    VulkanEntry::open(opened, |_library: &FakeLibrary, _name: &'static str| BOOTSTRAP).unwrap()
}

#[test]
fn pointer_refuses_the_null_address() {
    assert_eq!(FunctionPointer::from_address(0), None);
    let found = FunctionPointer::from_address(0x1234).unwrap();
    assert_eq!(found.address(), 0x1234);
    assert_eq!(FunctionPointer::from_address(usize::MAX).unwrap().address(), usize::MAX);
}

#[test]
fn found_or_fail_names_the_symbol() {
    assert_eq!(found_or_fail("vkCmdDraw", 0), Err(LoadError::SymbolNotFound("vkCmdDraw")));
    assert_eq!(found_or_fail("vkCmdDraw", 0x40).unwrap().address(), 0x40);
}

#[test]
fn error_messages() {
    assert_eq!(LoadError::LibraryNotFound.message(), "Failed to open Vulkan loader");
    assert_eq!(
        LoadError::SymbolNotFound("vkCreateDevice").message(),
        "Could not load vkCreateDevice"
    );
    assert_eq!(LoadError::SymbolNotFound("").message(), "Could not load ");
}

#[test]
fn open_fails_with_library_not_found_when_the_library_did_not_open() {
    let asked = RefCell::new(0u32);
    let opened: Result<FakeLibrary, &str> = Err("no such file");
    let entry = VulkanEntry::open(opened, |_library: &FakeLibrary, _name: &'static str| {
        *asked.borrow_mut() += 1;
        BOOTSTRAP
    });
    assert!(matches!(entry, Err(LoadError::LibraryNotFound)));
    assert_eq!(*asked.borrow(), 0);
}

#[test]
fn open_looks_up_the_bootstrap_symbol_once() {
    let asked = RefCell::new(Vec::new());
    let opened: Result<FakeLibrary, ()> = Ok(FakeLibrary(3));
    let entry = VulkanEntry::open(opened, |library: &FakeLibrary, name: &'static str| {
        asked.borrow_mut().push((library.0, name));
        BOOTSTRAP
    })
    .unwrap();
    assert_eq!(*asked.borrow(), vec![(3, "vkGetInstanceProcAddr")]);
    assert_eq!(entry.bootstrap().address(), BOOTSTRAP);
    assert_eq!(entry.library(), &FakeLibrary(3));
}

#[test]
fn open_fails_when_the_bootstrap_symbol_is_absent() {
    let opened: Result<FakeLibrary, ()> = Ok(FakeLibrary(3));
    let entry = VulkanEntry::open(opened, |_library: &FakeLibrary, _name: &'static str| 0);
    assert!(matches!(entry, Err(LoadError::SymbolNotFound("vkGetInstanceProcAddr"))));
}

#[test]
fn new_fails_with_library_not_found_for_a_path_that_is_no_library() {
    let asked = RefCell::new(0u32);
    let entry = VulkanEntry::new(
        "/nonexistent/directory/libvulkan-that-is-not-there.so.1",
        |_library: &libloading::Library, _name: &'static str| {
            *asked.borrow_mut() += 1;
            BOOTSTRAP
        },
    );
    assert!(matches!(entry, Err(LoadError::LibraryNotFound)));
    assert_eq!(*asked.borrow(), 0);
}

#[test]
fn new_fails_with_library_not_found_for_a_path_with_a_nul() {
    let entry = VulkanEntry::new(
        "lib\0vulkan.so",
        |_library: &libloading::Library, _name: &'static str| BOOTSTRAP,
    );
    assert!(matches!(entry, Err(LoadError::LibraryNotFound)));
}

#[test]
fn entry_passes_the_question_through() {
    let entry = fake_entry();
    let log = RefCell::new(Vec::new());
    let native = |call: ProcAddrCall| {
        log.borrow_mut().push(call);
        if call.name == "vkCreateInstance" { 0x77 } else { 0 }
    };
    let found = entry.vkGetInstanceProcAddr(0, "vkCreateInstance", &native);
    assert_eq!(found.unwrap().address(), 0x77);
    let missing = entry.vkGetInstanceProcAddr(5, "vkNoSuchCommand", &native);
    assert_eq!(missing, None);
    let again = entry.vkGetInstanceProcAddr(0, "vkCreateInstance", &native);
    assert_eq!(again.unwrap().address(), 0x77);
    assert_eq!(
        *log.borrow(),
        vec![
            ProcAddrCall { resolver: pointer(BOOTSTRAP), handle: 0, name: "vkCreateInstance" },
            ProcAddrCall { resolver: pointer(BOOTSTRAP), handle: 5, name: "vkNoSuchCommand" },
            ProcAddrCall { resolver: pointer(BOOTSTRAP), handle: 0, name: "vkCreateInstance" },
        ]
    );
}

#[test]
fn request_follows_the_tier() {
    let context = ResolutionContext::device_extension(
        pointer(BOOTSTRAP),
        0x11,
        pointer(DEVICE_RESOLVER),
        0x22,
    );
    assert_eq!(
        context.request(&Command::global("vkA")),
        Some(ProcAddrCall { resolver: pointer(BOOTSTRAP), handle: 0, name: "vkA" })
    );
    assert_eq!(
        context.request(&Command::instance("vkA")),
        Some(ProcAddrCall { resolver: pointer(BOOTSTRAP), handle: 0x11, name: "vkA" })
    );
    assert_eq!(
        context.request(&Command::device("vkA")),
        Some(ProcAddrCall { resolver: pointer(DEVICE_RESOLVER), handle: 0x22, name: "vkA" })
    );
}

#[test]
fn request_needs_what_the_tier_needs() {
    let global = ResolutionContext::global(pointer(BOOTSTRAP));
    assert!(global.request(&Command::global("vkA")).is_some());
    assert_eq!(global.request(&Command::instance("vkA")), None);
    assert_eq!(global.request(&Command::device("vkA")), None);

    let instance = ResolutionContext::instance(pointer(BOOTSTRAP), 9);
    assert!(instance.request(&Command::global("vkA")).is_some());
    assert!(instance.request(&Command::instance("vkA")).is_some());
    assert_eq!(instance.request(&Command::device("vkA")), None);

    let device = ResolutionContext::device(pointer(DEVICE_RESOLVER), 4);
    assert_eq!(device.request(&Command::global("vkA")), None);
    assert_eq!(device.request(&Command::instance("vkA")), None);
    assert_eq!(
        device.request(&Command::device("vkA")),
        Some(ProcAddrCall { resolver: pointer(DEVICE_RESOLVER), handle: 4, name: "vkA" })
    );
}

#[test]
fn resolve_asks_native_once_and_reports_absence() {
    let context = ResolutionContext::instance(pointer(BOOTSTRAP), 9);
    let calls = RefCell::new(0u32);
    let native = |call: ProcAddrCall| {
        *calls.borrow_mut() += 1;
        if call.name == "vkPresent" { 0xABC } else { 0 }
    };
    assert_eq!(resolve(&context, &Command::instance("vkPresent"), &native), Some(pointer(0xABC)));
    assert_eq!(resolve(&context, &Command::instance("vkAbsent"), &native), None);
    assert_eq!(*calls.borrow(), 2);
    // The context has no device: nothing is asked, and the command counts as absent.
    assert_eq!(resolve(&context, &Command::device("vkPresent"), &native), None);
    assert_eq!(*calls.borrow(), 2);
    assert_eq!(
        resolve_or_fail(&context, &Command::instance("vkAbsent"), &native),
        Err(LoadError::SymbolNotFound("vkAbsent"))
    );
    assert_eq!(
        resolve_or_fail(&context, &Command::device("vkPresent"), &native),
        Err(LoadError::SymbolNotFound("vkPresent"))
    );
    assert_eq!(
        resolve_or_fail(&context, &Command::instance("vkPresent"), &native),
        Ok(pointer(0xABC))
    );
}

#[test]
fn load_resolves_every_command_in_order() {
    let context = ResolutionContext::instance(pointer(BOOTSTRAP), 0x51);
    let commands = vec![
        Command::global("vkFirst"),
        Command::instance("vkSecond"),
        Command::instance("vkThird"),
    ];
    let log = RefCell::new(Vec::new());
    let native = |call: ProcAddrCall| {
        log.borrow_mut().push((call.handle, call.name));
        fake_address(call.name)
    };
    let table = DispatchTable::load(&context, commands.clone(), &native).unwrap();
    assert_eq!(table.len(), 3);
    for (index, command) in commands.iter().enumerate() {
        assert_eq!(table.command(index), Some(*command));
        assert_eq!(table.get(index).unwrap().address(), fake_address(command.name));
    }
    assert_eq!(table.get(3), None);
    assert_eq!(table.command(3), None);
    assert_eq!(*log.borrow(), vec![(0, "vkFirst"), (0x51, "vkSecond"), (0x51, "vkThird")]);
}

#[test]
fn load_fails_with_the_first_missing_name_and_asks_no_further() {
    let context = ResolutionContext::global(pointer(BOOTSTRAP));
    let commands = vec![
        Command::global("vkA"),
        Command::global("vkB"),
        Command::global("vkC"),
        Command::global("vkD"),
    ];
    let log = RefCell::new(Vec::new());
    let native = |call: ProcAddrCall| {
        log.borrow_mut().push(call.name);
        if call.name == "vkB" || call.name == "vkD" { 0 } else { 0x10 }
    };
    let loaded = DispatchTable::load(&context, commands, &native);
    assert_eq!(loaded.unwrap_err(), LoadError::SymbolNotFound("vkB"));
    assert_eq!(*log.borrow(), vec!["vkA", "vkB"]);
}

#[test]
fn load_counts_a_command_that_the_context_cannot_ask_for_as_missing() {
    let context = ResolutionContext::instance(pointer(BOOTSTRAP), 1);
    let commands = vec![Command::instance("vkA"), Command::device("vkB"), Command::instance("vkC")];
    let log = RefCell::new(Vec::new());
    let native = |call: ProcAddrCall| {
        log.borrow_mut().push(call.name);
        0x10
    };
    let loaded = DispatchTable::load(&context, commands, &native);
    assert_eq!(loaded.unwrap_err(), LoadError::SymbolNotFound("vkB"));
    assert_eq!(*log.borrow(), vec!["vkA"]);
}

#[test]
fn an_empty_list_loads_in_any_context() {
    let nothing = ResolutionContext { bootstrap: None, instance: None, device: None };
    let calls = RefCell::new(0u32);
    let native = |_call: ProcAddrCall| {
        *calls.borrow_mut() += 1;
        0
    };
    let table = DispatchTable::load(&nothing, Vec::new(), &native).unwrap();
    assert_eq!(table.len(), 0);
    assert_eq!(table.get(0), None);
    assert_eq!(*calls.borrow(), 0);
}

#[test]
fn loading_twice_gives_equal_tables() {
    let context = ResolutionContext::instance(pointer(BOOTSTRAP), 0x51);
    let native = |call: ProcAddrCall| fake_address(call.name);
    let first = DispatchTable::load(&context, instance_command_list(), &native).unwrap();
    let second = DispatchTable::load(&context, instance_command_list(), &native).unwrap();
    assert_eq!(first.len(), second.len());
    for index in 0..first.len() {
        assert_eq!(first.get(index), second.get(index));
        assert_eq!(first.command(index), second.command(index));
    }
    let failing = |call: ProcAddrCall| if call.name == "vkCreateDevice" { 0 } else { 1 };
    let third = DispatchTable::load(&context, instance_command_list(), &failing).unwrap_err();
    let fourth = DispatchTable::load(&context, instance_command_list(), &failing).unwrap_err();
    assert_eq!(third, fourth);
}

#[test]
fn core_command_lists() {
    let global = global_command_list();
    assert_eq!(
        global,
        vec![
            Command { tier: Tier::Global, name: "vkCreateInstance" },
            Command { tier: Tier::Global, name: "vkEnumerateInstanceExtensionProperties" },
            Command { tier: Tier::Global, name: "vkEnumerateInstanceLayerProperties" },
        ]
    );
    let instance = instance_command_list();
    assert_eq!(instance.len(), 13);
    assert!(instance.iter().all(|command| command.tier == Tier::Instance));
    assert_eq!(instance[0].name, "vkDestroyInstance");
    assert_eq!(instance[DEVICE_RESOLVER_INDEX].name, "vkGetDeviceProcAddr");
    assert_eq!(instance[9].name, "vkCreateDevice");
    assert_eq!(instance[12].name, "vkGetPhysicalDeviceSparseImageFormatProperties");
    let device = device_command_list();
    assert_eq!(device.len(), 120);
    assert!(device.iter().all(|command| command.tier == Tier::Device));
    assert_eq!(device[0].name, "vkDestroyDevice");
    assert_eq!(device[119].name, "vkCmdExecuteCommands");
}

#[test]
fn context_table_fails_when_create_device_is_missing() {
    let entry = fake_entry();
    let log = RefCell::new(Vec::new());
    let native = |call: ProcAddrCall| {
        log.borrow_mut().push(call.name);
        if call.name == "vkCreateDevice" { 0 } else { fake_address(call.name) }
    };
    let loaded = InstanceDispatchTable::new(&entry, 0x1257, &native);
    match loaded {
        Ok(_) => panic!("a table was made although a command is missing"),
        Err(error) => {
            assert_eq!(error, LoadError::SymbolNotFound("vkCreateDevice"));
            assert_eq!(error.message(), "Could not load vkCreateDevice");
        }
    }
    // Nothing was asked after the missing command.
    assert_eq!(log.borrow().len(), 10);
    assert_eq!(log.borrow().last(), Some(&"vkCreateDevice"));
}

#[test]
fn tables_load_in_sequence_each_through_its_own_resolver() {
    let entry = fake_entry();
    let log = RefCell::new(Vec::new());
    let native = |call: ProcAddrCall| {
        log.borrow_mut().push(call);
        fake_address(call.name)
    };
    let instance: usize = 0x1257;
    let device: usize = 0xDE71;

    let global = GlobalDispatchTable::new(&entry, &native).unwrap();
    let after_global = log.borrow().len();
    let instance_table = InstanceDispatchTable::new(&entry, instance, &native).unwrap();
    let after_instance = log.borrow().len();
    let device_table = DeviceDispatchTable::new(&instance_table, device, &native).unwrap();
    let log = log.into_inner();

    assert_eq!(after_global, 3);
    assert_eq!(after_instance, 3 + 13);
    assert_eq!(log.len(), 3 + 13 + 120);

    for (index, command) in global_command_list().iter().enumerate() {
        assert_eq!(
            log[index],
            ProcAddrCall { resolver: pointer(BOOTSTRAP), handle: 0, name: command.name }
        );
        assert_eq!(global.table().get(index).unwrap().address(), fake_address(command.name));
    }
    for (index, command) in instance_command_list().iter().enumerate() {
        assert_eq!(
            log[3 + index],
            ProcAddrCall { resolver: pointer(BOOTSTRAP), handle: instance, name: command.name }
        );
        assert_eq!(
            instance_table.table().get(index).unwrap().address(),
            fake_address(command.name)
        );
    }
    assert_eq!(instance_table.device_resolver().address(), DEVICE_RESOLVER);
    for (index, command) in device_command_list().iter().enumerate() {
        assert_eq!(
            log[16 + index],
            ProcAddrCall { resolver: pointer(DEVICE_RESOLVER), handle: device, name: command.name }
        );
        assert_eq!(device_table.table().get(index).unwrap().address(), fake_address(command.name));
    }
    assert_eq!(global.table().len(), 3);
    assert_eq!(instance_table.table().len(), 13);
    assert_eq!(device_table.table().len(), 120);
}

#[test]
fn device_table_fails_with_the_first_missing_device_command() {
    let entry = fake_entry();
    let native = |call: ProcAddrCall| {
        if call.name == "vkQueueSubmit" || call.name == "vkCmdDraw" {
            0
        } else {
            fake_address(call.name)
        }
    };
    let instance_table = InstanceDispatchTable::new(&entry, 1, &native).unwrap();
    let loaded = DeviceDispatchTable::new(&instance_table, 2, &native);
    assert_eq!(loaded.unwrap_err(), LoadError::SymbolNotFound("vkQueueSubmit"));
}

#[test]
fn global_table_fails_with_the_first_missing_global_command() {
    let entry = fake_entry();
    let native = |_call: ProcAddrCall| 0;
    let loaded = GlobalDispatchTable::new(&entry, &native);
    assert_eq!(loaded.unwrap_err(), LoadError::SymbolNotFound("vkCreateInstance"));
}

#[test]
fn instance_table_asks_the_device_resolver_on_behalf_of_a_device() {
    let entry = fake_entry();
    let log = RefCell::new(Vec::new());
    let native = |call: ProcAddrCall| {
        log.borrow_mut().push(call);
        if call.name == "vkNoSuchCommand" { 0 } else { fake_address(call.name) }
    };
    let instance_table = InstanceDispatchTable::new(&entry, 1, &native).unwrap();
    log.borrow_mut().clear();
    let found = instance_table.vkGetDeviceProcAddr(0x33, "vkCmdDraw", &native);
    assert_eq!(found.unwrap().address(), fake_address("vkCmdDraw"));
    assert_eq!(instance_table.vkGetDeviceProcAddr(0x33, "vkNoSuchCommand", &native), None);
    assert_eq!(
        *log.borrow(),
        vec![
            ProcAddrCall { resolver: pointer(DEVICE_RESOLVER), handle: 0x33, name: "vkCmdDraw" },
            ProcAddrCall {
                resolver: pointer(DEVICE_RESOLVER),
                handle: 0x33,
                name: "vkNoSuchCommand"
            },
        ]
    );
}

#[test]
fn with_bootstrap_takes_any_address_but_null() {
    let entry = VulkanEntry::with_bootstrap(FakeLibrary(1), 0x5000).unwrap();
    assert_eq!(entry.bootstrap().address(), 0x5000);
    assert_eq!(entry.library(), &FakeLibrary(1));
    let missing = VulkanEntry::with_bootstrap(FakeLibrary(1), 0);
    assert!(matches!(missing, Err(LoadError::SymbolNotFound("vkGetInstanceProcAddr"))));
}

#[test]
fn new_opens_a_library_that_is_there() {
    // The C library of the platform, under the names it has on the common ones.
    let candidates = ["libc.so.6", "libc.so", "libSystem.B.dylib", "kernel32.dll"];
    let mut opened = 0;
    for path in candidates {
        let asked = RefCell::new(Vec::new());
        let entry = VulkanEntry::new(path, |_library: &libloading::Library, name: &'static str| {
            asked.borrow_mut().push(name);
            BOOTSTRAP
        });
        match entry {
            Ok(entry) => {
                opened += 1;
                assert_eq!(entry.bootstrap().address(), BOOTSTRAP);
                assert_eq!(*asked.borrow(), vec!["vkGetInstanceProcAddr"]);
            }
            Err(error) => {
                assert_eq!(error, LoadError::LibraryNotFound);
                assert!(asked.borrow().is_empty());
            }
        }
    }
    assert!(opened >= 1);
}

#[test]
fn new_fails_when_the_open_library_lacks_the_bootstrap_symbol() {
    let candidates = ["libc.so.6", "libc.so", "libSystem.B.dylib", "kernel32.dll"];
    let mut opened = 0;
    for path in candidates {
        let entry = VulkanEntry::new(path, |_library: &libloading::Library, _name: &'static str| 0);
        match entry {
            Ok(_) => panic!("an entry point was made without its bootstrap resolver"),
            Err(LoadError::SymbolNotFound(name)) => {
                opened += 1;
                assert_eq!(name, "vkGetInstanceProcAddr");
            }
            Err(LoadError::LibraryNotFound) => {}
        }
    }
    assert!(opened >= 1);
}
