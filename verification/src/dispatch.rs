use vstd::prelude::*;
use vstd::pervasive::unreached;
use crate::command::Command;
use crate::core_commands::{
    device_command_list, device_command_names, device_commands, global_command_list,
    global_command_names, global_commands, instance_command_list, instance_command_names,
    instance_commands,
};
use crate::entry::VulkanEntry;
use crate::error::LoadError;
use crate::handles::{VkDevice, VkInstance, NO_INSTANCE};
use crate::pointer::FunctionPointer;
use crate::loading::{all_callable, load_outcome};
use crate::resolve::{ProcAddrCall, ResolutionContext};
use crate::table::DispatchTable;

verus! {

/// Where the device resolver stands among the commands of the instance table.
pub const DEVICE_RESOLVER_INDEX: usize = 8;

/// The context in which the global table of an entry point is resolved.
pub open spec fn global_context<L>(vulkan_entry: &VulkanEntry<L>) -> ResolutionContext {
    ResolutionContext { bootstrap: Some(vulkan_entry.spec_bootstrap()), instance: None, device: None }
}

/// The context in which the tables of an instance are resolved.
pub open spec fn instance_context<L>(vulkan_entry: &VulkanEntry<L>, instance: VkInstance) -> ResolutionContext {
    ResolutionContext {
        bootstrap: Some(vulkan_entry.spec_bootstrap()),
        instance: Some(instance),
        device: None,
    }
}

/// The context in which the core table of a device is resolved.
pub open spec fn device_context(instance_table: &InstanceDispatchTable, device: VkDevice) -> ResolutionContext {
    ResolutionContext {
        bootstrap: None,
        instance: None,
        device: Some((instance_table.spec_device_resolver(), device)),
    }
}

/// The context in which the table of a device extension is resolved.
pub open spec fn device_extension_context<L>(
    vulkan_entry: &VulkanEntry<L>,
    instance: VkInstance,
    instance_table: &InstanceDispatchTable,
    device: VkDevice,
) -> ResolutionContext {
    ResolutionContext {
        bootstrap: Some(vulkan_entry.spec_bootstrap()),
        instance: Some(instance),
        device: Some((instance_table.spec_device_resolver(), device)),
    }
}

/// The commands that need no instance, resolved.
#[derive(Debug)]
pub struct GlobalDispatchTable {
    table: DispatchTable,
}

/// The commands of one instance, resolved.
#[derive(Debug)]
pub struct InstanceDispatchTable {
    table: DispatchTable,
}

/// The commands of one device, resolved.
#[derive(Debug)]
pub struct DeviceDispatchTable {
    table: DispatchTable,
}

impl GlobalDispatchTable {
    #[verifier::type_invariant]
    spec fn holds_its_commands(self) -> bool {
        self.table.commands() == global_commands()
    }

    pub closed spec fn spec_table(&self) -> &DispatchTable {
        &self.table
    }

    /// What `new` may give: see `load_outcome`.
    pub open spec fn outcome<L, F: Fn(ProcAddrCall) -> usize>(
        vulkan_entry: &VulkanEntry<L>,
        native: &F,
        loaded: Result<GlobalDispatchTable, LoadError>,
    ) -> bool {
        load_outcome(
            native,
            global_context(vulkan_entry),
            global_commands(),
            match loaded {
                Ok(table) => Ok(*table.spec_table()),
                Err(error) => Err(error),
            },
        )
    }

    /// Resolves the global commands, each by the bootstrap resolver and
    /// without an instance.
    pub fn new<L, F: Fn(ProcAddrCall) -> usize>(vulkan_entry: &VulkanEntry<L>, native: &F) -> (loaded: Result<
        GlobalDispatchTable,
        LoadError,
    >)
        requires
            all_callable(native, global_context(vulkan_entry), global_commands()),
        ensures
            GlobalDispatchTable::outcome(vulkan_entry, native, loaded),
    {
        let context = ResolutionContext::global(vulkan_entry.bootstrap());
        match DispatchTable::load(&context, global_command_list(), native) {
            Ok(table) => Ok(GlobalDispatchTable { table }),
            Err(error) => Err(error),
        }
    }

    #[verifier::when_used_as_spec(spec_table)]
    pub fn table(&self) -> (table: &DispatchTable)
        ensures
            table == self.spec_table(),
            table.commands() == global_commands(),
    {
        proof {
            use_type_invariant(self);
        }
        &self.table
    }
}

impl InstanceDispatchTable {
    #[verifier::type_invariant]
    spec fn holds_its_commands(self) -> bool {
        self.table.commands() == instance_commands()
    }

    pub closed spec fn spec_table(&self) -> &DispatchTable {
        &self.table
    }

    /// The address of the device resolver, which is one of the instance's commands.
    pub open spec fn spec_device_resolver(&self) -> FunctionPointer {
        self.spec_table().pointers()[DEVICE_RESOLVER_INDEX as int]
    }

    /// What `new` may give: see `load_outcome`.
    pub open spec fn outcome<L, F: Fn(ProcAddrCall) -> usize>(
        vulkan_entry: &VulkanEntry<L>,
        instance: VkInstance,
        native: &F,
        loaded: Result<InstanceDispatchTable, LoadError>,
    ) -> bool {
        load_outcome(
            native,
            instance_context(vulkan_entry, instance),
            instance_commands(),
            match loaded {
                Ok(table) => Ok(*table.spec_table()),
                Err(error) => Err(error),
            },
        )
    }

    /// Resolves the instance's commands, each by the bootstrap resolver on
    /// behalf of `instance`.
    pub fn new<L, F: Fn(ProcAddrCall) -> usize>(
        vulkan_entry: &VulkanEntry<L>,
        instance: VkInstance,
        native: &F,
    ) -> (loaded: Result<InstanceDispatchTable, LoadError>)
        requires
            all_callable(native, instance_context(vulkan_entry, instance), instance_commands()),
        ensures
            InstanceDispatchTable::outcome(vulkan_entry, instance, native, loaded),
    {
        let context = ResolutionContext::instance(vulkan_entry.bootstrap(), instance);
        match DispatchTable::load(&context, instance_command_list(), native) {
            Ok(table) => Ok(InstanceDispatchTable { table }),
            Err(error) => Err(error),
        }
    }

    #[verifier::when_used_as_spec(spec_table)]
    pub fn table(&self) -> (table: &DispatchTable)
        ensures
            table == self.spec_table(),
            table.commands() == instance_commands(),
    {
        proof {
            use_type_invariant(self);
        }
        &self.table
    }

    #[verifier::when_used_as_spec(spec_device_resolver)]
    pub fn device_resolver(&self) -> (pointer: FunctionPointer)
        ensures
            pointer == self.spec_device_resolver(),
            self.spec_table().commands()[DEVICE_RESOLVER_INDEX as int] == Command::instance(
                "vkGetDeviceProcAddr",
            ),
            self.spec_table().commands() == instance_commands(),
            pointer@ != 0,
    {
        proof {
            use_type_invariant(self);
        }
        let _ = self.table.len();
        match self.table.get(DEVICE_RESOLVER_INDEX) {
            Some(pointer) => pointer,
            None => unreached(),
        }
    }

    /// Asks the device resolver for `name` on behalf of `device`: one call of
    /// `native`, nothing cached, and `None` where it answers the null address.
    pub fn vkGetDeviceProcAddr<F: Fn(ProcAddrCall) -> usize>(
        &self,
        device: VkDevice,
        name: &'static str,
        native: &F,
    ) -> (found: Option<FunctionPointer>)
        requires
            call_requires(
                native,
                (ProcAddrCall { resolver: self.spec_device_resolver(), handle: device, name },),
            ),
        ensures
            found matches Some(pointer) ==> pointer@ != 0 && call_ensures(
                native,
                (ProcAddrCall { resolver: self.spec_device_resolver(), handle: device, name },),
                pointer@,
            ),
            found is None ==> call_ensures(
                native,
                (ProcAddrCall { resolver: self.spec_device_resolver(), handle: device, name },),
                0usize,
            ),
    {
        let call = ProcAddrCall { resolver: self.device_resolver(), handle: device, name };
        FunctionPointer::from_address(native(call))
    }
}

impl DeviceDispatchTable {
    #[verifier::type_invariant]
    spec fn holds_its_commands(self) -> bool {
        self.table.commands() == device_commands()
    }

    pub closed spec fn spec_table(&self) -> &DispatchTable {
        &self.table
    }

    /// What `new` may give: see `load_outcome`.
    pub open spec fn outcome<F: Fn(ProcAddrCall) -> usize>(
        instance_table: &InstanceDispatchTable,
        device: VkDevice,
        native: &F,
        loaded: Result<DeviceDispatchTable, LoadError>,
    ) -> bool {
        load_outcome(
            native,
            device_context(instance_table, device),
            device_commands(),
            match loaded {
                Ok(table) => Ok(*table.spec_table()),
                Err(error) => Err(error),
            },
        )
    }

    /// Resolves the device's commands, each by the device resolver of the
    /// instance table on behalf of `device`.
    pub fn new<F: Fn(ProcAddrCall) -> usize>(
        instance_table: &InstanceDispatchTable,
        device: VkDevice,
        native: &F,
    ) -> (loaded: Result<DeviceDispatchTable, LoadError>)
        requires
            all_callable(native, device_context(instance_table, device), device_commands()),
        ensures
            DeviceDispatchTable::outcome(instance_table, device, native, loaded),
    {
        let context = ResolutionContext::device(instance_table.device_resolver(), device);
        match DispatchTable::load(&context, device_command_list(), native) {
            Ok(table) => Ok(DeviceDispatchTable { table }),
            Err(error) => Err(error),
        }
    }

    #[verifier::when_used_as_spec(spec_table)]
    pub fn table(&self) -> (table: &DispatchTable)
        ensures
            table == self.spec_table(),
            table.commands() == device_commands(),
    {
        proof {
            use_type_invariant(self);
        }
        &self.table
    }
}

/// Each command of the global table is asked of the bootstrap resolver,
/// without an instance.
pub proof fn lemma_global_table_asks_bootstrap<L>(vulkan_entry: &VulkanEntry<L>, index: int)
    requires
        0 <= index < global_commands().len(),
    ensures
        global_context(vulkan_entry).call_for(global_commands()[index]) == Some(
            ProcAddrCall {
                resolver: vulkan_entry.spec_bootstrap(),
                handle: NO_INSTANCE,
                name: global_command_names()[index],
            },
        ),
{
}

/// Each command of the instance table is asked of the bootstrap resolver,
/// on behalf of the instance.
pub proof fn lemma_instance_table_asks_bootstrap<L>(
    vulkan_entry: &VulkanEntry<L>,
    instance: VkInstance,
    index: int,
)
    requires
        0 <= index < instance_commands().len(),
    ensures
        instance_context(vulkan_entry, instance).call_for(instance_commands()[index]) == Some(
            ProcAddrCall {
                resolver: vulkan_entry.spec_bootstrap(),
                handle: instance,
                name: instance_command_names()[index],
            },
        ),
{
}

/// Each command of the device table is asked of the device resolver that
/// the instance table holds, on behalf of the device: never of the bootstrap
/// resolver.
pub proof fn lemma_device_table_asks_device_resolver(
    instance_table: &InstanceDispatchTable,
    device: VkDevice,
    index: int,
)
    requires
        0 <= index < device_commands().len(),
    ensures
        device_context(instance_table, device).call_for(device_commands()[index]) == Some(
            ProcAddrCall {
                resolver: instance_table.spec_device_resolver(),
                handle: device,
                name: device_command_names()[index],
            },
        ),
{
}

/// The tier of a command shows in the call that resolves it: where the two
/// resolvers of a context differ, a command asked for in the instance tier
/// and the same command asked for in the device tier give different calls.
pub proof fn lemma_tiers_give_different_calls(context: ResolutionContext, name: &'static str)
    requires
        context.bootstrap matches Some(bootstrap) && context.device matches Some((resolver, _))
            && bootstrap != resolver,
        context.instance is Some,
    ensures
        context.call_for(Command::instance(name)) is Some,
        context.call_for(Command::device(name)) is Some,
        context.call_for(Command::instance(name)) != context.call_for(Command::device(name)),
{
}

} // verus!
