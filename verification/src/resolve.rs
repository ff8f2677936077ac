use vstd::prelude::*;
use crate::command::{Command, Tier};
use crate::error::LoadError;
use crate::handles::{VkDevice, VkInstance, NO_INSTANCE};
use crate::pointer::FunctionPointer;

verus! {

/// One question to a native resolver: call the function at `resolver` with a
/// handle and a command's name, and it answers with the command's address, or
/// with the null address if it does not know the name.
///
/// Both native resolvers, the library's bootstrap symbol and the instance
/// table's device resolver, take these two arguments.
#[derive(Clone, Copy, Debug, PartialEq, Eq, Hash)]
pub struct ProcAddrCall {
    pub resolver: FunctionPointer,
    pub handle: usize,
    pub name: &'static str,
}

/// What is at hand to resolve commands with: the entry point's bootstrap
/// resolver, an instance, and a device together with the device resolver of
/// the instance table that the device was made with. Each part may be missing.
#[derive(Clone, Copy, Debug, PartialEq, Eq, Hash)]
pub struct ResolutionContext {
    pub bootstrap: Option<FunctionPointer>,
    pub instance: Option<VkInstance>,
    pub device: Option<(FunctionPointer, VkDevice)>,
}

impl ResolutionContext {
    /// The call that resolves `command` in this context, if the context holds
    /// what the command's tier needs.
    pub open spec fn call_for(self, command: Command) -> Option<ProcAddrCall> {
        match command.tier {
            Tier::Global => match self.bootstrap {
                Some(bootstrap) => Some(
                    ProcAddrCall { resolver: bootstrap, handle: NO_INSTANCE, name: command.name },
                ),
                None => None,
            },
            Tier::Instance => match (self.bootstrap, self.instance) {
                (Some(bootstrap), Some(instance)) => Some(
                    ProcAddrCall { resolver: bootstrap, handle: instance, name: command.name },
                ),
                _ => None,
            },
            Tier::Device => match self.device {
                Some((resolver, device)) => Some(
                    ProcAddrCall { resolver, handle: device, name: command.name },
                ),
                None => None,
            },
        }
    }

    /// The context of the global table: only the bootstrap resolver.
    pub fn global(bootstrap: FunctionPointer) -> (context: ResolutionContext)
        ensures
            context == (ResolutionContext { bootstrap: Some(bootstrap), instance: None, device: None }),
    {
        ResolutionContext { bootstrap: Some(bootstrap), instance: None, device: None }
    }

    /// The context of an instance's tables.
    pub fn instance(bootstrap: FunctionPointer, instance: VkInstance) -> (context: ResolutionContext)
        ensures
            context == (ResolutionContext {
                bootstrap: Some(bootstrap),
                instance: Some(instance),
                device: None,
            }),
    {
        ResolutionContext { bootstrap: Some(bootstrap), instance: Some(instance), device: None }
    }

    /// The context of a device's core table: only the device resolver and the device.
    pub fn device(device_resolver: FunctionPointer, device: VkDevice) -> (context: ResolutionContext)
        ensures
            context == (ResolutionContext {
                bootstrap: None,
                instance: None,
                device: Some((device_resolver, device)),
            }),
    {
        ResolutionContext { bootstrap: None, instance: None, device: Some((device_resolver, device)) }
    }

    /// The context of a device extension's table, whose commands may be of any tier.
    pub fn device_extension(
        bootstrap: FunctionPointer,
        instance: VkInstance,
        device_resolver: FunctionPointer,
        device: VkDevice,
    ) -> (context: ResolutionContext)
        ensures
            context == (ResolutionContext {
                bootstrap: Some(bootstrap),
                instance: Some(instance),
                device: Some((device_resolver, device)),
            }),
    {
        ResolutionContext {
            bootstrap: Some(bootstrap),
            instance: Some(instance),
            device: Some((device_resolver, device)),
        }
    }

    /// Computes the call that resolves `command`.
    pub fn request(&self, command: &Command) -> (call: Option<ProcAddrCall>)
        ensures
            call == self.call_for(*command),
    {
        match command.tier {
            Tier::Global => match self.bootstrap {
                Some(bootstrap) => Some(
                    ProcAddrCall { resolver: bootstrap, handle: NO_INSTANCE, name: command.name },
                ),
                None => None,
            },
            Tier::Instance => match self.bootstrap {
                Some(bootstrap) => match self.instance {
                    Some(instance) => Some(
                        ProcAddrCall { resolver: bootstrap, handle: instance, name: command.name },
                    ),
                    None => None,
                },
                None => None,
            },
            Tier::Device => match self.device {
                Some((resolver, device)) => Some(
                    ProcAddrCall { resolver, handle: device, name: command.name },
                ),
                None => None,
            },
        }
    }
}

/// `native` may be asked for `command` in `context`: where the context yields
/// a call, `native` accepts it.
pub open spec fn callable<F: Fn(ProcAddrCall) -> usize>(
    native: &F,
    context: ResolutionContext,
    command: Command,
) -> bool {
    context.call_for(command) matches Some(call) ==> call_requires(native, (call,))
}

/// `address` is a possible outcome of resolving `command` in `context`:
/// an answer that `native` may give to the command's call or, where the
/// context cannot make that call, the null address.
pub open spec fn may_answer<F: Fn(ProcAddrCall) -> usize>(
    native: &F,
    context: ResolutionContext,
    command: Command,
    address: usize,
) -> bool {
    match context.call_for(command) {
        Some(call) => call_ensures(native, (call,), address),
        None => address == 0,
    }
}

/// Turns an address that a resolver answered for `name` into a pointer, or
/// into the failure that names the symbol.
pub fn found_or_fail(name: &'static str, address: usize) -> (found: Result<FunctionPointer, LoadError>)
    ensures
        address != 0 ==> (found matches Ok(pointer) && pointer@ == address),
        address == 0 ==> found == Err::<FunctionPointer, LoadError>(LoadError::SymbolNotFound(name)),
{
    match FunctionPointer::from_address(address) {
        Some(pointer) => Ok(pointer),
        None => Err(LoadError::SymbolNotFound(name)),
    }
}

/// Resolves one command: asks `native` once, with the call that the context
/// yields for the command's tier, and caches nothing.
pub fn resolve<F: Fn(ProcAddrCall) -> usize>(
    context: &ResolutionContext,
    command: &Command,
    native: &F,
) -> (found: Option<FunctionPointer>)
    requires
        callable(native, *context, *command),
    ensures
        found matches Some(pointer) ==> pointer@ != 0 && may_answer(native, *context, *command, pointer@),
        found is None ==> may_answer(native, *context, *command, 0),
{
    match context.request(command) {
        Some(call) => FunctionPointer::from_address(native(call)),
        None => None,
    }
}

/// Resolves one command that a table requires: absence is a failure that
/// names the command.
pub fn resolve_or_fail<F: Fn(ProcAddrCall) -> usize>(
    context: &ResolutionContext,
    command: &Command,
    native: &F,
) -> (found: Result<FunctionPointer, LoadError>)
    requires
        callable(native, *context, *command),
    ensures
        found matches Ok(pointer) ==> pointer@ != 0 && may_answer(native, *context, *command, pointer@),
        found matches Err(error) ==> error == LoadError::SymbolNotFound(command.name) && may_answer(
            native,
            *context,
            *command,
            0,
        ),
{
    let address = match context.request(command) {
        Some(call) => native(call),
        None => 0,
    };
    found_or_fail(command.name, address)
}

} // verus!
