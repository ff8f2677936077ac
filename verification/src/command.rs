use vstd::prelude::*;

verus! {

/// Which native resolver finds a command's address.
#[derive(Clone, Copy, Debug, PartialEq, Eq, Hash, Structural)]
pub enum Tier {
    /// The library's bootstrap resolver, asked without an instance.
    Global,
    /// The library's bootstrap resolver, asked on behalf of an instance.
    Instance,
    /// The instance table's device resolver, asked on behalf of a device.
    Device,
}

/// One declared entry of a dispatch table: the command's name as the native
/// library exports it, and the tier that resolves it.
#[derive(Clone, Copy, Debug, PartialEq, Eq, Hash)]
pub struct Command {
    pub tier: Tier,
    pub name: &'static str,
}

impl Command {
    pub open spec fn spec_global(name: &'static str) -> Command {
        Command { tier: Tier::Global, name }
    }

    pub open spec fn spec_instance(name: &'static str) -> Command {
        Command { tier: Tier::Instance, name }
    }

    pub open spec fn spec_device(name: &'static str) -> Command {
        Command { tier: Tier::Device, name }
    }

    #[verifier::when_used_as_spec(spec_global)]
    pub fn global(name: &'static str) -> (command: Command)
        ensures
            command == Command::spec_global(name),
    {
        Command { tier: Tier::Global, name }
    }

    #[verifier::when_used_as_spec(spec_instance)]
    pub fn instance(name: &'static str) -> (command: Command)
        ensures
            command == Command::spec_instance(name),
    {
        Command { tier: Tier::Instance, name }
    }

    #[verifier::when_used_as_spec(spec_device)]
    pub fn device(name: &'static str) -> (command: Command)
        ensures
            command == Command::spec_device(name),
    {
        Command { tier: Tier::Device, name }
    }
}

/// The commands of the given names, in order, all of one tier.
pub open spec fn commands_of_tier(tier: Tier, names: Seq<&'static str>) -> Seq<Command> {
    Seq::new(names.len(), |i: int| Command { tier, name: names[i] })
}

/// Declares one command of the given tier for each name.
pub fn with_tier(tier: Tier, names: &Vec<&'static str>) -> (commands: Vec<Command>)
    ensures
        commands@ == commands_of_tier(tier, names@),
{
    let mut commands: Vec<Command> = Vec::new();
    let mut index: usize = 0;
    while index < names.len()
        invariant
            index <= names@.len(),
            commands@ == commands_of_tier(tier, names@.take(index as int)),
        decreases names@.len() - index,
    {
        commands.push(Command { tier, name: names[index] });
        index += 1;
        assert(commands@ =~= commands_of_tier(tier, names@.take(index as int)));
    }
    assert(names@.take(index as int) =~= names@);
    commands
}

} // verus!
