use vstd::prelude::*;
use crate::command::Command;
use crate::pointer::FunctionPointer;

verus! {

/// The addresses of a sequence of pointers.
pub open spec fn addresses_of(pointers: Seq<FunctionPointer>) -> Seq<usize> {
    Seq::new(pointers.len(), |i: int| pointers[i]@)
}

/// The resolved addresses of a list of commands, in the order of the list.
///
/// A table exists only if every command of its list was resolved: there is
/// an address for each command, and none of them is null.
#[derive(Debug)]
pub struct DispatchTable {
    commands: Vec<Command>,
    pointers: Vec<FunctionPointer>,
}

impl DispatchTable {
    #[verifier::type_invariant]
    spec fn one_pointer_per_command(self) -> bool {
        self.commands@.len() == self.pointers@.len()
    }

    /// The commands of the table, as they were declared.
    pub closed spec fn commands(&self) -> Seq<Command> {
        self.commands@
    }

    /// The pointer to each command.
    pub closed spec fn pointers(&self) -> Seq<FunctionPointer> {
        self.pointers@
    }

    /// The address of each command.
    pub open spec fn addresses(&self) -> Seq<usize> {
        addresses_of(self.pointers())
    }

    /// The table of the given commands and of their pointers, one for each.
    pub(crate) fn assemble(commands: Vec<Command>, pointers: Vec<FunctionPointer>) -> (table: DispatchTable)
        requires
            commands@.len() == pointers@.len(),
        ensures
            table.commands() == commands@,
            table.pointers() == pointers@,
    {
        DispatchTable { commands, pointers }
    }

    /// The number of commands.
    pub fn len(&self) -> (len: usize)
        ensures
            len == self.commands().len(),
            len == self.pointers().len(),
    {
        proof {
            use_type_invariant(self);
        }
        self.commands.len()
    }

    /// The pointer to the command at `index`, which is never null.
    pub fn get(&self, index: usize) -> (pointer: Option<FunctionPointer>)
        ensures
            index < self.pointers().len() <==> pointer is Some,
            pointer matches Some(p) ==> p == self.pointers()[index as int] && p@ != 0,
    {
        if index < self.pointers.len() {
            let pointer = self.pointers[index];
            let _ = pointer.address();
            Some(pointer)
        } else {
            None
        }
    }

    /// The command at `index`.
    pub fn command(&self, index: usize) -> (command: Option<Command>)
        ensures
            index < self.commands().len() <==> command is Some,
            command matches Some(c) ==> c == self.commands()[index as int],
    {
        if index < self.commands.len() {
            Some(self.commands[index])
        } else {
            None
        }
    }
}

} // verus!
