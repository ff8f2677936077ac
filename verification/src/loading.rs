use vstd::prelude::*;
use crate::command::Command;
use crate::error::LoadError;
use crate::pointer::FunctionPointer;
use crate::resolve::{callable, found_or_fail, may_answer, ProcAddrCall, ResolutionContext};
use crate::table::{addresses_of, DispatchTable};

verus! {

/// The loading of a table that has come to a question: the commands before
/// it are resolved, and the call that resolves the next one is to be made.
///
/// Loading goes one question at a time, so that whoever can call native code
/// does the asking: `start` gives the first question, `answer` takes what the
/// native resolver said and gives the next one, until the table is whole or
/// a command is missing. `DispatchTable::load` runs all of it with a closure.
#[derive(Debug)]
pub struct Loading {
    context: ResolutionContext,
    commands: Vec<Command>,
    pointers: Vec<FunctionPointer>,
    pending: ProcAddrCall,
}

/// How far the loading of a table has come.
#[derive(Debug)]
pub enum Progress {
    /// A command is to be asked for: `Loading::call` says how, and
    /// `Loading::answer` takes the answer.
    Ask(Loading),
    /// Every command is resolved.
    Loaded(DispatchTable),
    /// A command is missing, and nothing more is asked.
    Failed(LoadError),
}

/// Where loading stands once `addresses` have been found for the first
/// commands of the list: the table, if that was the whole list; else the
/// question for the next command or, if the context cannot ask for it, the
/// failure that names it.
pub open spec fn progress_after(
    context: ResolutionContext,
    commands: Seq<Command>,
    addresses: Seq<usize>,
    progress: Progress,
) -> bool {
    if addresses.len() >= commands.len() {
        progress matches Progress::Loaded(table) && table.commands() == commands && table.addresses()
            == addresses
    } else {
        match context.call_for(commands[addresses.len() as int]) {
            Some(call) => {
                &&& progress matches Progress::Ask(loading)
                &&& loading.context() == context
                &&& loading.commands() == commands
                &&& loading.addresses() == addresses
                &&& loading.pending() == call
            },
            None => progress == Progress::Failed(
                LoadError::SymbolNotFound(commands[addresses.len() as int].name),
            ),
        }
    }
}

impl Loading {
    #[verifier::type_invariant]
    spec fn has_a_question(self) -> bool {
        &&& self.pointers@.len() < self.commands@.len()
        &&& self.context.call_for(self.commands@[self.pointers@.len() as int]) == Some(self.pending)
    }

    /// The context in which the commands are resolved.
    pub closed spec fn context(&self) -> ResolutionContext {
        self.context
    }

    /// The commands of the table to be.
    pub closed spec fn commands(&self) -> Seq<Command> {
        self.commands@
    }

    /// The addresses found so far, for the first commands of the list.
    pub closed spec fn addresses(&self) -> Seq<usize> {
        addresses_of(self.pointers@)
    }

    /// The call to be made now: that of the first command not yet resolved.
    pub closed spec fn pending(&self) -> ProcAddrCall {
        self.pending
    }

    /// Begins to load the commands of the list, in the order of the list.
    pub fn start(context: ResolutionContext, commands: Vec<Command>) -> (progress: Progress)
        ensures
            progress_after(context, commands@, Seq::<usize>::empty(), progress),
    {
        let progress = Loading::proceed(context, commands, Vec::new());
        assert(addresses_of(Seq::<FunctionPointer>::empty()) =~= Seq::<usize>::empty());
        progress
    }

    /// The call to be made now.
    pub fn call(&self) -> (call: ProcAddrCall)
        ensures
            call == self.pending(),
            self.addresses().len() < self.commands().len(),
            self.context().call_for(self.commands()[self.addresses().len() as int]) == Some(call),
    {
        proof {
            use_type_invariant(self);
        }
        self.pending
    }

    /// Takes the address that the native resolver answered to the pending
    /// call. The null address ends the loading with the failure that names
    /// the command; any other address is the command's, and loading goes on
    /// to the next command.
    pub fn answer(self, address: usize) -> (progress: Progress)
        ensures
            address == 0 ==> progress == Progress::Failed(
                LoadError::SymbolNotFound(self.commands()[self.addresses().len() as int].name),
            ),
            address != 0 ==> progress_after(
                self.context(),
                self.commands(),
                self.addresses().push(address),
                progress,
            ),
    {
        proof {
            use_type_invariant(&self);
        }
        let Loading { context, commands, mut pointers, pending: _ } = self;
        match found_or_fail(commands[pointers.len()].name, address) {
            Ok(pointer) => {
                pointers.push(pointer);
                assert(addresses_of(pointers@) =~= self.addresses().push(address));
                Loading::proceed(context, commands, pointers)
            },
            Err(error) => Progress::Failed(error),
        }
    }

    /// Goes on after the given pointers have been found.
    fn proceed(context: ResolutionContext, commands: Vec<Command>, pointers: Vec<FunctionPointer>) -> (progress:
        Progress)
        requires
            pointers@.len() <= commands@.len(),
        ensures
            progress_after(context, commands@, addresses_of(pointers@), progress),
    {
        if pointers.len() == commands.len() {
            Progress::Loaded(DispatchTable::assemble(commands, pointers))
        } else {
            let command = commands[pointers.len()];
            match context.request(&command) {
                Some(call) => Progress::Ask(Loading { context, commands, pointers, pending: call }),
                None => Progress::Failed(LoadError::SymbolNotFound(command.name)),
            }
        }
    }
}

/// `native` may be asked for every command of the list.
pub open spec fn all_callable<F: Fn(ProcAddrCall) -> usize>(
    native: &F,
    context: ResolutionContext,
    commands: Seq<Command>,
) -> bool {
    forall|i: int| 0 <= i < commands.len() ==> callable(native, context, #[trigger] commands[i])
}

/// `addresses` are non-null outcomes of resolving, in order, the first
/// commands of the list.
pub open spec fn resolved_prefix<F: Fn(ProcAddrCall) -> usize>(
    native: &F,
    context: ResolutionContext,
    commands: Seq<Command>,
    addresses: Seq<usize>,
) -> bool {
    &&& addresses.len() <= commands.len()
    &&& forall|i: int|
        #![trigger commands[i]]
        #![trigger addresses[i]]
        0 <= i < addresses.len() ==> addresses[i] != 0 && may_answer(
            native,
            context,
            commands[i],
            addresses[i],
        )
}

/// What loading a list of commands may give: a table with a non-null outcome
/// for every command, or the failure that names the first command, in the
/// order of the list, for which the outcome was null; every command before
/// that one had been resolved.
pub open spec fn load_outcome<F: Fn(ProcAddrCall) -> usize>(
    native: &F,
    context: ResolutionContext,
    commands: Seq<Command>,
    loaded: Result<DispatchTable, LoadError>,
) -> bool {
    match loaded {
        Ok(table) => {
            &&& table.commands() == commands
            &&& table.addresses().len() == commands.len()
            &&& resolved_prefix(native, context, commands, table.addresses())
        },
        Err(error) => exists|found: Seq<usize>|
            {
                &&& #[trigger] resolved_prefix(native, context, commands, found)
                &&& found.len() < commands.len()
                &&& may_answer(native, context, commands[found.len() as int], 0)
                &&& error == LoadError::SymbolNotFound(commands[found.len() as int].name)
            },
    }
}

/// What holds while `DispatchTable::load` runs: the commands before the
/// pending one have non-null outcomes, and what has ended has ended as
/// `load_outcome` says.
spec fn underway<F: Fn(ProcAddrCall) -> usize>(
    native: &F,
    context: ResolutionContext,
    commands: Seq<Command>,
    progress: Progress,
) -> bool {
    match progress {
        Progress::Ask(loading) => {
            &&& loading.context() == context
            &&& loading.commands() == commands
            &&& loading.addresses().len() < commands.len()
            &&& resolved_prefix(native, context, commands, loading.addresses())
        },
        Progress::Loaded(table) => load_outcome(native, context, commands, Ok(table)),
        Progress::Failed(error) => load_outcome(native, context, commands, Err(error)),
    }
}

/// The number of commands that are still to be asked for.
spec fn remaining(commands: Seq<Command>, progress: Progress) -> int {
    match progress {
        Progress::Ask(loading) => commands.len() - loading.addresses().len(),
        _ => 0,
    }
}

proof fn lemma_underway_after<F: Fn(ProcAddrCall) -> usize>(
    native: &F,
    context: ResolutionContext,
    commands: Seq<Command>,
    addresses: Seq<usize>,
    progress: Progress,
)
    requires
        resolved_prefix(native, context, commands, addresses),
        progress_after(context, commands, addresses, progress),
    ensures
        underway(native, context, commands, progress),
        remaining(commands, progress) <= commands.len() - addresses.len(),
{
    if progress is Failed {
        assert(may_answer(native, context, commands[addresses.len() as int], 0));
    }
}

impl DispatchTable {
    /// Resolves every command of the list, in order, and stops at the first
    /// one that cannot be resolved: either the whole table or no table.
    pub fn load<F: Fn(ProcAddrCall) -> usize>(
        context: &ResolutionContext,
        commands: Vec<Command>,
        native: &F,
    ) -> (loaded: Result<DispatchTable, LoadError>)
        requires
            all_callable(native, *context, commands@),
        ensures
            load_outcome(native, *context, commands@, loaded),
            commands@.len() == 0 ==> loaded is Ok,
    {
        let ghost list = commands@;
        let mut progress = Loading::start(*context, commands);
        proof {
            lemma_underway_after(native, *context, list, Seq::<usize>::empty(), progress);
        }
        loop
            invariant
                list == commands@,
                all_callable(native, *context, list),
                underway(native, *context, list, progress),
            decreases remaining(list, progress),
        {
            match progress {
                Progress::Ask(loading) => {
                    let call = loading.call();
                    assert(callable(native, *context, list[loading.addresses().len() as int]));
                    let address = native(call);
                    progress = loading.answer(address);
                    proof {
                        let found = loading.addresses();
                        let index = found.len() as int;
                        assert(may_answer(native, *context, list[index], address));
                        if address != 0 {
                            assert(resolved_prefix(native, *context, list, found.push(address)));
                            lemma_underway_after(native, *context, list, found.push(address), progress);
                        }
                    }
                },
                Progress::Loaded(table) => {
                    return Ok(table);
                },
                Progress::Failed(error) => {
                    return Err(error);
                },
            }
        }
    }
}

/// `native` answers as the function `answers` does: whatever it returns for
/// a call is what `answers` gives for that call.
pub open spec fn follows<F: Fn(ProcAddrCall) -> usize>(
    native: &F,
    answers: spec_fn(ProcAddrCall) -> usize,
) -> bool {
    forall|call: ProcAddrCall, address: usize| #[trigger]
        call_ensures(native, (call,), address) ==> address == answers(call)
}

/// The address that resolving `command` gives when the native resolver
/// answers as `answers` does; null where the context cannot make the call.
pub open spec fn answer_for(
    context: ResolutionContext,
    command: Command,
    answers: spec_fn(ProcAddrCall) -> usize,
) -> usize {
    match context.call_for(command) {
        Some(call) => answers(call),
        None => 0,
    }
}

/// The command at `index` is the first of the list that is not resolved.
pub open spec fn first_unresolved(
    context: ResolutionContext,
    commands: Seq<Command>,
    answers: spec_fn(ProcAddrCall) -> usize,
    index: int,
) -> bool {
    &&& 0 <= index < commands.len()
    &&& answer_for(context, commands[index], answers) == 0
    &&& forall|i: int| 0 <= i < index ==> answer_for(context, #[trigger] commands[i], answers) != 0
}

/// What loading gives when the native resolver answers as `answers` does:
/// the table of all the answers if none of them is null, and else the failure
/// that names the first command whose answer is null.
pub open spec fn loads_as(
    context: ResolutionContext,
    commands: Seq<Command>,
    answers: spec_fn(ProcAddrCall) -> usize,
    loaded: Result<DispatchTable, LoadError>,
) -> bool {
    match loaded {
        Ok(table) => {
            &&& table.commands() == commands
            &&& table.addresses() == Seq::new(
                commands.len(),
                |i: int| answer_for(context, commands[i], answers),
            )
            &&& forall|i: int|
                0 <= i < commands.len() ==> answer_for(context, #[trigger] commands[i], answers) != 0
        },
        Err(error) => exists|index: int|
            {
                &&& #[trigger] first_unresolved(context, commands, answers, index)
                &&& error == LoadError::SymbolNotFound(commands[index].name)
            },
    }
}

/// With a native resolver that answers as a function does, what loading
/// gives is a function of the context, the list and those answers: all the
/// answers, or the first name without one.
pub proof fn lemma_load_follows_answers<F: Fn(ProcAddrCall) -> usize>(
    native: &F,
    context: ResolutionContext,
    commands: Seq<Command>,
    answers: spec_fn(ProcAddrCall) -> usize,
    loaded: Result<DispatchTable, LoadError>,
)
    requires
        follows(native, answers),
        load_outcome(native, context, commands, loaded),
    ensures
        loads_as(context, commands, answers, loaded),
{
    match loaded {
        Ok(table) => {
            let addresses = table.addresses();
            assert forall|i: int| 0 <= i < commands.len() implies addresses[i] == answer_for(
                context,
                #[trigger] commands[i],
                answers,
            ) && addresses[i] != 0 by {
                assert(may_answer(native, context, commands[i], addresses[i]));
            }
            assert(addresses =~= Seq::new(
                commands.len(),
                |i: int| answer_for(context, commands[i], answers),
            ));
        },
        Err(error) => {
            let found = choose|found: Seq<usize>|
                {
                    &&& #[trigger] resolved_prefix(native, context, commands, found)
                    &&& found.len() < commands.len()
                    &&& may_answer(native, context, commands[found.len() as int], 0)
                    &&& error == LoadError::SymbolNotFound(commands[found.len() as int].name)
                };
            let index = found.len() as int;
            assert forall|i: int| 0 <= i < index implies answer_for(
                context,
                #[trigger] commands[i],
                answers,
            ) != 0 by {
                assert(may_answer(native, context, commands[i], found[i]));
            }
            assert(first_unresolved(context, commands, answers, index));
        },
    }
}

/// The answers decide the result: two results of loading the same list in
/// the same context, with the same answers, are both tables with the same
/// addresses or both the same failure.
pub proof fn lemma_loads_as_is_unique(
    context: ResolutionContext,
    commands: Seq<Command>,
    answers: spec_fn(ProcAddrCall) -> usize,
    first: Result<DispatchTable, LoadError>,
    second: Result<DispatchTable, LoadError>,
)
    requires
        loads_as(context, commands, answers, first),
        loads_as(context, commands, answers, second),
    ensures
        first is Ok <==> second is Ok,
        first matches Ok(one) ==> second matches Ok(other) && one.commands() == other.commands()
            && one.addresses() == other.addresses(),
        first matches Err(error) ==> second == Err::<DispatchTable, LoadError>(error),
{
    if first is Err {
        let index = choose|index: int| #[trigger]
            first_unresolved(context, commands, answers, index) && first->Err_0
                == LoadError::SymbolNotFound(commands[index].name);
        if second is Err {
            let other = choose|other: int| #[trigger]
                first_unresolved(context, commands, answers, other) && second->Err_0
                    == LoadError::SymbolNotFound(commands[other].name);
            assert(index == other) by {
                if index < other {
                    assert(answer_for(context, commands[index], answers) != 0);
                }
                if other < index {
                    assert(answer_for(context, commands[other], answers) != 0);
                }
            }
        } else {
            assert(answer_for(context, commands[index], answers) != 0);
        }
    } else if second is Err {
        let other = choose|other: int| #[trigger]
            first_unresolved(context, commands, answers, other) && second->Err_0
                == LoadError::SymbolNotFound(commands[other].name);
        assert(answer_for(context, commands[other], answers) != 0);
    }
}

/// Loading the same list twice in the same context, with a native resolver
/// that answers as a function does, gives the same thing twice: two tables
/// with the same addresses, or the same failure.
pub proof fn lemma_loading_again_gives_the_same<F: Fn(ProcAddrCall) -> usize>(
    native: &F,
    context: ResolutionContext,
    commands: Seq<Command>,
    answers: spec_fn(ProcAddrCall) -> usize,
    first: Result<DispatchTable, LoadError>,
    second: Result<DispatchTable, LoadError>,
)
    requires
        follows(native, answers),
        load_outcome(native, context, commands, first),
        load_outcome(native, context, commands, second),
    ensures
        first is Ok <==> second is Ok,
        first matches Ok(one) ==> second matches Ok(other) && one.commands() == other.commands()
            && one.addresses() == other.addresses(),
        first matches Err(error) ==> second == Err::<DispatchTable, LoadError>(error),
{
    lemma_load_follows_answers(native, context, commands, answers, first);
    lemma_load_follows_answers(native, context, commands, answers, second);
    lemma_loads_as_is_unique(context, commands, answers, first, second);
}

/// A list without commands always loads, whatever the context holds and
/// whatever the native resolver would answer.
pub proof fn lemma_empty_list_loads<F: Fn(ProcAddrCall) -> usize>(
    native: &F,
    context: ResolutionContext,
    loaded: Result<DispatchTable, LoadError>,
)
    requires
        load_outcome(native, context, Seq::<Command>::empty(), loaded),
    ensures
        loaded matches Ok(table) && table.commands().len() == 0 && table.addresses().len() == 0,
{
}

} // verus!
