use vulkan::command::Command;
use vulkan::error::LoadError;
use vulkan::loading::{Loading, Progress};
use vulkan::pointer::FunctionPointer;
use vulkan::resolve::{ProcAddrCall, ResolutionContext};

fn pointer(address: usize) -> FunctionPointer {
    FunctionPointer::from_address(address).unwrap()
}

fn context() -> ResolutionContext {
    ResolutionContext::device_extension(pointer(0xB0), 0x11, pointer(0xD0), 0x22)
}

fn question(progress: Progress) -> Loading {
    match progress {
        Progress::Ask(loading) => loading,
        other => panic!("a question was expected, not {:?}", other),
    }
}

#[test]
fn loading_asks_one_question_for_each_command_in_order() {
    let commands = vec![Command::instance("vkA"), Command::device("vkB"), Command::global("vkC")];
    let first = question(Loading::start(context(), commands.clone()));
    assert_eq!(first.call(), ProcAddrCall { resolver: pointer(0xB0), handle: 0x11, name: "vkA" });
    let second = question(first.answer(0x100));
    assert_eq!(second.call(), ProcAddrCall { resolver: pointer(0xD0), handle: 0x22, name: "vkB" });
    let third = question(second.answer(0x200));
    assert_eq!(third.call(), ProcAddrCall { resolver: pointer(0xB0), handle: 0, name: "vkC" });
    match third.answer(0x300) {
        Progress::Loaded(table) => {
            assert_eq!(table.len(), 3);
            assert_eq!(table.get(0), Some(pointer(0x100)));
            assert_eq!(table.get(1), Some(pointer(0x200)));
            assert_eq!(table.get(2), Some(pointer(0x300)));
            assert_eq!(table.command(1), Some(commands[1]));
        }
        other => panic!("a table was expected, not {:?}", other),
    }
}

#[test]
fn loading_ends_at_the_first_null_answer() {
    let commands = vec![Command::instance("vkA"), Command::device("vkB"), Command::global("vkC")];
    let first = question(Loading::start(context(), commands));
    let second = question(first.answer(0x100));
    match second.answer(0) {
        Progress::Failed(error) => assert_eq!(error, LoadError::SymbolNotFound("vkB")),
        other => panic!("a failure was expected, not {:?}", other),
    }
}

#[test]
fn loading_of_no_command_is_done_at_once() {
    let nothing = ResolutionContext { bootstrap: None, instance: None, device: None };
    match Loading::start(nothing, Vec::new()) {
        Progress::Loaded(table) => assert_eq!(table.len(), 0),
        other => panic!("a table was expected, not {:?}", other),
    }
}

#[test]
fn loading_fails_without_a_question_where_the_context_cannot_ask() {
    let instance_only = ResolutionContext::instance(pointer(0xB0), 0x11);
    match Loading::start(instance_only, vec![Command::device("vkB")]) {
        Progress::Failed(error) => assert_eq!(error, LoadError::SymbolNotFound("vkB")),
        other => panic!("a failure was expected, not {:?}", other),
    }
    let commands = vec![Command::instance("vkA"), Command::device("vkB")];
    let first = question(Loading::start(instance_only, commands));
    match first.answer(0x100) {
        Progress::Failed(error) => assert_eq!(error, LoadError::SymbolNotFound("vkB")),
        other => panic!("a failure was expected, not {:?}", other),
    }
}
