use vstd::prelude::*;
use vstd::string::*;

verus! {

/// Why an entry point or a dispatch table could not be made.
#[derive(Clone, Copy, Debug, PartialEq, Eq, Hash)]
pub enum LoadError {
    /// The operating system's loader could not open the native library.
    LibraryNotFound,
    /// A required entry point, named here, could not be resolved.
    SymbolNotFound(&'static str),
}

/// The text that accompanies a failure.
pub open spec fn failure_message(error: LoadError) -> Seq<char> {
    match error {
        LoadError::LibraryNotFound => "Failed to open Vulkan loader"@,
        LoadError::SymbolNotFound(name) => "Could not load "@ + name@,
    }
}

impl LoadError {
    /// A message for people; for a missing symbol it ends with the symbol's name.
    pub fn message(&self) -> (text: String)
        ensures
            text@ == failure_message(*self),
    {
        match self {
            LoadError::LibraryNotFound => String::from_str("Failed to open Vulkan loader"),
            LoadError::SymbolNotFound(name) => String::from_str("Could not load ").concat(name),
        }
    }
}

} // verus!
