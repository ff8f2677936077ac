use vstd::prelude::*;
use crate::error::LoadError;
use crate::handles::VkInstance;
use crate::pointer::FunctionPointer;
use crate::resolve::{found_or_fail, ProcAddrCall};

verus! {

/// `libloading::Library`, an open dynamic library. The library is carried
/// and kept alive; nothing is known of what is inside it.
#[verifier::external_type_specification]
#[verifier::external_body]
pub struct ExLibrary(libloading::Library);

/// `libloading::Error`, the reason for which a library did not open. It is
/// dropped unread: every such reason is `LibraryNotFound`.
#[verifier::external_type_specification]
#[verifier::external_body]
pub struct ExLibraryError(libloading::Error);

/// The name under which the native library exports its bootstrap resolver.
pub open spec fn bootstrap_symbol() -> &'static str {
    "vkGetInstanceProcAddr"
}

/// The entry point into the native library: the open library, kept so that
/// it stays loaded for as long as the entry point lives, and the one symbol
/// that was looked up in it, the bootstrap resolver.
///
/// `L` is the handle of the open library; the entry point reads nothing in it.
pub struct VulkanEntry<L> {
    vulkan_lib: L,
    vkGetInstanceProcAddr: FunctionPointer,
}

/// What opening an entry point on an open library may give, where `lookup`
/// finds a symbol's address in the library: the entry point that owns the
/// library and holds the non-null address that `lookup` answered for the
/// bootstrap symbol, or the failure that names that symbol, where `lookup`
/// answered the null address.
pub open spec fn entry_outcome<L, F: FnOnce(&L, &'static str) -> usize>(
    lookup: F,
    library: L,
    entry: Result<VulkanEntry<L>, LoadError>,
) -> bool {
    match entry {
        Ok(opened) => {
            &&& *opened.spec_library() == library
            &&& opened.spec_bootstrap()@ != 0
            &&& call_ensures(lookup, (&library, bootstrap_symbol()), opened.spec_bootstrap()@)
        },
        Err(error) => {
            &&& error == LoadError::SymbolNotFound(bootstrap_symbol())
            &&& call_ensures(lookup, (&library, bootstrap_symbol()), 0usize)
        },
    }
}

/// Asks the operating system's loader for the library at `path`, by
/// `libloading::Library::new`. Whether it is found depends on the machine,
/// so nothing is claimed of the result.
#[verifier::external_body]
fn open_library(path: &str) -> (opened: Result<libloading::Library, libloading::Error>) {
    libloading::Library::new(path)
}

impl<L> VulkanEntry<L> {
    /// The open library that the entry point owns.
    pub closed spec fn spec_library(&self) -> &L {
        &self.vulkan_lib
    }

    /// The address of the bootstrap resolver.
    pub closed spec fn spec_bootstrap(&self) -> FunctionPointer {
        self.vkGetInstanceProcAddr
    }

    /// Makes the entry point of an open library from the address that was
    /// found in it for the bootstrap symbol: the null address means that the
    /// library does not export the symbol.
    pub fn with_bootstrap(library: L, address: usize) -> (entry: Result<VulkanEntry<L>, LoadError>)
        ensures
            address == 0 ==> (entry matches Err(error) && error == LoadError::SymbolNotFound(
                bootstrap_symbol(),
            )),
            address != 0 ==> (entry matches Ok(opened) && *opened.spec_library() == library
                && opened.spec_bootstrap()@ == address),
    {
        match found_or_fail("vkGetInstanceProcAddr", address) {
            Ok(pointer) => Ok(VulkanEntry { vulkan_lib: library, vkGetInstanceProcAddr: pointer }),
            Err(error) => Err(error),
        }
    }

    /// Makes the entry point from what the loader gave for the library:
    /// a library that could not be opened is `LibraryNotFound`; in an open
    /// one, `lookup` is asked once, for the bootstrap symbol.
    pub fn open<E, F: FnOnce(&L, &'static str) -> usize>(opened: Result<L, E>, lookup: F) -> (entry: Result<
        VulkanEntry<L>,
        LoadError,
    >)
        requires
            opened matches Ok(library) ==> call_requires(lookup, (&library, bootstrap_symbol())),
        ensures
            opened is Err ==> (entry matches Err(error) && error == LoadError::LibraryNotFound),
            opened matches Ok(library) ==> entry_outcome(lookup, library, entry),
    {
        match opened {
            Err(_) => Err(LoadError::LibraryNotFound),
            Ok(library) => {
                let address = lookup(&library, "vkGetInstanceProcAddr");
                VulkanEntry::with_bootstrap(library, address)
            },
        }
    }

    #[verifier::when_used_as_spec(spec_library)]
    pub fn library(&self) -> (library: &L)
        ensures
            library == self.spec_library(),
    {
        &self.vulkan_lib
    }

    #[verifier::when_used_as_spec(spec_bootstrap)]
    pub fn bootstrap(&self) -> (pointer: FunctionPointer)
        ensures
            pointer == self.spec_bootstrap(),
            pointer@ != 0,
    {
        let pointer = self.vkGetInstanceProcAddr;
        let _ = pointer.address();
        pointer
    }

    /// Asks the bootstrap resolver for `name` on behalf of `instance`, which
    /// may be the null instance: one call of `native`, nothing cached, and
    /// `None` where it answers the null address.
    pub fn vkGetInstanceProcAddr<F: Fn(ProcAddrCall) -> usize>(
        &self,
        instance: VkInstance,
        name: &'static str,
        native: &F,
    ) -> (found: Option<FunctionPointer>)
        requires
            call_requires(native, (ProcAddrCall { resolver: self.spec_bootstrap(), handle: instance, name },)),
        ensures
            found matches Some(pointer) ==> pointer@ != 0 && call_ensures(
                native,
                (ProcAddrCall { resolver: self.spec_bootstrap(), handle: instance, name },),
                pointer@,
            ),
            found is None ==> call_ensures(
                native,
                (ProcAddrCall { resolver: self.spec_bootstrap(), handle: instance, name },),
                0usize,
            ),
    {
        let call = ProcAddrCall { resolver: self.vkGetInstanceProcAddr, handle: instance, name };
        FunctionPointer::from_address(native(call))
    }
}

impl VulkanEntry<libloading::Library> {
    /// Opens the native library at `loader_path` and makes its entry point.
    ///
    /// Whether the library opens is the loader's answer. Whatever it is: a
    /// library that does not open is `LibraryNotFound`, and one that opens
    /// gives what `open` gives for it.
    pub fn new<F: FnOnce(&libloading::Library, &'static str) -> usize>(loader_path: &str, lookup: F) -> (entry:
        Result<VulkanEntry<libloading::Library>, LoadError>)
        requires
            forall|library: libloading::Library| call_requires(lookup, (&library, bootstrap_symbol())),
        ensures
            match entry {
                Ok(opened) => entry_outcome(lookup, *opened.spec_library(), entry),
                Err(error) => error == LoadError::LibraryNotFound || exists|library: libloading::Library|
                    entry_outcome(lookup, library, entry),
            },
    {
        VulkanEntry::open(open_library(loader_path), lookup)
    }
}

/// On a library that is open and in which the bootstrap symbol is found,
/// opening the entry point succeeds: it fails only where `lookup` can answer
/// the null address.
pub proof fn lemma_open_succeeds_where_the_symbol_is_found<L, F: FnOnce(&L, &'static str) -> usize>(
    lookup: F,
    library: L,
    entry: Result<VulkanEntry<L>, LoadError>,
)
    requires
        entry_outcome(lookup, library, entry),
        !call_ensures(lookup, (&library, bootstrap_symbol()), 0usize),
    ensures
        entry matches Ok(opened) && *opened.spec_library() == library && opened.spec_bootstrap()@ != 0,
{
}

} // verus!
