//! Loading of the Vulkan library's commands.
//!
//! The native library exports one symbol, the bootstrap resolver, and every
//! other command is found by asking a resolver for it by name. This crate
//! decides which resolver is asked for which command and with which handle,
//! checks what comes back, and gathers the addresses in dispatch tables that
//! exist only whole: the global table, the table of an instance, the table
//! of a device, and the table of each extension.
//!
//! The two native operations themselves, looking a symbol up in the open
//! library and calling a resolver at its address, are handed in by the
//! caller as closures; everything around them is verified for whatever they
//! answer.
//!
//! Beside the loader stand the plain data of the interface: enumerations
//! with their native values, flag sets, handles, limits and the structures
//! that hold only such values.

#![allow(non_camel_case_types)]
#![allow(non_snake_case)]

pub mod command;
pub mod core_commands;
pub mod core_enums;
pub mod core_flags;
pub mod core_structs;
pub mod dispatch;
pub mod entry;
pub mod error;
pub mod extension_enums;
pub mod extension_flags;
pub mod extension_structs;
pub mod extensions;
pub mod flags;
pub mod handles;
pub mod loading;
pub mod pointer;
pub mod resolve;
pub mod table;
pub mod version;
