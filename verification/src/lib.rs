//! A dynamic linker for position-independent modules.
//!
//! The linker works on byte images of loaded modules: it parses each module's
//! dynamic table, applies its relocations, resolves symbols across the
//! registry of loaded modules and prepares lazy binding. Every entry point is
//! total: a structural violation that would trap on the target is returned as
//! a [`fatal::Fatal`] value for the caller to act on.

pub mod arch;
pub mod bringup;
pub mod elf;
pub mod fatal;
pub mod linker;
pub mod memory;
pub mod module;
pub mod nx;
pub mod plt;
pub mod registry;
pub mod relocate;
pub mod relocation;
pub mod startup;
pub mod symbols;
