//! Loads real-mode code into low memory from an x86-64 kernel, and prepares
//! the jump to it.
//!
//! A boot request names a payload (a master boot record, a GRUB2 core image
//! or any real-mode code), where in low memory it goes, and where it is
//! entered. The loader validates the request, copies the payload and the
//! mode-transition trampoline into the low-memory window, writes the
//! entrypoint into the trampoline's slot, and returns the [`Handoff`]: the
//! address to transfer control to. A request that is refused has written
//! nothing.
//!
//! The window is a byte slice in which cell `i` stands for physical address
//! `i`. The transfer of control itself is left to the caller, who before it
//! has to disable interrupts, identity map the lowest 1 MiB of memory as
//! executable, and halt all other processors.

pub mod error;
pub mod layout;
pub mod loader;
pub mod memory;
pub mod trampoline;

pub use crate::error::Error;
pub use crate::layout::{
    ENTRY_SLOT_SIZE, GRUB2_ENTRY_OFFSET, GRUB2_LOAD_ADDR, LOW_MEMORY_SIZE, MAX_PAYLOAD_SIZE,
    MAX_TRAMPOLINE_SIZE, MBR_LOAD_ADDR, MBR_SIZE, TRAMPOLINE_ADDR,
};
pub use crate::loader::{boot, boot_grub2, boot_mbr, boot_offset, validate, Handoff};
pub use crate::trampoline::Trampoline;
