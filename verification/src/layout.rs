//! The fixed addresses of the low-memory layout, and the rule that keeps a
//! payload clear of the trampoline.

use vstd::prelude::*;

verus! {

/// The maximum payload size.
pub const MAX_PAYLOAD_SIZE: usize = 0x78000;

/// Size of the low-memory window that a boot request stages into: the lowest
/// 1 MiB of physical memory, where cell `i` is physical address `i`.
pub const LOW_MEMORY_SIZE: usize = 0x10_0000;

/// Where the trampoline is copied to.
pub const TRAMPOLINE_ADDR: u16 = 0x500;

/// Size of the entrypoint slot at the start of the trampoline. The
/// trampoline's code starts right behind it.
pub const ENTRY_SLOT_SIZE: u16 = 2;

/// The largest trampoline whose last address, `TRAMPOLINE_ADDR` plus its
/// size, is still a 16-bit address.
pub const MAX_TRAMPOLINE_SIZE: usize = 0xfaff;

/// Size of a master boot record: one sector.
pub const MBR_SIZE: usize = 512;

/// Where a legacy BIOS loads a master boot record, and where it is entered.
pub const MBR_LOAD_ADDR: u16 = 0x7c00;

/// Where a GRUB2 core image is loaded.
pub const GRUB2_LOAD_ADDR: u16 = 0x8000;

/// Offset of a GRUB2 core image's entry from its load address.
pub const GRUB2_ENTRY_OFFSET: u16 = 0x200;

/// Two address ranges, each given by its first and its last address, meet:
/// each starts no later than the other ends. Both ends count, so ranges that
/// merely touch do meet.
pub open spec fn ranges_meet(start: int, end: int, other_start: int, other_end: int) -> bool {
    start <= other_end && other_start <= end
}

/// The range that a payload is held to occupy, from `destination` up to and
/// including its entrypoint `destination + offset`, meets the range from
/// `TRAMPOLINE_ADDR` up to and including `TRAMPOLINE_ADDR + trampoline_size`.
pub open spec fn placement_conflicts(destination: u16, offset: u16, trampoline_size: nat) -> bool {
    ranges_meet(
        destination as int,
        destination + offset,
        TRAMPOLINE_ADDR as int,
        TRAMPOLINE_ADDR + trampoline_size,
    )
}

/// `addr` lies in the payload's range and in the trampoline's range.
pub open spec fn shared_address(
    destination: u16,
    offset: u16,
    trampoline_size: nat,
    addr: int,
) -> bool {
    &&& destination <= addr <= destination + offset
    &&& TRAMPOLINE_ADDR <= addr <= TRAMPOLINE_ADDR + trampoline_size
}

/// A placement conflicts exactly when some address lies both between the
/// payload's destination and its entrypoint and between the trampoline's first
/// and last address, ends included.
pub proof fn lemma_conflict_iff_shared_address(destination: u16, offset: u16, trampoline_size: nat)
    ensures
        placement_conflicts(destination, offset, trampoline_size) <==> exists|addr: int|
            #![trigger shared_address(destination, offset, trampoline_size, addr)]
            shared_address(destination, offset, trampoline_size, addr),
{
    if placement_conflicts(destination, offset, trampoline_size) {
        let addr: int = if destination >= TRAMPOLINE_ADDR {
            destination as int
        } else {
            TRAMPOLINE_ADDR as int
        };
        assert(shared_address(destination, offset, trampoline_size, addr));
    }
}

/// Ranges that only touch conflict: a payload whose entrypoint is the
/// trampoline's first address, or whose destination is the trampoline's last
/// address, is refused like one that lies across it.
pub proof fn lemma_touching_ranges_conflict(destination: u16, offset: u16, trampoline_size: nat)
    requires
        destination + offset == TRAMPOLINE_ADDR || destination == TRAMPOLINE_ADDR
            + trampoline_size,
    ensures
        placement_conflicts(destination, offset, trampoline_size),
{
}

} // verus!
