//! The loader: validates a boot request, stages the payload and the
//! trampoline in low memory, patches the entrypoint slot, and says where
//! control is to be transferred.

use crate::error::Error;
use crate::layout::{
    placement_conflicts, ENTRY_SLOT_SIZE, GRUB2_ENTRY_OFFSET, GRUB2_LOAD_ADDR, LOW_MEMORY_SIZE,
    MAX_PAYLOAD_SIZE, MBR_LOAD_ADDR, MBR_SIZE, TRAMPOLINE_ADDR,
};
use crate::memory::{le_bytes, store, store_u16_le, stored};
use crate::trampoline::{is_trampoline_size, Trampoline};
use vstd::prelude::*;

verus! {

/// What is left to do once a boot request has been staged: transfer control
/// to `code_start`. The trampoline there leaves long mode and jumps to
/// `entrypoint` as 16-bit code; it does not return.
#[derive(Debug, Clone, Copy, PartialEq, Eq)]
pub struct Handoff {
    /// The real-mode address that the trampoline jumps to. It is the value
    /// in the entrypoint slot.
    pub entrypoint: u16,
    /// The address of the trampoline's code, right behind the entrypoint
    /// slot.
    pub code_start: u16,
}

/// The handoff for a payload at `destination` that is entered at `offset`.
pub open spec fn handoff_to(destination: u16, offset: u16) -> Handoff {
    Handoff {
        entrypoint: (destination + offset) as u16,
        code_start: (TRAMPOLINE_ADDR + ENTRY_SLOT_SIZE) as u16,
    }
}

/// The verdict on a boot request, which depends on the payload's size, on
/// where it goes and where it is entered, and on the trampoline's size:
/// the size is checked first, then the placement.
pub open spec fn validated(
    payload_size: nat,
    destination: u16,
    offset: u16,
    trampoline_size: nat,
) -> Result<Handoff, Error> {
    if payload_size > MAX_PAYLOAD_SIZE {
        Err(Error::PayloadTooLarge)
    } else if placement_conflicts(destination, offset, trampoline_size) {
        Err(Error::PayloadWouldOverlap)
    } else {
        Ok(handoff_to(destination, offset))
    }
}

/// Low memory once a request has been staged. Address by address: the
/// entrypoint slot holds `entrypoint`, low byte first; the rest of the
/// trampoline's cells hold the trampoline; the payload's cells that the
/// trampoline does not cover hold the payload; every other cell is as it was.
pub open spec fn staged(
    memory: Seq<u8>,
    trampoline: Seq<u8>,
    payload: Seq<u8>,
    destination: u16,
    entrypoint: u16,
) -> Seq<u8> {
    Seq::new(
        memory.len(),
        |at: int|
            if TRAMPOLINE_ADDR <= at < TRAMPOLINE_ADDR + ENTRY_SLOT_SIZE {
                le_bytes(entrypoint)[at - TRAMPOLINE_ADDR]
            } else if TRAMPOLINE_ADDR <= at < TRAMPOLINE_ADDR + trampoline.len() {
                trampoline[at - TRAMPOLINE_ADDR]
            } else if destination <= at < destination + payload.len() {
                payload[at - destination]
            } else {
                memory[at]
            },
    )
}

/// Low memory after a boot request that ended in `result`: staged where the
/// request was accepted, untouched where it was refused.
pub open spec fn memory_after(
    result: Result<Handoff, Error>,
    memory: Seq<u8>,
    trampoline: Seq<u8>,
    payload: Seq<u8>,
    destination: u16,
) -> Seq<u8> {
    match result {
        Ok(handoff) => staged(memory, trampoline, payload, destination, handoff.entrypoint),
        Err(_) => memory,
    }
}

/// Staged memory is what three stores leave when they are made in this
/// order: the payload at its destination, then the trampoline at
/// `TRAMPOLINE_ADDR`, then the entrypoint in the slot.
pub proof fn lemma_staged_in_order(
    memory: Seq<u8>,
    trampoline: Seq<u8>,
    payload: Seq<u8>,
    destination: u16,
    entrypoint: u16,
)
    ensures
        staged(memory, trampoline, payload, destination, entrypoint) == stored(
            stored(
                stored(memory, destination as int, payload),
                TRAMPOLINE_ADDR as int,
                trampoline,
            ),
            TRAMPOLINE_ADDR as int,
            le_bytes(entrypoint),
        ),
{
}

/// In staged memory the entrypoint slot reads back, low byte first, as the
/// entrypoint, and behind it stands the trampoline's code, byte for byte.
pub proof fn lemma_staged_trampoline(
    memory: Seq<u8>,
    trampoline: Seq<u8>,
    payload: Seq<u8>,
    destination: u16,
    entrypoint: u16,
)
    requires
        is_trampoline_size(trampoline.len()),
        TRAMPOLINE_ADDR + trampoline.len() <= memory.len(),
    ensures
        ({
            let after = staged(memory, trampoline, payload, destination, entrypoint);
            &&& after.len() == memory.len()
            &&& after[TRAMPOLINE_ADDR as int] + 0x100 * after[TRAMPOLINE_ADDR + 1] == entrypoint
            &&& forall|at: int|
                ENTRY_SLOT_SIZE <= at < trampoline.len() ==> #[trigger] after[TRAMPOLINE_ADDR + at]
                    == trampoline[at]
        }),
{
}

/// Where a placement does not conflict, the trampoline covers nothing of the
/// payload from its first byte up to the one at its entrypoint: in staged
/// memory they stand where they were sent. So the byte that the trampoline
/// jumps to is the payload's byte at `offset`.
pub proof fn lemma_staged_payload_entered(
    memory: Seq<u8>,
    trampoline: Seq<u8>,
    payload: Seq<u8>,
    destination: u16,
    offset: u16,
)
    requires
        is_trampoline_size(trampoline.len()),
        !placement_conflicts(destination, offset, trampoline.len()),
        destination + offset <= u16::MAX,
        destination + payload.len() <= memory.len(),
    ensures
        ({
            let entrypoint = (destination + offset) as u16;
            let after = staged(memory, trampoline, payload, destination, entrypoint);
            &&& forall|at: int|
                0 <= at <= offset && at < payload.len() ==> #[trigger] after[destination + at]
                    == payload[at]
            &&& offset < payload.len() ==> after[entrypoint as int] == payload[offset as int]
        }),
{
}

/// Staging writes the trampoline's cells and the payload's cells, and no
/// others.
pub proof fn lemma_staged_elsewhere(
    memory: Seq<u8>,
    trampoline: Seq<u8>,
    payload: Seq<u8>,
    destination: u16,
    entrypoint: u16,
    at: int,
)
    requires
        is_trampoline_size(trampoline.len()),
        0 <= at < memory.len(),
        !(TRAMPOLINE_ADDR <= at < TRAMPOLINE_ADDR + trampoline.len()),
        !(destination <= at < destination + payload.len()),
    ensures
        staged(memory, trampoline, payload, destination, entrypoint)[at] == memory[at],
{
}

/// What staging leaves in the cells that it writes does not depend on what
/// memory held before.
pub proof fn lemma_staged_whatever_was_there(
    memory: Seq<u8>,
    other: Seq<u8>,
    trampoline: Seq<u8>,
    payload: Seq<u8>,
    destination: u16,
    entrypoint: u16,
    at: int,
)
    requires
        0 <= at < memory.len(),
        at < other.len(),
        TRAMPOLINE_ADDR <= at < TRAMPOLINE_ADDR + trampoline.len() || destination <= at
            < destination + payload.len(),
    ensures
        staged(memory, trampoline, payload, destination, entrypoint)[at] == staged(
            other,
            trampoline,
            payload,
            destination,
            entrypoint,
        )[at],
{
}

/// Decides whether `payload` can be placed at `destination` and entered at
/// `destination + offset`. Nothing is written.
pub fn validate(trampoline: &Trampoline, payload: &[u8], destination: u16, offset: u16) -> (result:
    Result<Handoff, Error>)
    requires
        payload@.len() <= MAX_PAYLOAD_SIZE ==> destination + offset <= u16::MAX,
    ensures
        result == validated(payload@.len(), destination, offset, trampoline@.len()),
{
    if payload.len() > MAX_PAYLOAD_SIZE {
        return Err(Error::PayloadTooLarge);
    }
    let entrypoint: u16 = destination + offset;
    let trampoline_end: u16 = trampoline.end();
    if destination <= trampoline_end && TRAMPOLINE_ADDR <= entrypoint {
        return Err(Error::PayloadWouldOverlap);
    }
    Ok(Handoff { entrypoint, code_start: TRAMPOLINE_ADDR + ENTRY_SLOT_SIZE })
}

/// Copies the payload to `destination`, then the trampoline to
/// `TRAMPOLINE_ADDR`, then writes `entrypoint` into the entrypoint slot.
fn stage(
    memory: &mut [u8],
    trampoline: &Trampoline,
    payload: &[u8],
    destination: u16,
    entrypoint: u16,
)
    requires
        old(memory)@.len() >= LOW_MEMORY_SIZE,
        payload@.len() <= MAX_PAYLOAD_SIZE,
    ensures
        final(memory)@ == staged(old(memory)@, trampoline@, payload@, destination, entrypoint),
{
    let image: &[u8] = trampoline.image();
    store(memory, destination as usize, payload);
    store(memory, TRAMPOLINE_ADDR as usize, image);
    store_u16_le(memory, TRAMPOLINE_ADDR as usize, entrypoint);
}

/// Copy a payload to a destination, then hand off to an offset in it.
///
/// For a GRUB2 `core.img`, the destination and offset should be 0x8000 and
/// 0x200 respectively.
///
/// `memory` is the low-memory window: cell `i` is physical address `i`. A
/// request that is refused leaves it untouched. One that is accepted leaves
/// it staged, and returns the handoff that the caller is to carry out.
pub fn boot_offset(
    memory: &mut [u8],
    trampoline: &Trampoline,
    payload: &[u8],
    destination: u16,
    offset: u16,
) -> (result: Result<Handoff, Error>)
    requires
        old(memory)@.len() >= LOW_MEMORY_SIZE,
        payload@.len() <= MAX_PAYLOAD_SIZE ==> destination + offset <= u16::MAX,
    ensures
        result == validated(payload@.len(), destination, offset, trampoline@.len()),
        payload@.len() > MAX_PAYLOAD_SIZE ==> result == Err::<Handoff, Error>(
            Error::PayloadTooLarge,
        ),
        payload@.len() <= MAX_PAYLOAD_SIZE && placement_conflicts(
            destination,
            offset,
            trampoline@.len(),
        ) ==> result == Err::<Handoff, Error>(Error::PayloadWouldOverlap),
        payload@.len() <= MAX_PAYLOAD_SIZE && !placement_conflicts(
            destination,
            offset,
            trampoline@.len(),
        ) ==> result == Ok::<Handoff, Error>(handoff_to(destination, offset)),
        result is Err ==> final(memory)@ == old(memory)@,
        result is Ok ==> final(memory)@ == staged(
            old(memory)@,
            trampoline@,
            payload@,
            destination,
            (destination + offset) as u16,
        ),
{
    match validate(trampoline, payload, destination, offset) {
        Ok(handoff) => {
            stage(memory, trampoline, payload, destination, handoff.entrypoint);
            Ok(handoff)
        },
        Err(error) => Err(error),
    }
}

/// Copy a payload to a destination, then hand off to it.
///
/// This is equivalent to calling `boot_offset(memory, trampoline, payload,
/// destination, 0)`: the payload is entered where it starts.
pub fn boot(memory: &mut [u8], trampoline: &Trampoline, payload: &[u8], destination: u16) -> (result:
    Result<Handoff, Error>)
    requires
        old(memory)@.len() >= LOW_MEMORY_SIZE,
    ensures
        result == validated(payload@.len(), destination, 0, trampoline@.len()),
        result matches Ok(handoff) ==> handoff.entrypoint == destination,
        final(memory)@ == memory_after(
            result,
            old(memory)@,
            trampoline@,
            payload@,
            destination,
        ),
{
    boot_offset(memory, trampoline, payload, destination, 0)
}

/// Boot a GRUB2 core image: it is loaded at `GRUB2_LOAD_ADDR` and entered
/// `GRUB2_ENTRY_OFFSET` bytes further on.
pub fn boot_grub2(memory: &mut [u8], trampoline: &Trampoline, image: &[u8]) -> (result: Result<
    Handoff,
    Error,
>)
    requires
        old(memory)@.len() >= LOW_MEMORY_SIZE,
    ensures
        result == validated(
            image@.len(),
            GRUB2_LOAD_ADDR,
            GRUB2_ENTRY_OFFSET,
            trampoline@.len(),
        ),
        final(memory)@ == memory_after(
            result,
            old(memory)@,
            trampoline@,
            image@,
            GRUB2_LOAD_ADDR,
        ),
{
    boot_offset(memory, trampoline, image, GRUB2_LOAD_ADDR, GRUB2_ENTRY_OFFSET)
}

/// The sector ends in the boot signature: its last two bytes are `0x55` and
/// `0xaa`.
pub open spec fn has_mbr_magic(sector: Seq<u8>) -> bool {
    &&& sector.len() == MBR_SIZE
    &&& sector[MBR_SIZE - 2] == 0x55
    &&& sector[MBR_SIZE - 1] == 0xaa
}

/// Boot an MBR: a sector that ends in the boot signature is loaded at
/// `MBR_LOAD_ADDR` and entered where it starts. One that does not is
/// refused, and nothing is written.
pub fn boot_mbr(memory: &mut [u8], trampoline: &Trampoline, mbr: &[u8; MBR_SIZE]) -> (result:
    Result<Handoff, Error>)
    requires
        old(memory)@.len() >= LOW_MEMORY_SIZE,
    ensures
        !has_mbr_magic(mbr@) ==> result == Err::<Handoff, Error>(Error::InvalidMbrMagic)
            && final(memory)@ == old(memory)@,
        has_mbr_magic(mbr@) ==> result == validated(
            MBR_SIZE as nat,
            MBR_LOAD_ADDR,
            0,
            trampoline@.len(),
        ),
        final(memory)@ == memory_after(result, old(memory)@, trampoline@, mbr@, MBR_LOAD_ADDR),
{
    if mbr[MBR_SIZE - 2] != 0x55 || mbr[MBR_SIZE - 1] != 0xaa {
        return Err(Error::InvalidMbrMagic);
    }
    boot(memory, trampoline, mbr.as_slice(), MBR_LOAD_ADDR)
}

} // verus!
