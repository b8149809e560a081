//! Low memory as a sequence of bytes, and the stores that the loader makes into it.

use vstd::prelude::*;

verus! {

/// Memory after `bytes` have been stored from address `addr` on: the cells
/// `addr .. addr + bytes.len()` hold `bytes`, every other cell is as before.
pub open spec fn stored(memory: Seq<u8>, addr: int, bytes: Seq<u8>) -> Seq<u8> {
    Seq::new(
        memory.len(),
        |at: int|
            if addr <= at < addr + bytes.len() {
                bytes[at - addr]
            } else {
                memory[at]
            },
    )
}

/// The two bytes that hold `value` in little-endian order.
pub open spec fn le_bytes(value: u16) -> Seq<u8> {
    seq![(value % 0x100) as u8, (value / 0x100) as u8]
}

/// Copies `bytes` into `memory`, from address `addr` on.
pub fn store(memory: &mut [u8], addr: usize, bytes: &[u8])
    requires
        addr + bytes@.len() <= old(memory)@.len(),
    ensures
        final(memory)@ == stored(old(memory)@, addr as int, bytes@),
{
    let size: usize = bytes.len();
    let limit: usize = memory.len();
    let mut done: usize = 0;
    while done < size
        invariant
            size == bytes@.len(),
            limit == memory@.len(),
            done <= size,
            addr + size <= limit,
            memory@ == stored(old(memory)@, addr as int, bytes@.subrange(0, done as int)),
        decreases size - done,
    {
        memory[addr + done] = bytes[done];
        done = done + 1;
    }
    assert(bytes@.subrange(0, done as int) == bytes@);
}

/// Writes `value` into the two cells at `addr`, low byte first.
pub fn store_u16_le(memory: &mut [u8], addr: usize, value: u16)
    requires
        addr + 2 <= old(memory)@.len(),
    ensures
        final(memory)@ == stored(old(memory)@, addr as int, le_bytes(value)),
{
    let low: u8 = (value & 0xff) as u8;
    let high: u8 = (value >> 8) as u8;
    assert(low == value % 0x100 && high == value / 0x100) by (bit_vector)
        requires
            low == (value & 0xff) as u8,
            high == (value >> 8) as u8,
    ;
    memory[addr] = low;
    memory[addr + 1] = high;
}

} // verus!
