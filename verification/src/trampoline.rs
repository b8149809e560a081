//! The mode-transition trampoline, as the loader sees it: a blob of fixed
//! size that starts with the entrypoint slot.

use crate::layout::{ENTRY_SLOT_SIZE, MAX_TRAMPOLINE_SIZE, TRAMPOLINE_ADDR};
use vstd::prelude::*;

verus! {

/// An image of `size` bytes can serve as a trampoline: it holds the
/// entrypoint slot and at least one byte of code behind it, and placed at
/// `TRAMPOLINE_ADDR` its last address is a 16-bit address.
pub open spec fn is_trampoline_size(size: nat) -> bool {
    ENTRY_SLOT_SIZE < size <= MAX_TRAMPOLINE_SIZE
}

/// A trampoline image whose size has been checked.
///
/// The image is built ahead of time and is never changed: the entrypoint is
/// patched into the copy in low memory, not into the image.
pub struct Trampoline<'a> {
    image: &'a [u8],
}

impl<'a> Trampoline<'a> {
    #[verifier::type_invariant]
    closed spec fn sized(self) -> bool {
        is_trampoline_size(self.image@.len())
    }

    /// The bytes of the image.
    pub closed spec fn view(&self) -> Seq<u8> {
        self.image@
    }

    /// Takes `image` as the trampoline, if its size allows it.
    pub fn new(image: &'a [u8]) -> (made: Option<Trampoline<'a>>)
        ensures
            made is Some <==> is_trampoline_size(image@.len()),
            made matches Some(trampoline) ==> trampoline@ == image@,
    {
        let size: usize = image.len();
        if size > ENTRY_SLOT_SIZE as usize && size <= MAX_TRAMPOLINE_SIZE {
            Some(Trampoline { image })
        } else {
            None
        }
    }

    /// The bytes of the image.
    pub fn image(&self) -> (image: &'a [u8])
        ensures
            image@ == self@,
            is_trampoline_size(image@.len()),
    {
        proof {
            use_type_invariant(self);
        }
        self.image
    }

    /// The number of bytes of the image.
    pub fn size(&self) -> (size: u16)
        ensures
            size == self@.len(),
            is_trampoline_size(size as nat),
    {
        proof {
            use_type_invariant(self);
        }
        self.image.len() as u16
    }

    /// The last address of the trampoline's range in low memory.
    pub fn end(&self) -> (end: u16)
        ensures
            end == TRAMPOLINE_ADDR + self@.len(),
    {
        TRAMPOLINE_ADDR + self.size()
    }
}

} // verus!
