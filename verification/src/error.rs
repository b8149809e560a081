//! The reasons for which a payload is refused.

use vstd::prelude::*;

verus! {

/// Why a boot request was refused.
///
/// Every refusal is decided before a single byte of low memory is written,
/// so a caller that receives one finds the machine as it left it.
#[derive(Debug, Clone, Copy, PartialEq, Eq)]
#[non_exhaustive]
pub enum Error {
    /// The payload is too large.
    PayloadTooLarge,
    /// The payload would overlap with the trampoline.
    PayloadWouldOverlap,
    /// The MBR magic is invalid.
    InvalidMbrMagic,
}

} // verus!
