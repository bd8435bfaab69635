//! Failure conditions reported by the decoder and the protocol registry.

use vstd::prelude::*;

verus! {

/// Why a call could not complete.
#[derive(Debug)]
pub enum Error {
    /// The buffer cannot hold the fixed header, or, for a recognized
    /// message type, that type's fixed suffix. `required` is the least
    /// length that would do, `available` what was supplied, and `data`
    /// a lowercase hexadecimal dump of the supplied bytes.
    TooShort { required: usize, available: usize, data: String },
    /// The protocol number is already bound in the registry.
    RegisterError { protocol: u8 },
}

} // verus!
