//! The one option that a runtime sets for the registry.

use vstd::prelude::*;

verus! {

/// What a runtime configures.
pub trait Config {
    /// The largest number of bytes that a fingerprint may hold.
    const MAX_BYTES_IN_HASH: u32;
}

} // verus!
