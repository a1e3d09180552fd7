//! The error side of the texture decoder's contract.

use vstd::prelude::*;

verus! {

/// Why a decoder turned a resource's bytes down. This is a fault of the
/// content, not of the backend that delivered it.
#[derive(Clone, Copy, Debug, PartialEq, Eq, Structural)]
pub enum TextureError {
    /// The bytes are not a well-formed image.
    Corrupt,
    /// The bytes are an image of a kind the decoder does not read.
    Unsupported,
}

} // verus!
