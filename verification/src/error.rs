//! The ways in which decoding a coin-spend record can fail.

use vstd::prelude::*;

verus! {

/// Why a record could not be decoded. A decoder that merely does not match
/// its puzzle is not an error: it answers `None`.
#[derive(Debug, Clone, Copy, PartialEq, Eq, Structural)]
pub enum DecodeError {
    /// The bytes are not the serialization of one program tree: a length
    /// prefix is invalid, the input ends early, or bytes follow the tree.
    MalformedEncoding,
    /// A hexadecimal field has odd length or holds a character that is no
    /// hexadecimal digit.
    HexDecodeError,
    /// A fixed-size field decoded to another number of bytes than it must
    /// have.
    FixedSizeMismatch,
    /// A puzzle has the shape of the state layer, but its metadata does not
    /// follow the metadata schema.
    MetadataSchemaError,
    /// More layers are nested than the depth bound admits.
    DepthExceeded,
}

} // verus!
