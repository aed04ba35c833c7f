use vstd::prelude::*;

verus! {

/// Every way in which decoding a container, or one of its resources, can fail.
#[derive(Debug, Clone, Copy, PartialEq, Eq, Structural)]
pub enum VtfxError {
    /// The buffer does not begin with the `VTFX` marker.
    FormatError,
    /// The buffer is shorter than a fixed-offset read needs.
    TruncatedInputError,
    /// The image format has no registered pixel layout.
    UnsupportedFormatError,
    /// A resource holds fewer bytes than its dimensions and format imply.
    SizeMismatchError,
    /// The LZMA container is malformed or its payload does not decode.
    DecompressionError,
    /// A block-compressed buffer is not a whole number of blocks.
    MalformedBlockError,
    /// A channel is neither 1, 2 nor 4 bytes deep.
    UnsupportedDepthError,
    /// The image format is not block compressed.
    NotBlockCompressedError,
}

} // verus!
