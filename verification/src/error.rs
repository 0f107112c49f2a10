//! The error kinds with which a conversion run aborts.

use vstd::prelude::*;

verus! {

/// The precise way in which a source container failed structural validation.
#[derive(Clone, Copy, Debug, PartialEq, Eq, Structural)]
pub enum FormatFault {
    /// The input holds fewer bytes than the 128-byte legacy header plus the
    /// 20-byte DX10 extension header.
    Truncated,
    /// The first four bytes are not the DDS magic tag.
    BadMagic,
    /// The pixel-format sub-block declares a size other than 32 bytes; the
    /// declared value is carried for diagnostics.
    BadPixelFormatSize(u32),
    /// The pixel-format flags do not mark a four-character code, or the code
    /// is not the DX10 tag.
    MissingDx10,
}

/// A failure that aborts the conversion. No error is recovered locally.
#[derive(Clone, Copy, Debug, PartialEq, Eq, Structural)]
pub enum ConvertError {
    /// The source container is malformed or is not the supported DX10 variant.
    FormatError(FormatFault),
    /// The source format code is outside the fixed enumeration of supported
    /// block-compressed formats; the offending code is carried.
    UnsupportedFormat(u32),
    /// The tiling engine rejected the geometry, format, and payload combination.
    TilingError,
}

} // verus!
