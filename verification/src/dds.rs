//! Parsing and strict validation of the source container: a 128-byte legacy
//! header followed by a 20-byte DX10 extension header, then the pixel
//! payload. All header fields are little-endian 32-bit unsigned integers.
//!
//! The payload length is deliberately not checked against the geometry; the
//! tiling engine is the first place a short payload is noticed.

use vstd::prelude::*;

use crate::bytes::u32_from_le;
use crate::bytes::read_u32_le;
use crate::error::ConvertError;
use crate::error::FormatFault;

verus! {

/// The little-endian 32-bit field stored at offset `off` of the input.
pub open spec fn spec_field_at(b: Seq<u8>, off: int) -> u32
    recommends
        0 <= off,
        off + 4 <= b.len(),
{
    u32_from_le(b.subrange(off, off + 4))
}

/// Whether the input passes every structural check of the header parser:
/// it holds the two headers in full, starts with the DDS magic tag, declares
/// the 32-byte pixel-format sub-block, and marks the DX10 four-character code.
pub open spec fn spec_parse_ok(b: Seq<u8>) -> bool {
    &&& b.len() >= 148
    &&& spec_field_at(b, 0) == 0x20534444
    &&& spec_field_at(b, 76) == 32
    &&& spec_field_at(b, 80) & 0x4 != 0
    &&& spec_field_at(b, 84) == 0x30315844
}

/// The first structural check that the input fails, in the order the parser
/// applies them.
pub open spec fn spec_parse_fault(b: Seq<u8>) -> FormatFault
    recommends
        !spec_parse_ok(b),
{
    if b.len() < 148 {
        FormatFault::Truncated
    } else if spec_field_at(b, 0) != 0x20534444 {
        FormatFault::BadMagic
    } else if spec_field_at(b, 76) != 32 {
        FormatFault::BadPixelFormatSize(spec_field_at(b, 76))
    } else {
        FormatFault::MissingDx10
    }
}

/// The declared header-size field. A value other than 124 marks a
/// non-conforming producer; it is tolerated, never fatal.
pub open spec fn spec_header_size_field(b: Seq<u8>) -> u32 {
    spec_field_at(b, 4)
}

/// The texture height in pixels.
pub open spec fn spec_height(b: Seq<u8>) -> u32 {
    spec_field_at(b, 12)
}

/// The texture width in pixels.
pub open spec fn spec_width(b: Seq<u8>) -> u32 {
    spec_field_at(b, 16)
}

/// The mipmap count exactly as the header declares it, before normalization.
pub open spec fn spec_raw_mipmap_count(b: Seq<u8>) -> u32 {
    spec_field_at(b, 28)
}

/// The normalized mipmap count: a header-declared 0 means one level.
pub open spec fn spec_mipmap_count(b: Seq<u8>) -> u32 {
    if spec_raw_mipmap_count(b) == 0 {
        1u32
    } else {
        spec_raw_mipmap_count(b)
    }
}

/// The raw pixel-format code from the DX10 extension header's first field.
pub open spec fn spec_format_code(b: Seq<u8>) -> u32 {
    spec_field_at(b, 128)
}

/// The geometry, format code, and payload extracted from a valid source
/// container. Immutable after creation.
#[derive(Debug)]
pub struct DdsHeaderInfo {
    /// Texture width in pixels.
    pub width: u32,
    /// Texture height in pixels.
    pub height: u32,
    /// Number of mip levels, already normalized so that it is at least 1.
    pub mipmap_count: u32,
    /// Raw pixel-format identifier from the DX10 extension header.
    pub dxgi_format_value: u32,
    /// The header-size field as declared, kept so a caller can warn when a
    /// producer wrote something other than 124.
    pub header_size_field: u32,
    /// Every byte following the two headers, owned by the pipeline.
    pub data: Vec<u8>,
}

/// Validates the two fixed headers and extracts geometry, format code, and
/// payload. Fails exactly on the inputs that fail a structural check, with
/// the first failed check named in the error; a nonstandard header-size field
/// alone never fails.
pub fn parse_dds_header(input: &Vec<u8>) -> (r: Result<DdsHeaderInfo, ConvertError>)
    ensures
        r is Ok <==> spec_parse_ok(input@),
        r matches Ok(h) ==> {
            &&& h.width == spec_width(input@)
            &&& h.height == spec_height(input@)
            &&& h.mipmap_count == spec_mipmap_count(input@)
            &&& h.mipmap_count >= 1
            &&& h.dxgi_format_value == spec_format_code(input@)
            &&& h.header_size_field == spec_header_size_field(input@)
            &&& h.data@ == input@.skip(148)
        },
        r matches Err(e) ==> e == ConvertError::FormatError(spec_parse_fault(input@)),
{
    let n: usize = input.len();
    if n < 148 {
        return Err(ConvertError::FormatError(FormatFault::Truncated));
    }
    let dw_magic: u32 = read_u32_le(input, 0);
    if dw_magic != 0x20534444 {
        return Err(ConvertError::FormatError(FormatFault::BadMagic));
    }
    let dw_size: u32 = read_u32_le(input, 4);
    let dw_height: u32 = read_u32_le(input, 12);
    let dw_width: u32 = read_u32_le(input, 16);
    let dw_mipmap_count: u32 = read_u32_le(input, 28);
    let ddspf_size: u32 = read_u32_le(input, 76);
    if ddspf_size != 32 {
        return Err(ConvertError::FormatError(FormatFault::BadPixelFormatSize(ddspf_size)));
    }
    let ddspf_flags: u32 = read_u32_le(input, 80);
    let ddspf_fourcc: u32 = read_u32_le(input, 84);
    if !(ddspf_flags & 0x4 != 0 && ddspf_fourcc == 0x30315844) {
        return Err(ConvertError::FormatError(FormatFault::MissingDx10));
    }
    let dxgi_format_value: u32 = read_u32_le(input, 128);
    let mut data: Vec<u8> = Vec::new();
    let mut i: usize = 148;
    while i < n
        invariant
            148 <= i <= n,
            n == input@.len(),
            data@ == input@.subrange(148, i as int),
        decreases n - i,
    {
        data.push(input[i]);
        i = i + 1;
        proof {
            assert(data@ =~= input@.subrange(148, i as int));
        }
    }
    proof {
        assert(data@ =~= input@.skip(148));
    }
    let mipmap_count: u32 = if dw_mipmap_count == 0 {
        1
    } else {
        dw_mipmap_count
    };
    Ok(DdsHeaderInfo {
        width: dw_width,
        height: dw_height,
        mipmap_count,
        dxgi_format_value,
        header_size_field: dw_size,
        data,
    })
}

} // verus!
