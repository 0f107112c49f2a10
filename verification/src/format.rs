//! The fixed mapping from the source container's pixel-format enumeration to
//! the destination platform's format code, block byte-size, and block
//! footprint. The supported domain is a closed enumeration of
//! block-compressed formats; any other code is unsupported, with no fallback.

use vstd::prelude::*;

verus! {

/// The destination format code for a source format code, or `None` where the
/// code is outside the supported enumeration.
pub open spec fn spec_user_format(code: u32) -> Option<u32> {
    if code == 71 {
        Some(0x42u32)
    } else if code == 72 {
        Some(0x46u32)
    } else if code == 74 {
        Some(0x43u32)
    } else if code == 75 {
        Some(0x47u32)
    } else if code == 77 {
        Some(0x44u32)
    } else if code == 78 {
        Some(0x48u32)
    } else if code == 80 {
        Some(0x45u32)
    } else if code == 81 {
        Some(0x49u32)
    } else if code == 83 {
        Some(0x4Bu32)
    } else if code == 84 {
        Some(0x4Cu32)
    } else if code == 98 {
        Some(0x4Du32)
    } else if code == 99 {
        Some(0x4Eu32)
    } else if code == 95 {
        Some(0x50u32)
    } else if code == 96 {
        Some(0x51u32)
    } else if code == 134 {
        Some(0x79u32)
    } else if code == 135 {
        Some(0x87u32)
    } else if code == 142 {
        Some(0x7Bu32)
    } else if code == 143 {
        Some(0x89u32)
    } else if code == 150 {
        Some(0x7Du32)
    } else if code == 151 {
        Some(0x8Bu32)
    } else if code == 162 {
        Some(0x80u32)
    } else if code == 163 {
        Some(0x8Eu32)
    } else if code == 178 {
        Some(0x84u32)
    } else if code == 179 {
        Some(0x92u32)
    } else if code == 186 {
        Some(0x3Au32)
    } else if code == 187 {
        Some(0x94u32)
    } else {
        None
    }
}

/// The compressed block byte-size for a source format code, or `None` where
/// the code is outside the supported enumeration.
pub open spec fn spec_block_size(code: u32) -> Option<usize> {
    if code == 71 || code == 72 || code == 80 || code == 81 || code == 95 || code == 96 {
        Some(8usize)
    } else if code == 74 || code == 75 || code == 77 || code == 78 || code == 83 || code == 84
        || code == 98 || code == 99 {
        Some(16usize)
    } else if code == 134 || code == 135 || code == 142 || code == 143 || code == 150 || code == 151
        || code == 162 || code == 163 || code == 178 || code == 179 || code == 186 || code == 187 {
        Some(16usize)
    } else {
        None
    }
}

/// The block footprint in pixels (width, height, depth) for a source format
/// code, or `None` where the code is outside the supported enumeration.
pub open spec fn spec_block_dim(code: u32) -> Option<(u32, u32, u32)> {
    if code == 71 || code == 72 || code == 74 || code == 75 || code == 77 || code == 78
        || code == 80 || code == 81 || code == 83 || code == 84 || code == 95 || code == 96
        || code == 98 || code == 99 || code == 134 || code == 135 {
        Some((4u32, 4u32, 1u32))
    } else if code == 142 || code == 143 {
        Some((5u32, 5u32, 1u32))
    } else if code == 150 || code == 151 {
        Some((6u32, 6u32, 1u32))
    } else if code == 162 || code == 163 {
        Some((8u32, 8u32, 1u32))
    } else if code == 178 || code == 179 {
        Some((10u32, 10u32, 1u32))
    } else if code == 186 || code == 187 {
        Some((12u32, 12u32, 1u32))
    } else {
        None
    }
}

/// Destination format code for a source format code.
pub fn get_user_format(dxgi_format_value: u32) -> (r: Option<u32>)
    ensures
        r == spec_user_format(dxgi_format_value),
{
    match dxgi_format_value {
        71 => Some(0x42),
        72 => Some(0x46),
        74 => Some(0x43),
        75 => Some(0x47),
        77 => Some(0x44),
        78 => Some(0x48),
        80 => Some(0x45),
        81 => Some(0x49),
        83 => Some(0x4B),
        84 => Some(0x4C),
        98 => Some(0x4D),
        99 => Some(0x4E),
        95 => Some(0x50),
        96 => Some(0x51),
        134 => Some(0x79),
        135 => Some(0x87),
        142 => Some(0x7B),
        143 => Some(0x89),
        150 => Some(0x7D),
        151 => Some(0x8B),
        162 => Some(0x80),
        163 => Some(0x8E),
        178 => Some(0x84),
        179 => Some(0x92),
        186 => Some(0x3A),
        187 => Some(0x94),
        _ => None,
    }
}

/// Compressed block byte-size for a source format code.
pub fn get_block_size_in_bytes(dxgi_format_value: u32) -> (r: Option<usize>)
    ensures
        r == spec_block_size(dxgi_format_value),
{
    match dxgi_format_value {
        71 | 72 | 80 | 81 | 95 | 96 => Some(8),
        74 | 75 | 77 | 78 | 83 | 84 | 98 | 99 => Some(16),
        134 | 135 | 142 | 143 | 150 | 151 | 162 | 163 | 178 | 179 | 186 | 187 => Some(16),
        _ => None,
    }
}

/// Block footprint in pixels (width, height, depth) for a source format code.
pub fn get_block_dim(dxgi_format_value: u32) -> (r: Option<(u32, u32, u32)>)
    ensures
        r == spec_block_dim(dxgi_format_value),
{
    match dxgi_format_value {
        71 | 72 | 74 | 75 | 77 | 78 | 80 | 81 | 83 | 84 | 95 | 96 | 98 | 99 | 134 | 135 => Some(
            (4, 4, 1),
        ),
        142 | 143 => Some((5, 5, 1)),
        150 | 151 => Some((6, 6, 1)),
        162 | 163 => Some((8, 8, 1)),
        178 | 179 => Some((10, 10, 1)),
        186 | 187 => Some((12, 12, 1)),
        _ => None,
    }
}

/// The three format tables agree: a format code is mapped by all three
/// functions or by none. Moreover every supported block byte-size is 8 or 16,
/// and every supported block footprint is square with depth 1 and an edge
/// among 4, 5, 6, 8, 10, and 12.
pub proof fn lemma_format_tables_agree(code: u32)
    ensures
        spec_user_format(code) is Some <==> spec_block_size(code) is Some,
        spec_user_format(code) is Some <==> spec_block_dim(code) is Some,
        spec_block_size(code) matches Some(bb) ==> bb == 8 || bb == 16,
        spec_block_dim(code) matches Some(d) ==> d.2 == 1 && d.0 == d.1 && (d.0 == 4 || d.0 == 5
            || d.0 == 6 || d.0 == 8 || d.0 == 10 || d.0 == 12),
{
}

} // verus!
