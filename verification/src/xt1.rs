//! Serialization of the destination container: a fixed 56-byte header
//! followed immediately by the tiled payload, no padding, footer, or
//! checksum. All fields are little-endian.

use vstd::prelude::*;

use crate::bytes::push_u32_le;
use crate::bytes::push_u64_le;
use crate::bytes::u32_to_le;
use crate::bytes::u64_to_le;

verus! {

/// The 56-byte destination header, field by field: magic tag, constant
/// attribute word, tiled payload size, header size, mipmap count,
/// dimensionality (fixed to 2D), destination format code, width, height,
/// depth (fixed 1), reserved word, the base-level block-height exponent,
/// three reserved bytes, and the constant trailing word.
pub open spec fn spec_xt1_header(
    payload_size: u64,
    mipmap_count: u32,
    destination_code: u32,
    width: u32,
    height: u32,
    block_height_log2: u8,
) -> Seq<u8> {
    u32_to_le(0x00315458) + u32_to_le(0x01000101) + u64_to_le(payload_size) + u32_to_le(0x38)
        + u32_to_le(mipmap_count) + u32_to_le(1) + u32_to_le(destination_code) + u32_to_le(width)
        + u32_to_le(height) + u32_to_le(1) + u32_to_le(0) + seq![block_height_log2, 0u8, 0u8, 0u8]
        + u32_to_le(65543)
}

/// The complete destination container: the 56-byte header, then every byte
/// of the tiled payload.
pub open spec fn spec_xt1_container(
    mipmap_count: u32,
    destination_code: u32,
    width: u32,
    height: u32,
    block_height_log2: u8,
    tiled: Seq<u8>,
) -> Seq<u8> {
    spec_xt1_header(
        tiled.len() as u64,
        mipmap_count,
        destination_code,
        width,
        height,
        block_height_log2,
    ) + tiled
}

/// Serializes the destination container from the validated geometry, format
/// metadata, and tiled payload. The payload-size field always holds the
/// tiled payload's byte length.
pub fn emit_container(
    destination_code: u32,
    width: u32,
    height: u32,
    mipmap_count: u32,
    block_height_log2: u8,
    tiled: Vec<u8>,
) -> (out: Vec<u8>)
    ensures
        out@ == spec_xt1_container(
            mipmap_count,
            destination_code,
            width,
            height,
            block_height_log2,
            tiled@,
        ),
        out@.len() == 56 + tiled@.len(),
{
    let payload_size: u64 = tiled.len() as u64;
    let mut out: Vec<u8> = Vec::new();
    push_u32_le(&mut out, 0x00315458);
    push_u32_le(&mut out, 0x01000101);
    push_u64_le(&mut out, payload_size);
    push_u32_le(&mut out, 0x38);
    push_u32_le(&mut out, mipmap_count);
    push_u32_le(&mut out, 1);
    push_u32_le(&mut out, destination_code);
    push_u32_le(&mut out, width);
    push_u32_le(&mut out, height);
    push_u32_le(&mut out, 1);
    push_u32_le(&mut out, 0);
    out.push(block_height_log2);
    out.push(0);
    out.push(0);
    out.push(0);
    push_u32_le(&mut out, 65543);
    let mut rest: Vec<u8> = tiled;
    out.append(&mut rest);
    proof {
        assert(out@ =~= spec_xt1_container(
            mipmap_count,
            destination_code,
            width,
            height,
            block_height_log2,
            tiled@,
        ));
    }
    out
}

/// Where each field sits in the serialized header: the byte ranges of the
/// 56-byte record, by offset.
pub proof fn lemma_xt1_header_layout(
    payload_size: u64,
    mipmap_count: u32,
    destination_code: u32,
    width: u32,
    height: u32,
    block_height_log2: u8,
)
    ensures
        ({
            let h = spec_xt1_header(
                payload_size,
                mipmap_count,
                destination_code,
                width,
                height,
                block_height_log2,
            );
            &&& h.len() == 56
            &&& h.subrange(0x00, 0x04) == u32_to_le(0x00315458)
            &&& h.subrange(0x04, 0x08) == u32_to_le(0x01000101)
            &&& h.subrange(0x08, 0x10) == u64_to_le(payload_size)
            &&& h.subrange(0x10, 0x14) == u32_to_le(0x38)
            &&& h.subrange(0x14, 0x18) == u32_to_le(mipmap_count)
            &&& h.subrange(0x18, 0x1C) == u32_to_le(1)
            &&& h.subrange(0x1C, 0x20) == u32_to_le(destination_code)
            &&& h.subrange(0x20, 0x24) == u32_to_le(width)
            &&& h.subrange(0x24, 0x28) == u32_to_le(height)
            &&& h.subrange(0x28, 0x2C) == u32_to_le(1)
            &&& h.subrange(0x2C, 0x30) == u32_to_le(0)
            &&& h[0x30] == block_height_log2
            &&& h[0x31] == 0
            &&& h[0x32] == 0
            &&& h[0x33] == 0
            &&& h.subrange(0x34, 0x38) == u32_to_le(65543)
        }),
{
    let h = spec_xt1_header(
        payload_size,
        mipmap_count,
        destination_code,
        width,
        height,
        block_height_log2,
    );
    assert(h.subrange(0x00, 0x04) =~= u32_to_le(0x00315458));
    assert(h.subrange(0x04, 0x08) =~= u32_to_le(0x01000101));
    assert(h.subrange(0x08, 0x10) =~= u64_to_le(payload_size));
    assert(h.subrange(0x10, 0x14) =~= u32_to_le(0x38));
    assert(h.subrange(0x14, 0x18) =~= u32_to_le(mipmap_count));
    assert(h.subrange(0x18, 0x1C) =~= u32_to_le(1));
    assert(h.subrange(0x1C, 0x20) =~= u32_to_le(destination_code));
    assert(h.subrange(0x20, 0x24) =~= u32_to_le(width));
    assert(h.subrange(0x24, 0x28) =~= u32_to_le(height));
    assert(h.subrange(0x28, 0x2C) =~= u32_to_le(1));
    assert(h.subrange(0x2C, 0x30) =~= u32_to_le(0));
    assert(h.subrange(0x34, 0x38) =~= u32_to_le(65543));
}

} // verus!
