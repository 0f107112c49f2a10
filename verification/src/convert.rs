//! The whole pipeline as one pure transformation: source container bytes in,
//! destination container bytes (or the first failure) out. I/O stays with
//! the caller.

use vstd::prelude::*;
use vstd::math::max;

use crate::bytes::u32_from_le;
use crate::dds::DdsHeaderInfo;
use crate::dds::parse_dds_header;
use crate::dds::spec_format_code;
use crate::dds::spec_height;
use crate::dds::spec_mipmap_count;
use crate::dds::spec_parse_fault;
use crate::dds::spec_parse_ok;
use crate::dds::spec_raw_mipmap_count;
use crate::dds::spec_width;
use crate::error::ConvertError;
use crate::format::get_block_dim;
use crate::format::get_block_size_in_bytes;
use crate::format::get_user_format;
use crate::format::spec_block_dim;
use crate::format::spec_block_size;
use crate::format::spec_user_format;
use crate::tiling::block_height_mip0_log2;
use crate::tiling::div_round_up;
use crate::tiling::spec_block_height_mip0_log2;
use crate::tiling::spec_div_round_up;
use crate::tiling::tile_surface;
use crate::tiling::tiled_surface;
use crate::xt1::emit_container;
use crate::xt1::lemma_xt1_header_layout;
use crate::xt1::spec_xt1_container;
use crate::xt1::spec_xt1_header;

verus! {

/// The conversion of an already parsed source texture: the emitted container
/// bytes, or the first failure. A pixel extent beyond 0x20000 is outside the
/// tiling engine's 32-bit addressing and is rejected as a tiling failure
/// before the engine is invoked; otherwise the tiled payload is whatever the
/// engine returns for the geometry, format metadata, and payload.
pub open spec fn spec_convert_fields(
    width: u32,
    height: u32,
    mipmap_count: u32,
    format_code: u32,
    payload: Seq<u8>,
) -> Result<Seq<u8>, ConvertError> {
    if spec_user_format(format_code) is None || spec_block_size(format_code) is None
        || spec_block_dim(format_code) is None {
        Err(ConvertError::UnsupportedFormat(format_code))
    } else if width > 0x20000 || height > 0x20000 {
        Err(ConvertError::TilingError)
    } else {
        let destination_code = spec_user_format(format_code)->Some_0;
        let block_bytes = spec_block_size(format_code)->Some_0;
        let dim = spec_block_dim(format_code)->Some_0;
        let height_in_blocks = spec_div_round_up(height, dim.1);
        let block_height_log2 = spec_block_height_mip0_log2(height_in_blocks);
        match tiled_surface(
            width,
            height,
            1u32,
            payload,
            dim.0,
            dim.1,
            dim.2,
            block_bytes as u32,
            mipmap_count,
            1u32,
        ) {
            None => Err(ConvertError::TilingError),
            Some(tiled) => Ok(
                spec_xt1_container(
                    mipmap_count,
                    destination_code,
                    width,
                    height,
                    block_height_log2,
                    tiled,
                ),
            ),
        }
    }
}

/// The conversion of a whole source container, from its raw bytes.
pub open spec fn spec_convert(input: Seq<u8>) -> Result<Seq<u8>, ConvertError> {
    if !spec_parse_ok(input) {
        Err(ConvertError::FormatError(spec_parse_fault(input)))
    } else {
        spec_convert_fields(
            spec_width(input),
            spec_height(input),
            spec_mipmap_count(input),
            spec_format_code(input),
            input.skip(148),
        )
    }
}

/// Converts a parsed source texture: maps the format code, lets the tiling
/// engine transform the payload, and serializes the destination container.
/// Fails with `UnsupportedFormat` exactly on codes outside the fixed
/// enumeration, before any tiling, and with `TilingError` exactly where the
/// geometry lies beyond the engine's 32-bit addressing or the engine rejects
/// the surface.
pub fn convert_parsed(header: DdsHeaderInfo) -> (r: Result<Vec<u8>, ConvertError>)
    ensures
        r is Ok <==> spec_convert_fields(
            header.width,
            header.height,
            header.mipmap_count,
            header.dxgi_format_value,
            header.data@,
        ) is Ok,
        r matches Ok(out) ==> out@ == spec_convert_fields(
            header.width,
            header.height,
            header.mipmap_count,
            header.dxgi_format_value,
            header.data@,
        )->Ok_0,
        r matches Err(e) ==> e == spec_convert_fields(
            header.width,
            header.height,
            header.mipmap_count,
            header.dxgi_format_value,
            header.data@,
        )->Err_0,
{
    let code: u32 = header.dxgi_format_value;
    let destination_code: u32 = match get_user_format(code) {
        Some(d) => d,
        None => {
            return Err(ConvertError::UnsupportedFormat(code));
        },
    };
    let block_bytes: usize = match get_block_size_in_bytes(code) {
        Some(b) => b,
        None => {
            return Err(ConvertError::UnsupportedFormat(code));
        },
    };
    let dim: (u32, u32, u32) = match get_block_dim(code) {
        Some(d) => d,
        None => {
            return Err(ConvertError::UnsupportedFormat(code));
        },
    };
    proof {
        crate::format::lemma_format_tables_agree(code);
    }
    if header.width > 0x20000 || header.height > 0x20000 {
        return Err(ConvertError::TilingError);
    }
    let height_in_blocks: u32 = div_round_up(header.height, dim.1);
    let block_height_log2: u8 = block_height_mip0_log2(height_in_blocks);
    let tiled: Vec<u8> = match tile_surface(
        header.width,
        header.height,
        1,
        &header.data,
        dim.0,
        dim.1,
        dim.2,
        block_bytes as u32,
        header.mipmap_count,
        1,
    ) {
        Ok(t) => t,
        Err(e) => {
            return Err(e);
        },
    };
    Ok(
        emit_container(
            destination_code,
            header.width,
            header.height,
            header.mipmap_count,
            block_height_log2,
            tiled,
        ),
    )
}

/// Runs the whole pipeline on the raw bytes of a source container and
/// returns the bytes of the destination container, or the first failure:
/// `FormatError` for a malformed container, `UnsupportedFormat` for a format
/// code outside the fixed enumeration, `TilingError` where the geometry lies
/// beyond the engine's 32-bit addressing or the engine rejects the surface.
pub fn convert_dds(input: &Vec<u8>) -> (r: Result<Vec<u8>, ConvertError>)
    ensures
        r is Ok <==> spec_convert(input@) is Ok,
        r matches Ok(out) ==> out@ == spec_convert(input@)->Ok_0,
        r matches Err(e) ==> e == spec_convert(input@)->Err_0,
{
    let header: DdsHeaderInfo = match parse_dds_header(input) {
        Ok(h) => h,
        Err(e) => {
            return Err(e);
        },
    };
    convert_parsed(header)
}

/// Law: the conversion is a pure function of the input bytes, so running it
/// twice on the same input produces byte-identical output.
pub proof fn lemma_conversion_deterministic(first: Seq<u8>, second: Seq<u8>)
    requires
        first == second,
    ensures
        spec_convert(first) == spec_convert(second),
{
}

/// Law: on every input the conversion accepts, the mipmap-count field of the
/// emitted header equals max(raw source mipmap count, 1); in particular a
/// source that declares zero mip levels yields a destination declaring one.
pub proof fn lemma_emitted_mipmap_count(input: Seq<u8>)
    requires
        spec_convert(input) is Ok,
    ensures
        ({
            let out = spec_convert(input)->Ok_0;
            u32_from_le(out.subrange(0x14, 0x18)) == max(spec_raw_mipmap_count(input) as int, 1)
        }),
{
    let out = spec_convert(input)->Ok_0;
    let mips = spec_mipmap_count(input);
    lemma_convert_output_shape(input);
    let hdr = spec_convert_header(input);
    assert(out.subrange(0x14, 0x18) =~= hdr.subrange(0x14, 0x18));
    crate::bytes::lemma_u32_le_round_trip(mips);
}

/// Law: the emitted header's width and height equal the parsed source
/// geometry exactly, and its depth field is always 1.
pub proof fn lemma_round_trip_geometry(input: Seq<u8>)
    requires
        spec_convert(input) is Ok,
    ensures
        ({
            let out = spec_convert(input)->Ok_0;
            &&& u32_from_le(out.subrange(0x20, 0x24)) == spec_width(input)
            &&& u32_from_le(out.subrange(0x24, 0x28)) == spec_height(input)
            &&& u32_from_le(out.subrange(0x28, 0x2C)) == 1
        }),
{
    let out = spec_convert(input)->Ok_0;
    lemma_convert_output_shape(input);
    let hdr = spec_convert_header(input);
    assert(out.subrange(0x20, 0x24) =~= hdr.subrange(0x20, 0x24));
    assert(out.subrange(0x24, 0x28) =~= hdr.subrange(0x24, 0x28));
    assert(out.subrange(0x28, 0x2C) =~= hdr.subrange(0x28, 0x2C));
    crate::bytes::lemma_u32_le_round_trip(spec_width(input));
    crate::bytes::lemma_u32_le_round_trip(spec_height(input));
    crate::bytes::lemma_u32_le_round_trip(1);
}

/// Law: three words of the emitted container never vary: the magic tag at
/// offset 0, the header size 0x38 at offset 0x10, and the trailing constant
/// 65543 at offset 0x34.
pub proof fn lemma_fixed_constants(input: Seq<u8>)
    requires
        spec_convert(input) is Ok,
    ensures
        ({
            let out = spec_convert(input)->Ok_0;
            &&& out.len() >= 56
            &&& u32_from_le(out.subrange(0x00, 0x04)) == 0x00315458
            &&& u32_from_le(out.subrange(0x10, 0x14)) == 0x38
            &&& u32_from_le(out.subrange(0x34, 0x38)) == 65543
        }),
{
    let out = spec_convert(input)->Ok_0;
    lemma_convert_output_shape(input);
    let hdr = spec_convert_header(input);
    assert(out.subrange(0x00, 0x04) =~= hdr.subrange(0x00, 0x04));
    assert(out.subrange(0x10, 0x14) =~= hdr.subrange(0x10, 0x14));
    assert(out.subrange(0x34, 0x38) =~= hdr.subrange(0x34, 0x38));
    crate::bytes::lemma_u32_le_round_trip(0x00315458);
    crate::bytes::lemma_u32_le_round_trip(0x38);
    crate::bytes::lemma_u32_le_round_trip(65543);
}

/// The tiled payload inside an accepted conversion's output.
pub open spec fn spec_convert_tiled(input: Seq<u8>) -> Seq<u8>
    recommends
        spec_convert(input) is Ok,
{
    tiled_surface(
        spec_width(input),
        spec_height(input),
        1u32,
        input.skip(148),
        spec_block_dim(spec_format_code(input))->Some_0.0,
        spec_block_dim(spec_format_code(input))->Some_0.1,
        spec_block_dim(spec_format_code(input))->Some_0.2,
        spec_block_size(spec_format_code(input))->Some_0 as u32,
        spec_mipmap_count(input),
        1u32,
    )->Some_0
}

/// The 56-byte header inside an accepted conversion's output.
pub open spec fn spec_convert_header(input: Seq<u8>) -> Seq<u8>
    recommends
        spec_convert(input) is Ok,
{
    spec_xt1_header(
        spec_convert_tiled(input).len() as u64,
        spec_mipmap_count(input),
        spec_user_format(spec_format_code(input))->Some_0,
        spec_width(input),
        spec_height(input),
        spec_block_height_mip0_log2(
            spec_div_round_up(spec_height(input), spec_block_dim(spec_format_code(input))->Some_0.1),
        ),
    )
}

/// On every accepted input the output is the 56-byte header followed by the
/// tiled payload, and nothing else.
pub proof fn lemma_convert_output_shape(input: Seq<u8>)
    requires
        spec_convert(input) is Ok,
    ensures
        spec_convert(input)->Ok_0 == spec_convert_header(input) + spec_convert_tiled(input),
        spec_convert_header(input).len() == 56,
{
    let tiled = spec_convert_tiled(input);
    let mips = spec_mipmap_count(input);
    let code = spec_format_code(input);
    lemma_xt1_header_layout(
        tiled.len() as u64,
        mips,
        spec_user_format(code)->Some_0,
        spec_width(input),
        spec_height(input),
        spec_block_height_mip0_log2(
            spec_div_round_up(spec_height(input), spec_block_dim(code)->Some_0.1),
        ),
    );
}

} // verus!
