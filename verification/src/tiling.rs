//! The adapter around the external block-linear tiling engine. The engine is
//! a black box: the tiled bytes it returns are named, not written out, and
//! everything downstream is verified for whatever value the name denotes.

use vstd::prelude::*;
use vstd::arithmetic::div_mod::lemma_div_multiples_vanish_fancy;
use vstd::arithmetic::div_mod::lemma_fundamental_div_mod;

use crate::error::ConvertError;

verus! {

/// `x / d` rounded up instead of truncated.
pub open spec fn spec_div_round_up(x: u32, d: u32) -> u32
    recommends
        1 <= d,
{
    (((x as int) + (d as int) - 1) / (d as int)) as u32
}

/// Division rounding up, used to turn a pixel extent into a block count.
pub fn div_round_up(x: u32, d: u32) -> (r: u32)
    requires
        1 <= d,
    ensures
        r == spec_div_round_up(x, d),
{
    let q: u32 = x / d;
    let rem: u32 = x % d;
    proof {
        let xi = x as int;
        let di = d as int;
        let qi = q as int;
        let ri = rem as int;
        lemma_fundamental_div_mod(xi, di);
        if rem == 0 {
            lemma_div_multiples_vanish_fancy(qi, di - 1, di);
            assert(di * qi + (di - 1) == xi + di - 1);
        } else {
            lemma_div_multiples_vanish_fancy(qi + 1, ri - 1, di);
            assert(di * (qi + 1) + (ri - 1) == xi + di - 1) by (nonlinear_arith)
                requires
                    xi == di * qi + ri,
            ;
            assert(di * qi >= 2 * qi) by (nonlinear_arith)
                requires
                    di >= 2,
                    qi >= 0,
            ;
        }
    }
    if rem == 0 {
        q
    } else {
        q + 1
    }
}

/// The tiling engine's block-height classification for the base mip level,
/// as a count of GOBs: fixed thresholds on `h + h / 2` select 16, 8, 4, 2,
/// or 1.
pub open spec fn spec_block_height_mip0(height_in_blocks: u32) -> u32 {
    let s = height_in_blocks as int + height_in_blocks as int / 2;
    if s >= 128 {
        16u32
    } else if s >= 64 {
        8u32
    } else if s >= 32 {
        4u32
    } else if s >= 16 {
        2u32
    } else {
        1u32
    }
}

/// The "maximum block height" exponent written into the destination header:
/// the log2 of the tiling engine's block height for the base mip level.
pub open spec fn spec_block_height_mip0_log2(height_in_blocks: u32) -> u8 {
    let bh = spec_block_height_mip0(height_in_blocks);
    if bh == 1 {
        0u8
    } else if bh == 2 {
        1u8
    } else if bh == 4 {
        2u8
    } else if bh == 8 {
        3u8
    } else if bh == 16 {
        4u8
    } else {
        5u8
    }
}

/// The base-level block-height exponent for a texture whose base mip level
/// is `height_in_blocks` blocks tall. The thresholds on `h + h / 2` reduce
/// to plain comparisons on `h`, so no width of arithmetic is ever exceeded.
/// The result is at most 5.
pub fn block_height_mip0_log2(height_in_blocks: u32) -> (r: u8)
    ensures
        r == spec_block_height_mip0_log2(height_in_blocks),
        r <= 5,
{
    let h: u32 = height_in_blocks;
    if h >= 86 {
        4
    } else if h >= 43 {
        3
    } else if h >= 22 {
        2
    } else if h >= 11 {
        1
    } else {
        0
    }
}

#[verifier::external_type_specification]
#[verifier::external_body]
pub struct ExSwizzleError(tegra_swizzle::SwizzleError);

/// The outcome of the tiling engine on a linear surface: the tiled,
/// mip-major, padded payload, or `None` where the engine rejects the
/// geometry, format, and payload combination. The outcome depends on the
/// arguments alone.
pub uninterp spec fn tiled_surface(
    width: u32,
    height: u32,
    depth: u32,
    source: Seq<u8>,
    block_width: u32,
    block_height: u32,
    block_depth: u32,
    bytes_per_block: u32,
    mipmap_count: u32,
    layer_count: u32,
) -> Option<Seq<u8>>;

/// Relies on tegra_swizzle::surface::swizzle_surface: tiles every mip level
/// of a single-layer, depth-1, linear, row-major surface into the platform's
/// block-linear layout, mip-major, each level padded to the tiling
/// granularity; rejections are reported as errors. Success or rejection and
/// the tiled bytes depend on the arguments alone; passing no block-height
/// override selects the engine's default heuristic.
///
/// The preconditions keep the engine's unchecked 32-bit arithmetic in
/// bounds, which its own checked validation alone does not: with the pixel
/// extents at most 0x20000, the block edges and byte-size in the ranges
/// below, and one layer of depth 1, every size and byte-address the engine
/// computes stays under `u32::MAX`, so no admitted input can make it panic.
#[verifier::external_body]
fn swizzle_surface_raw(
    width: u32,
    height: u32,
    depth: u32,
    source: &Vec<u8>,
    block_width: u32,
    block_height: u32,
    block_depth: u32,
    bytes_per_block: u32,
    mipmap_count: u32,
    layer_count: u32,
) -> (r: Result<Vec<u8>, tegra_swizzle::SwizzleError>)
    requires
        width <= 0x20000,
        height <= 0x20000,
        depth == 1,
        4 <= block_width <= 32,
        1 <= block_height <= 32,
        1 <= block_depth <= 32,
        8 <= bytes_per_block <= 64,
        layer_count == 1,
    ensures
        r is Ok <==> tiled_surface(
            width,
            height,
            depth,
            source@,
            block_width,
            block_height,
            block_depth,
            bytes_per_block,
            mipmap_count,
            layer_count,
        ) is Some,
        r matches Ok(v) ==> v@ == tiled_surface(
            width,
            height,
            depth,
            source@,
            block_width,
            block_height,
            block_depth,
            bytes_per_block,
            mipmap_count,
            layer_count,
        )->Some_0,
{
    let dim = tegra_swizzle::surface::BlockDim {
        width: core::num::NonZeroU32::new(block_width).unwrap(),
        height: core::num::NonZeroU32::new(block_height).unwrap(),
        depth: core::num::NonZeroU32::new(block_depth).unwrap(),
    };
    tegra_swizzle::surface::swizzle_surface(
        width, height, depth, source, dim, None, bytes_per_block, mipmap_count, layer_count,
    )
}

/// Hands a linear surface to the tiling engine and returns the tiled
/// payload, or `TilingError` exactly where the engine rejects the
/// combination. The preconditions are those of the engine adapter: they
/// keep the engine's 32-bit size and address arithmetic in bounds.
pub fn tile_surface(
    width: u32,
    height: u32,
    depth: u32,
    source: &Vec<u8>,
    block_width: u32,
    block_height: u32,
    block_depth: u32,
    bytes_per_block: u32,
    mipmap_count: u32,
    layer_count: u32,
) -> (r: Result<Vec<u8>, ConvertError>)
    requires
        width <= 0x20000,
        height <= 0x20000,
        depth == 1,
        4 <= block_width <= 32,
        1 <= block_height <= 32,
        1 <= block_depth <= 32,
        8 <= bytes_per_block <= 64,
        layer_count == 1,
    ensures
        r is Ok <==> tiled_surface(
            width,
            height,
            depth,
            source@,
            block_width,
            block_height,
            block_depth,
            bytes_per_block,
            mipmap_count,
            layer_count,
        ) is Some,
        r matches Ok(v) ==> v@ == tiled_surface(
            width,
            height,
            depth,
            source@,
            block_width,
            block_height,
            block_depth,
            bytes_per_block,
            mipmap_count,
            layer_count,
        )->Some_0,
        r matches Err(e) ==> e == ConvertError::TilingError,
{
    match swizzle_surface_raw(
        width,
        height,
        depth,
        source,
        block_width,
        block_height,
        block_depth,
        bytes_per_block,
        mipmap_count,
        layer_count,
    ) {
        Ok(v) => Ok(v),
        Err(_) => Err(ConvertError::TilingError),
    }
}

} // verus!
