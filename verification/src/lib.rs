//! Conversion of desktop-authored, linearly laid out DDS/DX10 textures into
//! the tiled XT1 container used by hardware that wants block-linear memory.
//!
//! The pipeline is strictly sequential: parse and validate the source header,
//! map the source pixel-format code to the destination format metadata, hand
//! the payload to the block-linear tiling engine, and emit the fixed 56-byte
//! destination header followed by the tiled payload.

pub mod bytes;
pub mod convert;
pub mod dds;
pub mod error;
pub mod format;
pub mod tiling;
pub mod xt1;
