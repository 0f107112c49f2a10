use dds_to_xt1::bytes::push_u32_le;
use dds_to_xt1::bytes::push_u64_le;
use dds_to_xt1::bytes::read_u32_le;
use dds_to_xt1::convert::convert_dds;
use dds_to_xt1::dds::parse_dds_header;
use dds_to_xt1::error::ConvertError;
use dds_to_xt1::error::FormatFault;
use dds_to_xt1::format::get_block_dim;
use dds_to_xt1::format::get_block_size_in_bytes;
use dds_to_xt1::format::get_user_format;
use dds_to_xt1::tiling::block_height_mip0_log2;
use dds_to_xt1::tiling::div_round_up;
use dds_to_xt1::xt1::emit_container;

/// Builds a syntactically valid DDS/DX10 container with the given geometry,
/// mipmap count, format code, and payload.
fn dds_input(width: u32, height: u32, mips: u32, format: u32, payload: &[u8]) -> Vec<u8> {
    let mut v = vec![0u8; 148];
    v[0..4].copy_from_slice(&0x20534444u32.to_le_bytes());
    v[4..8].copy_from_slice(&124u32.to_le_bytes());
    v[12..16].copy_from_slice(&height.to_le_bytes());
    v[16..20].copy_from_slice(&width.to_le_bytes());
    v[28..32].copy_from_slice(&mips.to_le_bytes());
    v[76..80].copy_from_slice(&32u32.to_le_bytes());
    v[80..84].copy_from_slice(&4u32.to_le_bytes());
    v[84..88].copy_from_slice(&0x30315844u32.to_le_bytes());
    v[128..132].copy_from_slice(&format.to_le_bytes());
    v.extend_from_slice(payload);
    v
}

fn le32(out: &[u8], off: usize) -> u32 {
    u32::from_le_bytes(out[off..off + 4].try_into().unwrap())
}

fn le64(out: &[u8], off: usize) -> u64 {
    u64::from_le_bytes(out[off..off + 8].try_into().unwrap())
}

#[test]
fn parse_extracts_fields() {
    let input = dds_input(64, 32, 7, 71, &[9u8; 16]);
    let h = parse_dds_header(&input).unwrap();
    assert_eq!(h.width, 64);
    assert_eq!(h.height, 32);
    assert_eq!(h.mipmap_count, 7);
    assert_eq!(h.dxgi_format_value, 71);
    assert_eq!(h.header_size_field, 124);
    assert_eq!(h.data, vec![9u8; 16]);
}

#[test]
fn parse_tolerates_nonstandard_header_size() {
    let mut input = dds_input(4, 4, 1, 71, &[0u8; 8]);
    input[4..8].copy_from_slice(&100u32.to_le_bytes());
    let h = parse_dds_header(&input).unwrap();
    assert_eq!(h.header_size_field, 100);
    assert_eq!(h.width, 4);
}

#[test]
fn parse_rejects_bad_magic() {
    let mut input = dds_input(4, 4, 1, 71, &[0u8; 8]);
    input[0..4].copy_from_slice(b"PNG!");
    let r = parse_dds_header(&input);
    assert_eq!(r.unwrap_err(), ConvertError::FormatError(FormatFault::BadMagic));
}

#[test]
fn parse_rejects_truncated_input() {
    let input = vec![0u8; 100];
    let r = parse_dds_header(&input);
    assert_eq!(r.unwrap_err(), ConvertError::FormatError(FormatFault::Truncated));
}

#[test]
fn parse_rejects_bad_pixel_format_size() {
    let mut input = dds_input(4, 4, 1, 71, &[0u8; 8]);
    input[76..80].copy_from_slice(&24u32.to_le_bytes());
    let r = parse_dds_header(&input);
    assert_eq!(r.unwrap_err(), ConvertError::FormatError(FormatFault::BadPixelFormatSize(24)));
}

#[test]
fn parse_rejects_missing_fourcc_flag() {
    let mut input = dds_input(4, 4, 1, 71, &[0u8; 8]);
    input[80..84].copy_from_slice(&0u32.to_le_bytes());
    let r = parse_dds_header(&input);
    assert_eq!(r.unwrap_err(), ConvertError::FormatError(FormatFault::MissingDx10));
}

#[test]
fn parse_rejects_non_dx10_fourcc() {
    let mut input = dds_input(4, 4, 1, 71, &[0u8; 8]);
    input[84..88].copy_from_slice(b"DXT1");
    let r = parse_dds_header(&input);
    assert_eq!(r.unwrap_err(), ConvertError::FormatError(FormatFault::MissingDx10));
}

#[test]
fn mipmap_count_zero_means_one() {
    let input = dds_input(4, 4, 0, 71, &[0u8; 8]);
    let h = parse_dds_header(&input).unwrap();
    assert_eq!(h.mipmap_count, 1);
    let out = convert_dds(&input).unwrap();
    assert_eq!(le32(&out, 0x14), 1);
}

#[test]
fn format_tables_exact_values() {
    let cases: [(u32, u32, usize, (u32, u32, u32)); 26] = [
        (71, 0x42, 8, (4, 4, 1)),
        (72, 0x46, 8, (4, 4, 1)),
        (74, 0x43, 16, (4, 4, 1)),
        (75, 0x47, 16, (4, 4, 1)),
        (77, 0x44, 16, (4, 4, 1)),
        (78, 0x48, 16, (4, 4, 1)),
        (80, 0x45, 8, (4, 4, 1)),
        (81, 0x49, 8, (4, 4, 1)),
        (83, 0x4B, 16, (4, 4, 1)),
        (84, 0x4C, 16, (4, 4, 1)),
        (95, 0x50, 8, (4, 4, 1)),
        (96, 0x51, 8, (4, 4, 1)),
        (98, 0x4D, 16, (4, 4, 1)),
        (99, 0x4E, 16, (4, 4, 1)),
        (134, 0x79, 16, (4, 4, 1)),
        (135, 0x87, 16, (4, 4, 1)),
        (142, 0x7B, 16, (5, 5, 1)),
        (143, 0x89, 16, (5, 5, 1)),
        (150, 0x7D, 16, (6, 6, 1)),
        (151, 0x8B, 16, (6, 6, 1)),
        (162, 0x80, 16, (8, 8, 1)),
        (163, 0x8E, 16, (8, 8, 1)),
        (178, 0x84, 16, (10, 10, 1)),
        (179, 0x92, 16, (10, 10, 1)),
        (186, 0x3A, 16, (12, 12, 1)),
        (187, 0x94, 16, (12, 12, 1)),
    ];
    for (code, dest, bytes, dim) in cases {
        assert_eq!(get_user_format(code), Some(dest));
        assert_eq!(get_block_size_in_bytes(code), Some(bytes));
        assert_eq!(get_block_dim(code), Some(dim));
    }
}

#[test]
fn format_tables_agree_over_a_range() {
    for code in 0..=1000u32 {
        let a = get_user_format(code).is_some();
        let b = get_block_size_in_bytes(code).is_some();
        let c = get_block_dim(code).is_some();
        assert_eq!(a, b);
        assert_eq!(a, c);
        if let Some(bytes) = get_block_size_in_bytes(code) {
            assert!(bytes == 8 || bytes == 16);
        }
    }
}

#[test]
fn unsupported_format_fails_before_tiling() {
    let input = dds_input(4, 4, 1, 999, &[0u8; 8]);
    let r = convert_dds(&input);
    assert_eq!(r.unwrap_err(), ConvertError::UnsupportedFormat(999));
}

#[test]
fn bad_magic_fails_whole_conversion() {
    let mut input = dds_input(4, 4, 1, 71, &[0u8; 8]);
    input[0..4].copy_from_slice(&0xAABBCCDDu32.to_le_bytes());
    let r = convert_dds(&input);
    assert_eq!(r.unwrap_err(), ConvertError::FormatError(FormatFault::BadMagic));
}

#[test]
fn bc1_256x256_single_mip_header() {
    // 256x256 BC1: 64x64 blocks of 8 bytes each.
    let payload = vec![0x5Au8; 64 * 64 * 8];
    let input = dds_input(256, 256, 1, 71, &payload);
    assert_eq!(get_user_format(71), Some(0x42));
    assert_eq!(get_block_size_in_bytes(71), Some(8));
    assert_eq!(get_block_dim(71), Some((4, 4, 1)));
    let out = convert_dds(&input).unwrap();
    assert_eq!(le32(&out, 0x00), 0x00315458);
    assert_eq!(le32(&out, 0x04), 0x01000101);
    assert_eq!(le64(&out, 0x08), (out.len() - 56) as u64);
    assert_eq!(le32(&out, 0x10), 0x38);
    assert_eq!(le32(&out, 0x14), 1);
    assert_eq!(le32(&out, 0x18), 1);
    assert_eq!(le32(&out, 0x1C), 0x42);
    assert_eq!(le32(&out, 0x20), 256);
    assert_eq!(le32(&out, 0x24), 256);
    assert_eq!(le32(&out, 0x28), 1);
    assert_eq!(le32(&out, 0x2C), 0);
    // 64 block rows: 64 + 32 >= 64 picks block height 8, so the exponent is 3.
    assert_eq!(out[0x30], 3);
    assert_eq!(out[0x31], 0);
    assert_eq!(out[0x32], 0);
    assert_eq!(out[0x33], 0);
    assert_eq!(le32(&out, 0x34), 65543);
}

#[test]
fn conversion_is_deterministic() {
    let payload: Vec<u8> = (0..128u32).map(|i| (i * 7 % 251) as u8).collect();
    let input = dds_input(16, 16, 1, 71, &payload);
    let first = convert_dds(&input).unwrap();
    let second = convert_dds(&input).unwrap();
    assert_eq!(first, second);
}

#[test]
fn constants_fixed_across_inputs() {
    let a = convert_dds(&dds_input(4, 4, 1, 71, &[1u8; 8])).unwrap();
    let b = convert_dds(&dds_input(12, 12, 1, 186, &[2u8; 16])).unwrap();
    for out in [&a, &b] {
        assert_eq!(le32(out, 0x00), 0x00315458);
        assert_eq!(le32(out, 0x10), 0x38);
        assert_eq!(le32(out, 0x34), 65543);
    }
}

#[test]
fn tiling_pads_output_beyond_input() {
    // A single 4x4 BC1 block is 8 linear bytes; the tiled surface is padded
    // to the tiling granularity, so the output cannot be header + payload.
    let input = dds_input(4, 4, 1, 71, &[0xC3u8; 8]);
    let out = convert_dds(&input).unwrap();
    assert!(out.len() > 56 + 8);
    assert_eq!(le64(&out, 0x08), (out.len() - 56) as u64);
}

#[test]
fn oversized_geometry_is_a_tiling_error() {
    // Extents beyond 0x20000 lie outside the tiling engine's 32-bit
    // addressing and are rejected before the engine runs, so no payload is
    // needed to reach the check.
    let wide = dds_input(0x20001, 4, 1, 71, &[]);
    assert_eq!(convert_dds(&wide).unwrap_err(), ConvertError::TilingError);
    let tall = dds_input(4, 0x20001, 1, 71, &[]);
    assert_eq!(convert_dds(&tall).unwrap_err(), ConvertError::TilingError);
}

#[test]
fn widest_supported_geometry_converts() {
    // 131072x4 BC1: 32768x1 blocks of 8 bytes, right at the extent bound.
    let payload = vec![0x11u8; 32768 * 8];
    let input = dds_input(0x20000, 4, 1, 71, &payload);
    let out = convert_dds(&input).unwrap();
    assert_eq!(le32(&out, 0x20), 0x20000);
    assert_eq!(le32(&out, 0x24), 4);
}

#[test]
fn short_payload_is_a_tiling_error() {
    // 16x16 BC1 needs 16 blocks of 8 bytes; an empty payload is rejected by
    // the tiling engine, not by the parser.
    let input = dds_input(16, 16, 1, 71, &[]);
    let r = convert_dds(&input);
    assert_eq!(r.unwrap_err(), ConvertError::TilingError);
}

#[test]
fn block_height_exponent_thresholds() {
    assert_eq!(block_height_mip0_log2(1), 0);
    assert_eq!(block_height_mip0_log2(10), 0);
    assert_eq!(block_height_mip0_log2(11), 1);
    assert_eq!(block_height_mip0_log2(21), 1);
    assert_eq!(block_height_mip0_log2(22), 2);
    assert_eq!(block_height_mip0_log2(43), 3);
    assert_eq!(block_height_mip0_log2(86), 4);
    assert_eq!(block_height_mip0_log2(1000), 4);
}

#[test]
fn div_round_up_examples() {
    assert_eq!(div_round_up(8, 4), 2);
    assert_eq!(div_round_up(10, 4), 3);
    assert_eq!(div_round_up(0, 4), 0);
    assert_eq!(div_round_up(10, 1), 10);
    assert_eq!(div_round_up(u32::MAX, 4), 0x40000000);
}

#[test]
fn little_endian_helpers() {
    let mut v: Vec<u8> = Vec::new();
    push_u32_le(&mut v, 0xDDCCBBAA);
    assert_eq!(v, vec![0xAA, 0xBB, 0xCC, 0xDD]);
    push_u64_le(&mut v, 0x0807060504030201);
    assert_eq!(&v[4..12], &[1, 2, 3, 4, 5, 6, 7, 8]);
    assert_eq!(read_u32_le(&v, 0), 0xDDCCBBAA);
}

#[test]
fn emit_container_layout() {
    let out = emit_container(0x42, 7, 9, 2, 3, vec![0xEE, 0xFF]);
    assert_eq!(out.len(), 58);
    assert_eq!(le32(&out, 0x00), 0x00315458);
    assert_eq!(le64(&out, 0x08), 2);
    assert_eq!(le32(&out, 0x14), 2);
    assert_eq!(le32(&out, 0x1C), 0x42);
    assert_eq!(le32(&out, 0x20), 7);
    assert_eq!(le32(&out, 0x24), 9);
    assert_eq!(out[0x30], 3);
    assert_eq!(&out[56..], &[0xEE, 0xFF]);
}
