use bntx::dds::{
    bntx_from_dds_parts, create_bntx, create_dds, dds_image_format, dds_params, DdsTexture,
    image_format_from_d3d, image_format_from_dxgi, image_format_from_fourcc, layer_count,
    FOURCC_ATI2, FOURCC_BC5U, FOURCC_DXT1, MISC_TEXTURECUBE,
};
use bntx::model::{
    BRTD_SECTION_START, FILENAME_STR_OFFSET, SIZE_OF_BRTD, START_OF_STR_SECTION,
};
use bntx::swizzle::{calculate_mipmap_offsets, START_OF_TEXTURE_DATA};
use bntx::{read, BntxError, BntxFile, Field, FormatError, SurfaceError, SurfaceFormat};
use ddsfile::{D3D10ResourceDimension, D3DFormat, Dds, DxgiFormat, MiscFlag};

const ALL_FORMATS: [SurfaceFormat; 19] = [
    SurfaceFormat::R8Unorm,
    SurfaceFormat::R8G8B8A8Unorm,
    SurfaceFormat::R8G8B8A8Srgb,
    SurfaceFormat::B8G8R8A8Unorm,
    SurfaceFormat::B8G8R8A8Srgb,
    SurfaceFormat::BC1Unorm,
    SurfaceFormat::BC1Srgb,
    SurfaceFormat::BC2Unorm,
    SurfaceFormat::BC2Srgb,
    SurfaceFormat::BC3Unorm,
    SurfaceFormat::BC3Srgb,
    SurfaceFormat::BC4Unorm,
    SurfaceFormat::BC4Snorm,
    SurfaceFormat::BC5Unorm,
    SurfaceFormat::BC5Snorm,
    SurfaceFormat::BC6Sfloat,
    SurfaceFormat::BC6Ufloat,
    SurfaceFormat::BC7Unorm,
    SurfaceFormat::BC7Srgb,
];

fn pattern(n: usize) -> Vec<u8> {
    (0..n).map(|i| (i * 7 % 251) as u8).collect()
}

fn u32_at(b: &[u8], off: usize) -> u32 {
    u32::from_le_bytes([b[off], b[off + 1], b[off + 2], b[off + 3]])
}

#[test]
fn format_codes_round_trip() {
    for f in ALL_FORMATS {
        assert_eq!(SurfaceFormat::from_code(f.code()), Some(f));
    }
    assert_eq!(SurfaceFormat::BC7Srgb.code(), 0x2006);
    assert_eq!(SurfaceFormat::R8Unorm.code(), 0x0201);
    assert_eq!(SurfaceFormat::from_code(0x1234), None);
}

#[test]
fn bytes_per_pixel_and_block_dim() {
    assert_eq!(SurfaceFormat::R8Unorm.bytes_per_pixel(), 1);
    assert_eq!(SurfaceFormat::R8Unorm.block_dim(), (1, 1, 1));
    assert_eq!(SurfaceFormat::B8G8R8A8Srgb.bytes_per_pixel(), 4);
    assert_eq!(SurfaceFormat::BC1Unorm.bytes_per_pixel(), 8);
    assert_eq!(SurfaceFormat::BC4Snorm.bytes_per_pixel(), 8);
    assert_eq!(SurfaceFormat::BC7Unorm.bytes_per_pixel(), 16);
    assert_eq!(SurfaceFormat::BC7Unorm.block_dim(), (4, 4, 1));
}

#[test]
fn dxgi_round_trip_for_every_format() {
    for f in ALL_FORMATS {
        assert_eq!(image_format_from_dxgi(f.to_dxgi()), Some(f));
    }
    assert_eq!(SurfaceFormat::BC1Unorm.to_dxgi(), DxgiFormat::BC1_UNorm);
    assert_eq!(image_format_from_dxgi(DxgiFormat::R32_Float), None);
}

#[test]
fn legacy_format_mappings() {
    assert_eq!(image_format_from_d3d(D3DFormat::DXT1), Some(SurfaceFormat::BC1Unorm));
    assert_eq!(image_format_from_d3d(D3DFormat::DXT2), Some(SurfaceFormat::BC2Unorm));
    assert_eq!(image_format_from_d3d(D3DFormat::DXT4), Some(SurfaceFormat::BC3Unorm));
    assert_eq!(image_format_from_d3d(D3DFormat::A8R8G8B8), None);
    assert_eq!(image_format_from_fourcc(FOURCC_ATI2), Some(SurfaceFormat::BC5Unorm));
    assert_eq!(image_format_from_fourcc(FOURCC_BC5U), Some(SurfaceFormat::BC5Unorm));
    assert_eq!(image_format_from_fourcc(u32::from_le_bytes(*b"BC4S")), Some(SurfaceFormat::BC4Snorm));
    assert_eq!(image_format_from_fourcc(u32::from_le_bytes(*b"BC5S")), Some(SurfaceFormat::BC5Snorm));
    assert_eq!(FOURCC_DXT1, u32::from_le_bytes(*b"DXT1"));
}

#[test]
fn dds_format_precedence() {
    assert_eq!(
        dds_image_format(
            Some(DxgiFormat::BC7_UNorm),
            Some(D3DFormat::DXT1),
            Some(FOURCC_DXT1),
            None
        ),
        Some(SurfaceFormat::BC7Unorm)
    );
    assert_eq!(
        dds_image_format(Some(DxgiFormat::R32_Float), Some(D3DFormat::DXT5), None, None),
        Some(SurfaceFormat::BC3Unorm)
    );
    assert_eq!(
        dds_image_format(None, None, Some(FOURCC_DXT1), Some(DxgiFormat::BC1_UNorm_sRGB)),
        Some(SurfaceFormat::BC1Unorm)
    );
    assert_eq!(
        dds_image_format(None, None, None, Some(DxgiFormat::B8G8R8A8_UNorm)),
        Some(SurfaceFormat::B8G8R8A8Unorm)
    );
    assert_eq!(dds_image_format(None, None, None, None), None);
}

#[test]
fn layout_constants() {
    assert_eq!(START_OF_STR_SECTION, 0x1A0);
    assert_eq!(FILENAME_STR_OFFSET, 0x1B8);
    assert_eq!(BRTD_SECTION_START, 0xFF0);
    assert_eq!(START_OF_TEXTURE_DATA, BRTD_SECTION_START + SIZE_OF_BRTD);
    assert_eq!(START_OF_TEXTURE_DATA, 0x1000);
}

#[test]
fn bc7_256_single_mip() {
    let data = pattern(65536);
    let f = BntxFile::from_image_data("tex", 256, 256, 1, 1, 1, SurfaceFormat::BC7Unorm, &data)
        .unwrap();
    let b = &f.nx_header.brti;
    // tegra_swizzle picks eight GOBs for 64 block rows.
    assert_eq!(b.block_height_log2, 3);
    assert_eq!(b.image_size, 65536);
    assert_eq!(b.texture.image_data.len(), 65536);
    assert_eq!(b.texture.mipmap_offsets, vec![0x1000u64]);
    assert_ne!(b.texture.image_data, data);
    assert_eq!(f.deswizzled_data().unwrap(), data);
}

#[test]
fn r8_one_by_one() {
    let f = BntxFile::from_image_data("a", 1, 1, 1, 1, 1, SurfaceFormat::R8Unorm, &[7u8]).unwrap();
    let b = &f.nx_header.brti;
    assert_eq!(b.block_height_log2, 0);
    assert_eq!(b.texture.mipmap_offsets, vec![0x1000u64]);
    // One GOB of 512 bytes holds the pixel.
    assert_eq!(b.image_size, 512);
    assert_eq!(b.texture.image_data[0], 7);
    let bytes = f.write().unwrap();
    let reloc_size = 16 + 2 * 0x18 + 5 * 8;
    assert_eq!(bytes.len(), 0x1000 + 512 + reloc_size);
    assert_eq!(u32_at(&bytes, 24) as usize, 0x1000 + 512);
    assert_eq!(u32_at(&bytes, 28) as usize, bytes.len());
    assert_eq!(&bytes[0..4], b"BNTX");
    assert_eq!(&bytes[0x20..0x24], b"NX  ");
    assert_eq!(&bytes[START_OF_STR_SECTION..START_OF_STR_SECTION + 4], b"_STR");
    assert_eq!(&bytes[0xFF0..0xFF4], b"BRTD");
    assert_eq!(bytes[0x1000], 7);
    assert_eq!(&bytes[0x1000 + 512..0x1000 + 516], b"_RLT");
}

#[test]
fn write_read_write_is_identity() {
    let data = pattern(64 * 64 * 4 * 2);
    let f = BntxFile::from_image_data("chara", 64, 64, 1, 3, 1, SurfaceFormat::R8G8B8A8Srgb, &data)
        .unwrap();
    let x = f.write().unwrap();
    let g = read(&x).unwrap();
    assert_eq!(g.width(), 64);
    assert_eq!(g.height(), 64);
    assert_eq!(g.num_mipmaps(), 3);
    assert_eq!(g.num_array_layers(), 1);
    assert_eq!(g.image_format(), SurfaceFormat::R8G8B8A8Srgb);
    assert_eq!(g.header.file_name, b"chara".to_vec());
    assert_eq!(g.nx_header.brti.name.chars, b"chara".to_vec());
    assert_eq!(g.nx_header.dict.nodes.len(), 2);
    assert_eq!(g.write().unwrap(), x);
}

#[test]
fn swizzle_then_deswizzle_gives_back_the_pixels() {
    let data = pattern(128 * 64 * 4 * 2 + 64 * 32 * 4 * 2);
    let f = BntxFile::from_image_data("t", 128, 64, 1, 2, 2, SurfaceFormat::B8G8R8A8Unorm, &data)
        .unwrap();
    assert_eq!(f.deswizzled_data().unwrap(), data);
}

#[test]
fn mip_offsets_follow_mip_sizes() {
    let offsets = calculate_mipmap_offsets(
        4,
        256,
        (4, 4, 1),
        256,
        1,
        tegra_swizzle::BlockHeight::Sixteen,
        16,
    );
    assert_eq!(offsets.len(), 4);
    assert_eq!(offsets[0], 0x1000);
    for i in 0..3 {
        let mip = (256usize >> i) / 4;
        let bh = tegra_swizzle::mip_block_height(mip, tegra_swizzle::BlockHeight::Sixteen);
        let size = tegra_swizzle::swizzle::swizzled_mip_size(mip, mip, 1, bh, 16);
        assert_eq!((offsets[i + 1] - offsets[i]) as usize, size);
    }
    assert_eq!(offsets[1] - offsets[0], 65536);
}

#[test]
fn relocation_counts_match_entries() {
    let f = BntxFile::from_image_data("r", 16, 16, 1, 1, 1, SurfaceFormat::R8Unorm, &pattern(256))
        .unwrap();
    let t = &f.header.reloc_table;
    let sum: u32 = t.sections.iter().map(|s| s.count).sum();
    assert_eq!(sum as usize, t.entries.len());
    assert_eq!(t.entries.len(), 5);
    let g = read(&f.write().unwrap()).unwrap();
    let t = &g.header.reloc_table;
    let sum: u32 = t.sections.iter().map(|s| s.count).sum();
    assert_eq!(sum as usize, t.entries.len());
}

#[test]
fn dds_round_trip_bc1_four_mips() {
    let mut dds = Dds::new_dxgi(ddsfile::NewDxgiParams {
        height: 64,
        width: 64,
        depth: None,
        format: DxgiFormat::BC1_UNorm,
        mipmap_levels: Some(4),
        array_layers: None,
        caps2: None,
        is_cubemap: false,
        resource_dimension: D3D10ResourceDimension::Texture2D,
        alpha_mode: ddsfile::AlphaMode::Unknown,
    })
    .unwrap();
    let size = (16 * 16 + 8 * 8 + 4 * 4 + 2 * 2) * 8;
    dds.data = pattern(size);
    let expected = dds.data.clone();
    let f = create_bntx("tex", &DdsTexture::from_dds(dds)).unwrap();
    assert_eq!(f.image_format(), SurfaceFormat::BC1Unorm);
    assert_eq!(f.num_mipmaps(), 4);
    let back = create_dds(&f).unwrap().into_dds();
    assert_eq!(back.get_dxgi_format(), Some(DxgiFormat::BC1_UNorm));
    assert_eq!(back.get_num_mipmap_levels(), 4);
    assert_eq!(back.data, expected);
}

#[test]
fn cubemap_bc7_srgb_six_layers() {
    let data = pattern(64 * 64 * 16 * 6);
    let f = BntxFile::from_image_data("cube", 256, 256, 1, 1, 6, SurfaceFormat::BC7Srgb, &data)
        .unwrap();
    assert_eq!(f.num_array_layers(), 6);
    let params = dds_params(&f);
    assert!(params.is_cubemap);
    let t = create_dds(&f).unwrap();
    let dds = t.dds();
    let h10 = dds.header10.as_ref().unwrap();
    assert_eq!(h10.misc_flag, MiscFlag::TEXTURECUBE);
    assert_eq!(h10.array_size, 1);
    assert_eq!(dds.data, data);
    let g = create_bntx("cube", &t).unwrap();
    assert_eq!(g.num_array_layers(), 6);
}

#[test]
fn legacy_dxt1_dds_imports_as_bc1() {
    let mut dds = Dds::new_d3d(ddsfile::NewD3dParams {
        height: 8,
        width: 8,
        depth: None,
        format: D3DFormat::DXT1,
        mipmap_levels: None,
        caps2: None,
    })
    .unwrap();
    assert!(dds.header10.is_none());
    dds.data = pattern(2 * 2 * 8);
    let f = create_bntx("legacy", &DdsTexture::from_dds(dds)).unwrap();
    assert_eq!(f.image_format(), SurfaceFormat::BC1Unorm);
}

#[test]
fn bad_magic_fails_at_offset_zero() {
    let mut bytes = b"XXXX".to_vec();
    bytes.extend_from_slice(&[0u8; 60]);
    assert_eq!(read(&bytes).err(), Some(FormatError { offset: 0, field: Field::Magic }));
}

#[test]
fn dds_flags_for_plain_texture() {
    let f = BntxFile::from_image_data("p", 8, 8, 1, 1, 1, SurfaceFormat::R8Unorm, &pattern(64))
        .unwrap();
    let p = dds_params(&f);
    assert!(!p.volume);
    assert_eq!(p.depth, None);
    assert_eq!(p.mipmap_levels, None);
    assert_eq!(p.array_layers, None);
    assert!(!p.is_cubemap);
    assert_eq!(p.resource_dimension, D3D10ResourceDimension::Texture2D);
    let dds = create_dds(&f).unwrap().into_dds();
    assert!(!dds.header.caps2.contains(ddsfile::Caps2::VOLUME));
    assert_eq!(dds.header.mip_map_count, None);
}

#[test]
fn dds_flags_for_volume_texture() {
    let data = pattern(8 * 8 * 4 + 4 * 4 * 2);
    let f = BntxFile::from_image_data("v", 8, 8, 4, 2, 1, SurfaceFormat::R8Unorm, &data).unwrap();
    let p = dds_params(&f);
    assert!(p.volume);
    assert_eq!(p.depth, Some(4));
    assert_eq!(p.mipmap_levels, Some(2));
    assert_eq!(p.resource_dimension, D3D10ResourceDimension::Texture3D);
}

#[test]
fn cube_layer_count_from_dds() {
    assert_eq!(layer_count(1, Some(MISC_TEXTURECUBE)), Some(6));
    assert_eq!(layer_count(2, Some(MISC_TEXTURECUBE)), Some(12));
    assert_eq!(layer_count(3, None), Some(3));
    assert_eq!(layer_count(3, Some(0)), Some(3));
    assert_eq!(layer_count(u32::MAX, Some(MISC_TEXTURECUBE)), None);
}

#[test]
fn surface_error_variants() {
    assert_eq!(
        BntxFile::from_image_data("z", 0, 4, 1, 1, 1, SurfaceFormat::R8Unorm, &[0u8; 16]).err(),
        Some(SurfaceError::ZeroDimension)
    );
    assert_eq!(
        BntxFile::from_image_data("z", 4, 4, 1, 1, 0, SurfaceFormat::R8Unorm, &[0u8; 16]).err(),
        Some(SurfaceError::ZeroDimension)
    );
    assert_eq!(
        BntxFile::from_image_data("z", 4, 4, 1, 65, 1, SurfaceFormat::R8Unorm, &[0u8; 16]).err(),
        Some(SurfaceError::TooLarge)
    );
    assert_eq!(
        BntxFile::from_image_data("z", u32::MAX, u32::MAX, u32::MAX, 1, 1, SurfaceFormat::R8Unorm, &[])
            .err(),
        Some(SurfaceError::TooLarge)
    );
    assert_eq!(
        BntxFile::from_image_data("z", 4, 4, 1, 1, 1, SurfaceFormat::R8Unorm, &[0u8; 15]).err(),
        Some(SurfaceError::NotEnoughData { expected_size: 16, actual_size: 15 })
    );
}

#[test]
fn invalid_block_height_is_reported() {
    let f = BntxFile::from_image_data("h", 4, 4, 1, 1, 1, SurfaceFormat::R8Unorm, &pattern(16))
        .unwrap();
    let mut bytes = f.write().unwrap();
    let brti = START_OF_STR_SECTION + pool_size_for_len(1) + 0x28;
    assert_eq!(&bytes[brti..brti + 4], b"BRTI");
    bytes[brti + 52] = 6;
    let g = read(&bytes).unwrap();
    assert_eq!(g.deswizzled_data().err(), Some(SurfaceError::InvalidBlockHeight));
    assert_eq!(
        create_dds(&g).err(),
        Some(BntxError::Swizzle(SurfaceError::InvalidBlockHeight))
    );
}

fn pool_size_for_len(len: usize) -> usize {
    let entry = (len + 3 + 3) / 4 * 4;
    (0x18 + entry + 7) / 8 * 8
}

#[test]
fn format_error_variants() {
    let f = BntxFile::from_image_data("e", 4, 4, 1, 1, 1, SurfaceFormat::R8Unorm, &pattern(16))
        .unwrap();
    let good = f.write().unwrap();
    let brti = START_OF_STR_SECTION + pool_size_for_len(1) + 0x28;

    let mut b = good.clone();
    b[12] = 0x12;
    assert_eq!(read(&b).err(), Some(FormatError { offset: 12, field: Field::ByteOrder }));

    assert_eq!(read(&good[..10]).err().map(|e| e.field), Some(Field::UnexpectedEnd));

    let mut b = good.clone();
    b[brti + 28] = 0x99;
    assert_eq!(
        read(&b).err(),
        Some(FormatError { offset: (brti + 28) as u64, field: Field::SurfaceFormat })
    );

    let mut b = good.clone();
    b[brti + 17] = 9;
    assert_eq!(read(&b).err().map(|e| e.field), Some(Field::TextureDimension));

    let mut b = good.clone();
    b[brti + 92] = 9;
    assert_eq!(read(&b).err().map(|e| e.field), Some(Field::TextureViewDimension));

    let mut b = good.clone();
    b[brti + 22] = 0;
    b[brti + 23] = 0;
    assert_eq!(read(&b).err().map(|e| e.field), Some(Field::MipmapCount));

    let mut b = good.clone();
    b[0x20] = b'Q';
    assert_eq!(read(&b).err(), Some(FormatError { offset: 0x20, field: Field::Magic }));
}

#[test]
fn big_endian_marker_is_honoured() {
    let f = BntxFile::from_image_data("e", 4, 4, 1, 1, 1, SurfaceFormat::R8Unorm, &pattern(16))
        .unwrap();
    let mut b = f.write().unwrap();
    b[12] = 0xFE;
    b[13] = 0xFF;
    // Little-endian pointers read big-endian point outside the stream.
    assert!(read(&b).is_err());
}

#[test]
fn writer_rejects_a_pool_that_overruns_the_layout() {
    let name = "n".repeat(4000);
    let f = BntxFile::from_image_data(&name, 4, 4, 1, 1, 1, SurfaceFormat::R8Unorm, &pattern(16))
        .unwrap();
    assert_eq!(f.write().err().map(|e| e.field), Some(Field::Layout));
}

#[test]
fn dds_parts_with_unknown_format_fail() {
    assert_eq!(
        bntx_from_dds_parts("x", 4, 4, 1, 1, 1, None, None, None, None, None, &[0u8; 16]).err(),
        Some(BntxError::Format(FormatError { offset: 0, field: Field::DdsFormat }))
    );
    let f = bntx_from_dds_parts(
        "x",
        4,
        4,
        1,
        1,
        1,
        None,
        Some(DxgiFormat::R8_UNorm),
        None,
        None,
        None,
        &[0u8; 16],
    )
    .unwrap();
    assert_eq!(f.image_format(), SurfaceFormat::R8Unorm);
}

#[test]
fn from_image_builds_rgba8() {
    let img = image::DynamicImage::new_rgba8(4, 2);
    let f = BntxFile::from_image(img, "img").unwrap();
    assert_eq!(f.image_format(), SurfaceFormat::R8G8B8A8Srgb);
    assert_eq!(f.width(), 4);
    assert_eq!(f.height(), 2);
    assert_eq!(f.depth(), 1);
}

#[test]
fn untiling_needs_the_whole_tiled_surface() {
    let mut f = BntxFile::from_image_data("s", 4, 4, 1, 1, 2, SurfaceFormat::R8Unorm, &pattern(32))
        .unwrap();
    // Two layers of one GOB each.
    assert_eq!(f.nx_header.brti.texture.image_data.len(), 1024);
    assert_eq!(f.deswizzled_data().unwrap(), pattern(32));
    f.nx_header.brti.texture.image_data.truncate(1000);
    assert_eq!(
        f.deswizzled_data().err(),
        Some(SurfaceError::NotEnoughData { expected_size: 1024, actual_size: 1000 })
    );
}

#[test]
fn writer_rejects_a_file_without_mip_offsets() {
    let mut f = BntxFile::from_image_data("m", 4, 4, 1, 1, 1, SurfaceFormat::R8Unorm, &pattern(16))
        .unwrap();
    f.nx_header.brti.texture.mipmap_offsets.clear();
    assert_eq!(f.write().err(), Some(FormatError { offset: 0, field: Field::Layout }));
}

#[test]
fn short_stream_ends_unexpectedly() {
    assert_eq!(read(&[]).err(), Some(FormatError { offset: 0, field: Field::UnexpectedEnd }));
    assert_eq!(
        read(b"BN").err(),
        Some(FormatError { offset: 0, field: Field::UnexpectedEnd })
    );
}

#[test]
fn legacy_ati1_dds_imports_by_its_pixel_format() {
    let mut dds = Dds::new_d3d(ddsfile::NewD3dParams {
        height: 8,
        width: 8,
        depth: None,
        format: D3DFormat::DXT1,
        mipmap_levels: None,
        caps2: None,
    })
    .unwrap();
    dds.header.spf.fourcc = Some(ddsfile::FourCC(ddsfile::FourCC::ATI1));
    dds.data = pattern(2 * 2 * 8);
    let f = create_bntx("legacy", &DdsTexture::from_dds(dds)).unwrap();
    assert_eq!(f.image_format(), SurfaceFormat::BC4Unorm);
}

#[test]
fn create_dds_carries_extent_format_and_pixels() {
    let data = pattern(16 * 8 * 4);
    let f = BntxFile::from_image_data("c", 16, 8, 1, 1, 1, SurfaceFormat::R8G8B8A8Unorm, &data)
        .unwrap();
    let t = create_dds(&f).unwrap();
    let dds = t.dds();
    assert_eq!(dds.get_width(), 16);
    assert_eq!(dds.get_height(), 8);
    assert_eq!(dds.get_dxgi_format(), Some(DxgiFormat::R8G8B8A8_UNorm));
    assert_eq!(dds.data, data);
    let back = create_bntx("c", &t).unwrap();
    assert_eq!(back.image_format(), SurfaceFormat::R8G8B8A8Unorm);
}
