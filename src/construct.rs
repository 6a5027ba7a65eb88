//! Building a file from linear pixel data, and untiling a file's pixels.
use vstd::prelude::*;
use vstd::string::StringSliceAdditionalSpecFns;
use crate::bytes::put_bytes;
use crate::error::SurfaceError;
use crate::format::{
    format_block_dim, format_bpp, SurfaceFormat, TextureDimension, TextureViewDimension,
};
use crate::model::{
    align_up, reloc_count_sum, str_entry_size, strings_size, BntxFile, BntxHeader, BntxStr,
    BrtiSection, ByteOrder, DictSection, NxHeader, RelocationEntry, RelocationSection,
    RelocationTable, StrSection, Texture, BNTX_HEADER_SIZE, BRTD_SECTION_START,
    DICT_SECTION_SIZE, EMPTY_STR_SIZE, HEADER_SIZE, MEM_POOL_SIZE, SIZE_OF_BRTD, SIZE_OF_BRTI,
    START_OF_STR_SECTION, STR_HEADER_SIZE,
};
use crate::swizzle::{
    block_height_from_log2, block_height_from_log2_exec, block_height_log2,
    block_height_log2_of, block_height_mip0, block_height_mip0_spec, calculate_mipmap_offsets,
    check_surface_fits, deswizzle, deswizzled_surface, div_round_up, div_up, linear_surface_size,
    mip_bound, mip_offset, surface_fits, swizzle, swizzled_surface, tiled_surface_size,
};

verus! {

/// The largest string pool a new file takes: every offset past it fits a
/// 32-bit field.
pub const MAX_POOL_SIZE: u64 = 0xFFFF_0000;

/// The largest tiled surface a new file takes: its size, and that of the
/// pixel data section, fit 32-bit fields.
pub const MAX_IMAGE_SIZE: u64 = 0xFFFF_FFEF;

/// The size of a string pool that holds one string of `len` bytes.
pub open spec fn pool_size_for(len: nat) -> nat {
    align_up((STR_HEADER_SIZE + EMPTY_STR_SIZE + align_up(len + 3, 4)) as nat, 8)
}

/// The block height that a new surface of the given format and height
/// gets for its first mip level.
pub open spec fn new_block_height(format: SurfaceFormat, height: u32) -> tegra_swizzle::BlockHeight {
    block_height_mip0_spec(div_up(height as nat, format_block_dim(format).1 as nat))
}

/// The relocation table of a new file, from the size of its string pool and
/// of its swizzled pixels.
pub open spec fn is_new_reloc_table(t: RelocationTable, str_size: nat, data_len: nat) -> bool {
    let brti_start = START_OF_STR_SECTION + str_size + DICT_SECTION_SIZE;
    &&& t.sections@.len() == 2
    &&& t.sections@[0] == (RelocationSection {
        pointer: 0,
        position: 0,
        size: (brti_start + SIZE_OF_BRTI + 0x208) as u32,
        index: 0,
        count: 4,
    })
    &&& t.sections@[1] == (RelocationSection {
        pointer: 0,
        position: BRTD_SECTION_START as u32,
        size: (data_len + SIZE_OF_BRTD) as u32,
        index: 4,
        count: 1,
    })
    &&& t.entries@.len() == 5
    &&& t.entries@[0] == (RelocationEntry {
        position: (BNTX_HEADER_SIZE + 8) as u32,
        struct_count: 2,
        offset_count: 1,
        padding_count: ((HEADER_SIZE + MEM_POOL_SIZE - (BNTX_HEADER_SIZE + 0x10)) / 8) as u8,
    })
    &&& t.entries@[1] == (RelocationEntry {
        position: (BNTX_HEADER_SIZE + 0x18) as u32,
        struct_count: 2,
        offset_count: 2,
        padding_count: ((brti_start + 0x80 - HEADER_SIZE) / 8) as u8,
    })
    &&& t.entries@[2] == (RelocationEntry {
        position: (START_OF_STR_SECTION + str_size + 0x10) as u32,
        struct_count: 2,
        offset_count: 1,
        padding_count: 1,
    })
    &&& t.entries@[3] == (RelocationEntry {
        position: (brti_start + 0x60) as u32,
        struct_count: 1,
        offset_count: 3,
        padding_count: 0,
    })
    &&& t.entries@[4] == (RelocationEntry {
        position: (BNTX_HEADER_SIZE + 0x10) as u32,
        struct_count: 2,
        offset_count: 1,
        padding_count: ((brti_start + SIZE_OF_BRTI + 0x200 - (BNTX_HEADER_SIZE + 0x18)) / 8) as u8,
    })
}

/// `f` is the file that `from_image_data` builds from these arguments.
pub open spec fn is_built_from(
    f: BntxFile,
    name: Seq<u8>,
    width: u32,
    height: u32,
    depth: u32,
    mipmap_count: u32,
    layer_count: u32,
    format: SurfaceFormat,
    source: Seq<u8>,
) -> bool {
    let block_dim = format_block_dim(format);
    let bpp = format_bpp(format);
    let bh = new_block_height(format, height);
    let b = f.nx_header.brti;
    let data = swizzled_surface(
        width,
        height,
        depth,
        source,
        block_dim.0,
        block_dim.1,
        block_dim.2,
        bh,
        bpp,
        mipmap_count,
        layer_count,
    );
    &&& f.header.version == (0u16, 4u16)
    &&& f.header.bom == ByteOrder::LittleEndian
    &&& f.header.revision == 0x400c
    &&& f.header.file_name@ == name
    &&& f.header.str_section.block_size == 0x58
    &&& f.header.str_section.block_offset == 0x58
    &&& f.header.str_section.strings@.len() == 1
    &&& f.header.str_section.strings@[0].chars@ == name
    &&& is_new_reloc_table(f.header.reloc_table, pool_size_for(name.len()), data.len())
    &&& f.nx_header.dict.node_count == 0
    &&& f.nx_header.dict.nodes@.len() == 0
    &&& f.nx_header.dict_size == 0x58
    &&& b.size == 3576
    &&& b.size2 == 3576
    &&& b.flags == 1
    &&& b.texture_dimension == (if depth > 1 {
        TextureDimension::D3
    } else {
        TextureDimension::D2
    })
    &&& b.tile_mode == 0
    &&& b.swizzle == 0
    &&& b.mipmap_count == mipmap_count
    &&& b.multi_sample_count == 1
    &&& b.format == format
    &&& b.unk2 == 32
    &&& b.width == width
    &&& b.height == height
    &&& b.depth == depth
    &&& b.layer_count == layer_count
    &&& b.block_height_log2 == block_height_log2_of(bh)
    &&& b.unk4@ == seq![65543u32, 0u32, 0u32, 0u32, 0u32, 0u32]
    &&& data.len() == tiled_surface_size(
        width as nat,
        height as nat,
        depth as nat,
        block_dim,
        bh,
        bpp as nat,
        mipmap_count as nat,
        layer_count as nat,
    )
    &&& b.image_size == data.len()
    &&& b.align == 512
    &&& b.comp_sel == 84148994
    &&& b.texture_view_dimension == (if layer_count == 6 {
        TextureViewDimension::Cube
    } else if depth > 1 {
        TextureViewDimension::D3
    } else {
        TextureViewDimension::D2
    })
    &&& b.name.chars@ == name
    &&& b.parent_addr == 32
    &&& b.texture.image_data@ == data
    &&& b.texture.mipmap_offsets@.len() == mipmap_count
    &&& forall|i: int|
        0 <= i < mipmap_count ==> #[trigger] b.texture.mipmap_offsets@[i] as nat == mip_offset(
            width as nat,
            height as nat,
            depth as nat,
            block_dim,
            bh,
            bpp as nat,
            i as nat,
        )
}

/// A copy of a byte run.
fn copy_bytes(src: &[u8]) -> (r: Vec<u8>)
    ensures
        r@ == src@,
{
    let mut v: Vec<u8> = Vec::new();
    put_bytes(&mut v, src);
    proof {
        assert(Seq::<u8>::empty() + src@ =~= src@);
    }
    v
}

impl BntxFile {
    /// Builds a file holding one texture from linear pixel data: all layers
    /// one after the other, each its mip levels from the largest. The pixels
    /// are tiled with the block height that `tegra_swizzle` picks for the
    /// first mip level.
    pub fn from_image_data(
        name: &str,
        width: u32,
        height: u32,
        depth: u32,
        mipmap_count: u32,
        layer_count: u32,
        format: SurfaceFormat,
        data: &[u8],
    ) -> (r: Result<BntxFile, SurfaceError>)
        ensures
            ({
                let bpp = format_bpp(format) as nat;
                let zero = width == 0 || height == 0 || depth == 0 || mipmap_count == 0
                    || layer_count == 0;
                let fits = surface_fits(
                    width as nat,
                    height as nat,
                    depth as nat,
                    bpp,
                    mipmap_count as nat,
                    layer_count as nat,
                ) && pool_size_for(name.spec_bytes().len()) <= MAX_POOL_SIZE;
                let size = linear_surface_size(
                    width as nat,
                    height as nat,
                    depth as nat,
                    format_block_dim(format),
                    bpp,
                    mipmap_count as nat,
                    layer_count as nat,
                );
                let tiled = tiled_surface_size(
                    width as nat,
                    height as nat,
                    depth as nat,
                    format_block_dim(format),
                    new_block_height(format, height),
                    bpp,
                    mipmap_count as nat,
                    layer_count as nat,
                );
                &&& zero ==> r == Err::<BntxFile, SurfaceError>(SurfaceError::ZeroDimension)
                &&& !zero && !fits ==> r == Err::<BntxFile, SurfaceError>(SurfaceError::TooLarge)
                &&& !zero && fits && data@.len() < size ==> (r matches Err(
                    SurfaceError::NotEnoughData { expected_size, actual_size },
                ) && expected_size == size && actual_size == data@.len())
                &&& !zero && fits && data@.len() >= size && tiled > MAX_IMAGE_SIZE ==> r == Err::<
                    BntxFile,
                    SurfaceError,
                >(SurfaceError::TooLarge)
                &&& !zero && fits && data@.len() >= size && tiled <= MAX_IMAGE_SIZE ==> r is Ok
            }),
            r matches Ok(f) ==> f.wf() && is_built_from(
                f,
                name.spec_bytes(),
                width,
                height,
                depth,
                mipmap_count,
                layer_count,
                format,
                data@,
            ),
    {
        let block_dim = format.block_dim();
        let bpp = format.bytes_per_pixel();
        if width == 0 || height == 0 || depth == 0 || mipmap_count == 0 || layer_count == 0 {
            return Err(SurfaceError::ZeroDimension);
        }
        if !check_surface_fits(width, height, depth, bpp, mipmap_count, layer_count) {
            return Err(SurfaceError::TooLarge);
        }
        let name_bytes = copy_bytes(name.as_bytes());
        let str_section = StrSection {
            block_size: 0x58,
            block_offset: 0x58,
            strings: vec![BntxStr { chars: name_bytes }],
        };
        let str_size = match str_section.get_size() {
            Some(s) => s,
            None => {
                proof {
                    assert(str_section.strings@[0].chars@ == name.spec_bytes());
                    reveal_with_fuel(strings_size, 2);
                    assert(strings_size(str_section.strings@, 1) == str_entry_size(
                        str_section.strings@[0],
                    ));
                }
                return Err(SurfaceError::TooLarge);
            },
        };
        if str_size > MAX_POOL_SIZE {
            proof {
                reveal_with_fuel(strings_size, 2);
                assert(strings_size(str_section.strings@, 1) == str_entry_size(
                    str_section.strings@[0],
                ));
            }
            return Err(SurfaceError::TooLarge);
        }
        proof {
            reveal_with_fuel(strings_size, 2);
            assert(strings_size(str_section.strings@, 1) == str_entry_size(
                str_section.strings@[0],
            ));
            assert(str_size == pool_size_for(name.spec_bytes().len()));
        }
        let bh_blocks = div_round_up(height as u64, block_dim.1);
        let block_height = block_height_mip0(bh_blocks as u32);
        let block_height_log2 = block_height_log2(block_height);
        let swizzled = swizzle(
            width,
            height,
            depth,
            data,
            block_dim,
            block_height,
            bpp,
            mipmap_count,
            layer_count,
        );
        let image = match swizzled {
            Ok(v) => v,
            Err(e) => {
                return Err(e);
            },
        };
        if image.len() as u64 > MAX_IMAGE_SIZE {
            return Err(SurfaceError::TooLarge);
        }
        proof {
            assert(mipmap_count * (8 * mip_bound(width as nat, height as nat, depth as nat, bpp as nat)
                + 0x10000) <= layer_count * mipmap_count * (8 * mip_bound(
                width as nat,
                height as nat,
                depth as nat,
                bpp as nat,
            ) + 0x10000)) by (nonlinear_arith)
                requires
                    layer_count >= 1,
            ;
        }
        let mipmap_offsets = calculate_mipmap_offsets(
            mipmap_count,
            width,
            block_dim,
            height,
            depth,
            block_height,
            bpp,
        );
        let name_addr = copy_bytes(name.as_bytes());
        let file_name = copy_bytes(name.as_bytes());
        let image_len = image.len() as u64;
        let brti_start: u64 = START_OF_STR_SECTION as u64 + str_size + DICT_SECTION_SIZE as u64;
        let pad0 = (((HEADER_SIZE + MEM_POOL_SIZE) - (BNTX_HEADER_SIZE + 0x10)) / 8) as u8;
        let pad1 = ((brti_start + 0x80 - HEADER_SIZE as u64) / 8) as u8;
        let brti_tail = brti_start + SIZE_OF_BRTI as u64 + 0x200;
        let pad4 = ((brti_tail - (BNTX_HEADER_SIZE + 0x18) as u64) / 8) as u8;
        let reloc_table = RelocationTable {
            sections: vec![
                RelocationSection {
                    pointer: 0,
                    position: 0,
                    size: (brti_start + SIZE_OF_BRTI as u64 + 0x208) as u32,
                    index: 0,
                    count: 4,
                },
                RelocationSection {
                    pointer: 0,
                    position: BRTD_SECTION_START as u32,
                    size: (image_len as u128 + SIZE_OF_BRTD as u128) as u32,
                    index: 4,
                    count: 1,
                },
            ],
            entries: vec![
                RelocationEntry {
                    position: BNTX_HEADER_SIZE as u32 + 8,
                    struct_count: 2,
                    offset_count: 1,
                    padding_count: pad0,
                },
                RelocationEntry {
                    position: BNTX_HEADER_SIZE as u32 + 0x18,
                    struct_count: 2,
                    offset_count: 2,
                    padding_count: pad1,
                },
                RelocationEntry {
                    position: (START_OF_STR_SECTION as u64 + str_size + 0x10) as u32,
                    struct_count: 2,
                    offset_count: 1,
                    padding_count: 1,
                },
                RelocationEntry {
                    position: (brti_start + 0x60) as u32,
                    struct_count: 1,
                    offset_count: 3,
                    padding_count: 0,
                },
                RelocationEntry {
                    position: (BNTX_HEADER_SIZE + 0x10) as u32,
                    struct_count: 2,
                    offset_count: 1,
                    padding_count: pad4,
                },
            ],
        };
        let texture_dimension = if depth > 1 {
            TextureDimension::D3
        } else {
            TextureDimension::D2
        };
        let texture_view_dimension = if layer_count == 6 {
            TextureViewDimension::Cube
        } else if depth > 1 {
            TextureViewDimension::D3
        } else {
            TextureViewDimension::D2
        };
        let f = BntxFile {
            header: BntxHeader {
                version: (0, 4),
                bom: ByteOrder::LittleEndian,
                revision: 0x400c,
                file_name,
                str_section,
                reloc_table,
            },
            nx_header: NxHeader {
                dict: DictSection { node_count: 0, nodes: Vec::new() },
                dict_size: 0x58,
                brti: BrtiSection {
                    size: 3576,
                    size2: 3576,
                    flags: 1,
                    texture_dimension,
                    tile_mode: 0,
                    swizzle: 0,
                    mipmap_count: mipmap_count as u16,
                    multi_sample_count: 1,
                    format,
                    unk2: 32,
                    width,
                    height,
                    depth,
                    layer_count,
                    block_height_log2,
                    unk4: vec![65543, 0, 0, 0, 0, 0],
                    image_size: image_len as u32,
                    align: 512,
                    comp_sel: 84148994,
                    texture_view_dimension,
                    name: BntxStr { chars: name_addr },
                    parent_addr: 32,
                    texture: Texture { mipmap_offsets, image_data: image },
                },
            },
        };
        proof {
            let t = f.header.reloc_table;
            reveal_with_fuel(reloc_count_sum, 3);
            assert(reloc_count_sum(t.sections@, 2) == 5);
            assert(f.nx_header.brti.unk4@ =~= seq![65543u32, 0u32, 0u32, 0u32, 0u32, 0u32]);
        }
        Ok(f)
    }

    /// The linear pixels of all layers and mip levels: each layer after the
    /// other, each its mip levels from the largest, without padding.
    pub fn deswizzled_data(&self) -> (r: Result<Vec<u8>, SurfaceError>)
        ensures
            ({
                let b = self.nx_header.brti;
                let block_dim = format_block_dim(b.format);
                let bpp = format_bpp(b.format);
                let zero = b.width == 0 || b.height == 0 || b.depth == 0 || b.mipmap_count == 0
                    || b.layer_count == 0;
                let fits = surface_fits(
                    b.width as nat,
                    b.height as nat,
                    b.depth as nat,
                    bpp as nat,
                    b.mipmap_count as nat,
                    b.layer_count as nat,
                );
                &&& b.block_height_log2 > 5 ==> r == Err::<Vec<u8>, SurfaceError>(
                    SurfaceError::InvalidBlockHeight,
                )
                &&& b.block_height_log2 <= 5 && zero ==> r == Err::<Vec<u8>, SurfaceError>(
                    SurfaceError::ZeroDimension,
                )
                &&& b.block_height_log2 <= 5 && !zero && !fits ==> r == Err::<Vec<u8>, SurfaceError>(
                    SurfaceError::TooLarge,
                )
                &&& r matches Ok(v) ==> v@ == deswizzled_surface(
                    b.width,
                    b.height,
                    b.depth,
                    b.texture.image_data@,
                    block_dim.0,
                    block_dim.1,
                    block_dim.2,
                    block_height_from_log2(b.block_height_log2).unwrap(),
                    bpp,
                    b.mipmap_count as u32,
                    b.layer_count,
                ) && v@.len() == linear_surface_size(
                    b.width as nat,
                    b.height as nat,
                    b.depth as nat,
                    block_dim,
                    bpp as nat,
                    b.mipmap_count as nat,
                    b.layer_count as nat,
                )
                &&& b.block_height_log2 <= 5 && !zero && fits ==> (r is Ok <==> b.texture.image_data@.len()
                    >= tiled_surface_size(
                    b.width as nat,
                    b.height as nat,
                    b.depth as nat,
                    block_dim,
                    block_height_from_log2(b.block_height_log2).unwrap(),
                    bpp as nat,
                    b.mipmap_count as nat,
                    b.layer_count as nat,
                ))
                &&& b.block_height_log2 <= 5 && !zero && fits && r is Err ==> (r matches Err(
                    SurfaceError::NotEnoughData { .. },
                ))
                &&& r matches Err(SurfaceError::NotEnoughData { expected_size, actual_size })
                    ==> actual_size == b.texture.image_data@.len() && expected_size
                    == tiled_surface_size(
                    b.width as nat,
                    b.height as nat,
                    b.depth as nat,
                    block_dim,
                    block_height_from_log2(b.block_height_log2).unwrap(),
                    bpp as nat,
                    b.mipmap_count as nat,
                    b.layer_count as nat,
                )
            }),
    {
        let b = &self.nx_header.brti;
        let block_height = match block_height_from_log2_exec(b.block_height_log2) {
            Some(bh) => bh,
            None => {
                return Err(SurfaceError::InvalidBlockHeight);
            },
        };
        deswizzle(
            b.width,
            b.height,
            b.depth,
            b.texture.image_data.as_slice(),
            b.format.block_dim(),
            block_height,
            b.format.bytes_per_pixel(),
            b.mipmap_count as u32,
            b.layer_count,
        )
    }
}

#[verifier::external_type_specification]
#[verifier::external_body]
pub struct ExDynamicImage(image::DynamicImage);

/// Relies on `image::DynamicImage::width`: the image width in pixels.
#[verifier::external_body]
fn image_width(img: &image::DynamicImage) -> u32 {
    img.width()
}

/// Relies on `image::DynamicImage::height`: the image height in pixels.
#[verifier::external_body]
fn image_height(img: &image::DynamicImage) -> u32 {
    img.height()
}

/// Relies on `image::DynamicImage::to_rgba8` and `ImageBuffer::into_raw`: the
/// pixels converted to 8-bit RGBA, row by row.
#[verifier::external_body]
fn image_rgba8(img: &image::DynamicImage) -> Vec<u8> {
    img.to_rgba8().into_raw()
}

impl BntxFile {
    /// A file holding one 2D sRGB RGBA8 texture of one mip level and one
    /// layer, from a decoded image.
    pub fn from_image(img: image::DynamicImage, name: &str) -> (r: Result<BntxFile, SurfaceError>)
        ensures
            r matches Ok(f) ==> f.wf() && f.nx_header.brti.format == SurfaceFormat::R8G8B8A8Srgb
                && f.nx_header.brti.depth == 1 && f.nx_header.brti.mipmap_count == 1
                && f.nx_header.brti.layer_count == 1,
    {
        let data = image_rgba8(&img);
        BntxFile::from_image_data(
            name,
            image_width(&img),
            image_height(&img),
            1,
            1,
            1,
            SurfaceFormat::R8G8B8A8Srgb,
            data.as_slice(),
        )
    }
}

} // verus!
