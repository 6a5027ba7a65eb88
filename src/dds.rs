//! The bridge to DDS: format mapping between BNTX surface formats and the
//! DXGI, D3D and FourCC codes of DDS, and conversion of whole textures.
use vstd::prelude::*;
use vstd::string::StringSliceAdditionalSpecFns;
use ddsfile::{AlphaMode, D3D10ResourceDimension, D3DFormat, Dds, DxgiFormat};
use crate::error::{BntxError, Field, FormatError, SurfaceError};
use crate::format::SurfaceFormat;
use crate::model::BntxFile;

verus! {

#[verifier::external_type_specification]
#[verifier::external_body]
pub struct ExDds(ddsfile::Dds);

#[verifier::external_type_specification]
#[verifier::external_body]
pub struct ExDdsError(ddsfile::Error);

#[verifier::external_type_specification]
pub struct ExDxgiFormat(ddsfile::DxgiFormat);

#[verifier::external_type_specification]
pub struct ExD3DFormat(ddsfile::D3DFormat);

#[verifier::external_type_specification]
pub struct ExResourceDimension(ddsfile::D3D10ResourceDimension);

#[verifier::external_type_specification]
pub struct ExAlphaMode(ddsfile::AlphaMode);

pub const FOURCC_DXT1: u32 = 0x3154_5844;
pub const FOURCC_DXT2: u32 = 0x3254_5844;
pub const FOURCC_DXT3: u32 = 0x3354_5844;
pub const FOURCC_DXT4: u32 = 0x3454_5844;
pub const FOURCC_DXT5: u32 = 0x3554_5844;
pub const FOURCC_BC4U: u32 = 0x5534_4342;
pub const FOURCC_BC4S: u32 = 0x5334_4342;
pub const FOURCC_ATI2: u32 = 0x3249_5441;
pub const FOURCC_BC5U: u32 = 0x5535_4342;
pub const FOURCC_BC5S: u32 = 0x5335_4342;
/// The misc flag of a DX10 header that marks a cube map.
pub const MISC_TEXTURECUBE: u32 = 0x4;

/// The DXGI format of a surface format.
pub open spec fn dxgi_of(f: SurfaceFormat) -> DxgiFormat {
    match f {
        SurfaceFormat::R8Unorm => DxgiFormat::R8_UNorm,
        SurfaceFormat::R8G8B8A8Unorm => DxgiFormat::R8G8B8A8_UNorm,
        SurfaceFormat::R8G8B8A8Srgb => DxgiFormat::R8G8B8A8_UNorm_sRGB,
        SurfaceFormat::B8G8R8A8Unorm => DxgiFormat::B8G8R8A8_UNorm,
        SurfaceFormat::B8G8R8A8Srgb => DxgiFormat::B8G8R8A8_UNorm_sRGB,
        SurfaceFormat::BC1Unorm => DxgiFormat::BC1_UNorm,
        SurfaceFormat::BC1Srgb => DxgiFormat::BC1_UNorm_sRGB,
        SurfaceFormat::BC2Unorm => DxgiFormat::BC2_UNorm,
        SurfaceFormat::BC2Srgb => DxgiFormat::BC2_UNorm_sRGB,
        SurfaceFormat::BC3Unorm => DxgiFormat::BC3_UNorm,
        SurfaceFormat::BC3Srgb => DxgiFormat::BC3_UNorm_sRGB,
        SurfaceFormat::BC4Unorm => DxgiFormat::BC4_UNorm,
        SurfaceFormat::BC4Snorm => DxgiFormat::BC4_SNorm,
        SurfaceFormat::BC5Unorm => DxgiFormat::BC5_UNorm,
        SurfaceFormat::BC5Snorm => DxgiFormat::BC5_SNorm,
        SurfaceFormat::BC6Sfloat => DxgiFormat::BC6H_SF16,
        SurfaceFormat::BC6Ufloat => DxgiFormat::BC6H_UF16,
        SurfaceFormat::BC7Unorm => DxgiFormat::BC7_UNorm,
        SurfaceFormat::BC7Srgb => DxgiFormat::BC7_UNorm_sRGB,
    }
}

/// The surface format of a DXGI format, where there is one.
pub open spec fn surface_of_dxgi(d: DxgiFormat) -> Option<SurfaceFormat> {
    match d {
        DxgiFormat::R8_UNorm => Some(SurfaceFormat::R8Unorm),
        DxgiFormat::R8G8B8A8_UNorm => Some(SurfaceFormat::R8G8B8A8Unorm),
        DxgiFormat::R8G8B8A8_UNorm_sRGB => Some(SurfaceFormat::R8G8B8A8Srgb),
        DxgiFormat::B8G8R8A8_UNorm => Some(SurfaceFormat::B8G8R8A8Unorm),
        DxgiFormat::B8G8R8A8_UNorm_sRGB => Some(SurfaceFormat::B8G8R8A8Srgb),
        DxgiFormat::BC1_UNorm => Some(SurfaceFormat::BC1Unorm),
        DxgiFormat::BC1_UNorm_sRGB => Some(SurfaceFormat::BC1Srgb),
        DxgiFormat::BC2_UNorm => Some(SurfaceFormat::BC2Unorm),
        DxgiFormat::BC2_UNorm_sRGB => Some(SurfaceFormat::BC2Srgb),
        DxgiFormat::BC3_UNorm => Some(SurfaceFormat::BC3Unorm),
        DxgiFormat::BC3_UNorm_sRGB => Some(SurfaceFormat::BC3Srgb),
        DxgiFormat::BC4_UNorm => Some(SurfaceFormat::BC4Unorm),
        DxgiFormat::BC4_SNorm => Some(SurfaceFormat::BC4Snorm),
        DxgiFormat::BC5_UNorm => Some(SurfaceFormat::BC5Unorm),
        DxgiFormat::BC5_SNorm => Some(SurfaceFormat::BC5Snorm),
        DxgiFormat::BC6H_SF16 => Some(SurfaceFormat::BC6Sfloat),
        DxgiFormat::BC6H_UF16 => Some(SurfaceFormat::BC6Ufloat),
        DxgiFormat::BC7_UNorm => Some(SurfaceFormat::BC7Unorm),
        DxgiFormat::BC7_UNorm_sRGB => Some(SurfaceFormat::BC7Srgb),
        _ => None,
    }
}

/// The surface format of a legacy D3D format, where there is one.
pub open spec fn surface_of_d3d(d: D3DFormat) -> Option<SurfaceFormat> {
    match d {
        D3DFormat::DXT1 => Some(SurfaceFormat::BC1Unorm),
        D3DFormat::DXT2 => Some(SurfaceFormat::BC2Unorm),
        D3DFormat::DXT3 => Some(SurfaceFormat::BC2Unorm),
        D3DFormat::DXT4 => Some(SurfaceFormat::BC3Unorm),
        D3DFormat::DXT5 => Some(SurfaceFormat::BC3Unorm),
        _ => None,
    }
}

/// The surface format of a FourCC code, where there is one.
pub open spec fn surface_of_fourcc(c: u32) -> Option<SurfaceFormat> {
    if c == FOURCC_DXT1 {
        Some(SurfaceFormat::BC1Unorm)
    } else if c == FOURCC_DXT2 || c == FOURCC_DXT3 {
        Some(SurfaceFormat::BC2Unorm)
    } else if c == FOURCC_DXT4 || c == FOURCC_DXT5 {
        Some(SurfaceFormat::BC3Unorm)
    } else if c == FOURCC_BC4U {
        Some(SurfaceFormat::BC4Unorm)
    } else if c == FOURCC_BC4S {
        Some(SurfaceFormat::BC4Snorm)
    } else if c == FOURCC_ATI2 || c == FOURCC_BC5U {
        Some(SurfaceFormat::BC5Unorm)
    } else if c == FOURCC_BC5S {
        Some(SurfaceFormat::BC5Snorm)
    } else {
        None
    }
}

/// The surface format of a DDS by the DXGI format of its DX10 header, then
/// its D3D format, then its FourCC code, and last the DXGI format its legacy
/// pixel format describes.
pub open spec fn surface_of_dds(
    dxgi: Option<DxgiFormat>,
    d3d: Option<D3DFormat>,
    fourcc: Option<u32>,
    inferred: Option<DxgiFormat>,
) -> Option<SurfaceFormat> {
    let a = match dxgi {
        Some(d) => surface_of_dxgi(d),
        None => None,
    };
    let b = match d3d {
        Some(d) => surface_of_d3d(d),
        None => None,
    };
    let c = match fourcc {
        Some(x) => surface_of_fourcc(x),
        None => None,
    };
    let i = match inferred {
        Some(d) => surface_of_dxgi(d),
        None => None,
    };
    if a is Some {
        a
    } else if b is Some {
        b
    } else if c is Some {
        c
    } else {
        i
    }
}

impl SurfaceFormat {
    /// The DXGI format of this surface format.
    pub fn to_dxgi(&self) -> (r: DxgiFormat)
        ensures
            r == dxgi_of(*self),
    {
        match self {
            SurfaceFormat::R8Unorm => DxgiFormat::R8_UNorm,
            SurfaceFormat::R8G8B8A8Unorm => DxgiFormat::R8G8B8A8_UNorm,
            SurfaceFormat::R8G8B8A8Srgb => DxgiFormat::R8G8B8A8_UNorm_sRGB,
            SurfaceFormat::B8G8R8A8Unorm => DxgiFormat::B8G8R8A8_UNorm,
            SurfaceFormat::B8G8R8A8Srgb => DxgiFormat::B8G8R8A8_UNorm_sRGB,
            SurfaceFormat::BC1Unorm => DxgiFormat::BC1_UNorm,
            SurfaceFormat::BC1Srgb => DxgiFormat::BC1_UNorm_sRGB,
            SurfaceFormat::BC2Unorm => DxgiFormat::BC2_UNorm,
            SurfaceFormat::BC2Srgb => DxgiFormat::BC2_UNorm_sRGB,
            SurfaceFormat::BC3Unorm => DxgiFormat::BC3_UNorm,
            SurfaceFormat::BC3Srgb => DxgiFormat::BC3_UNorm_sRGB,
            SurfaceFormat::BC4Unorm => DxgiFormat::BC4_UNorm,
            SurfaceFormat::BC4Snorm => DxgiFormat::BC4_SNorm,
            SurfaceFormat::BC5Unorm => DxgiFormat::BC5_UNorm,
            SurfaceFormat::BC5Snorm => DxgiFormat::BC5_SNorm,
            SurfaceFormat::BC6Sfloat => DxgiFormat::BC6H_SF16,
            SurfaceFormat::BC6Ufloat => DxgiFormat::BC6H_UF16,
            SurfaceFormat::BC7Unorm => DxgiFormat::BC7_UNorm,
            SurfaceFormat::BC7Srgb => DxgiFormat::BC7_UNorm_sRGB,
        }
    }
}

pub fn image_format_from_dxgi(format: DxgiFormat) -> (r: Option<SurfaceFormat>)
    ensures
        r == surface_of_dxgi(format),
{
    match format {
        DxgiFormat::R8_UNorm => Some(SurfaceFormat::R8Unorm),
        DxgiFormat::R8G8B8A8_UNorm => Some(SurfaceFormat::R8G8B8A8Unorm),
        DxgiFormat::R8G8B8A8_UNorm_sRGB => Some(SurfaceFormat::R8G8B8A8Srgb),
        DxgiFormat::B8G8R8A8_UNorm => Some(SurfaceFormat::B8G8R8A8Unorm),
        DxgiFormat::B8G8R8A8_UNorm_sRGB => Some(SurfaceFormat::B8G8R8A8Srgb),
        DxgiFormat::BC1_UNorm => Some(SurfaceFormat::BC1Unorm),
        DxgiFormat::BC1_UNorm_sRGB => Some(SurfaceFormat::BC1Srgb),
        DxgiFormat::BC2_UNorm => Some(SurfaceFormat::BC2Unorm),
        DxgiFormat::BC2_UNorm_sRGB => Some(SurfaceFormat::BC2Srgb),
        DxgiFormat::BC3_UNorm => Some(SurfaceFormat::BC3Unorm),
        DxgiFormat::BC3_UNorm_sRGB => Some(SurfaceFormat::BC3Srgb),
        DxgiFormat::BC4_UNorm => Some(SurfaceFormat::BC4Unorm),
        DxgiFormat::BC4_SNorm => Some(SurfaceFormat::BC4Snorm),
        DxgiFormat::BC5_UNorm => Some(SurfaceFormat::BC5Unorm),
        DxgiFormat::BC5_SNorm => Some(SurfaceFormat::BC5Snorm),
        DxgiFormat::BC6H_SF16 => Some(SurfaceFormat::BC6Sfloat),
        DxgiFormat::BC6H_UF16 => Some(SurfaceFormat::BC6Ufloat),
        DxgiFormat::BC7_UNorm => Some(SurfaceFormat::BC7Unorm),
        DxgiFormat::BC7_UNorm_sRGB => Some(SurfaceFormat::BC7Srgb),
        _ => None,
    }
}

pub fn image_format_from_d3d(format: D3DFormat) -> (r: Option<SurfaceFormat>)
    ensures
        r == surface_of_d3d(format),
{
    match format {
        D3DFormat::DXT1 => Some(SurfaceFormat::BC1Unorm),
        D3DFormat::DXT2 => Some(SurfaceFormat::BC2Unorm),
        D3DFormat::DXT3 => Some(SurfaceFormat::BC2Unorm),
        D3DFormat::DXT4 => Some(SurfaceFormat::BC3Unorm),
        D3DFormat::DXT5 => Some(SurfaceFormat::BC3Unorm),
        _ => None,
    }
}

pub fn image_format_from_fourcc(fourcc: u32) -> (r: Option<SurfaceFormat>)
    ensures
        r == surface_of_fourcc(fourcc),
{
    if fourcc == FOURCC_DXT1 {
        Some(SurfaceFormat::BC1Unorm)
    } else if fourcc == FOURCC_DXT2 || fourcc == FOURCC_DXT3 {
        Some(SurfaceFormat::BC2Unorm)
    } else if fourcc == FOURCC_DXT4 || fourcc == FOURCC_DXT5 {
        Some(SurfaceFormat::BC3Unorm)
    } else if fourcc == FOURCC_BC4U {
        Some(SurfaceFormat::BC4Unorm)
    } else if fourcc == FOURCC_BC4S {
        Some(SurfaceFormat::BC4Snorm)
    } else if fourcc == FOURCC_ATI2 || fourcc == FOURCC_BC5U {
        Some(SurfaceFormat::BC5Unorm)
    } else if fourcc == FOURCC_BC5S {
        Some(SurfaceFormat::BC5Snorm)
    } else {
        None
    }
}

/// The surface format of a DDS: the DXGI format of its DX10 header if that
/// maps, else its D3D format if that maps, else its FourCC code if that
/// maps, else the DXGI format its legacy pixel format describes.
pub fn dds_image_format(
    dxgi: Option<DxgiFormat>,
    d3d: Option<D3DFormat>,
    fourcc: Option<u32>,
    inferred: Option<DxgiFormat>,
) -> (r: Option<SurfaceFormat>)
    ensures
        r == surface_of_dds(dxgi, d3d, fourcc, inferred),
{
    let a = match dxgi {
        Some(d) => image_format_from_dxgi(d),
        None => None,
    };
    if a.is_some() {
        return a;
    }
    let b = match d3d {
        Some(d) => image_format_from_d3d(d),
        None => None,
    };
    if b.is_some() {
        return b;
    }
    let c = match fourcc {
        Some(x) => image_format_from_fourcc(x),
        None => None,
    };
    if c.is_some() {
        return c;
    }
    match inferred {
        Some(d) => image_format_from_dxgi(d),
        None => None,
    }
}

/// Every surface format comes back from its DXGI format.
pub proof fn lemma_dxgi_round_trip(f: SurfaceFormat)
    ensures
        surface_of_dxgi(dxgi_of(f)) == Some(f),
{
}

/// What a DDS header says of a texture, as the BNTX side decides it.
pub struct DdsParams {
    pub width: u32,
    pub height: u32,
    pub depth: Option<u32>,
    pub format: DxgiFormat,
    pub mipmap_levels: Option<u32>,
    pub array_layers: Option<u32>,
    /// Whether the header carries the volume capability.
    pub volume: bool,
    pub is_cubemap: bool,
    pub resource_dimension: D3D10ResourceDimension,
    pub alpha_mode: AlphaMode,
}

/// `Some(x)` where `x` is above one, else `None`.
pub open spec fn some_above_one(x: u32) -> Option<u32> {
    if x > 1 {
        Some(x)
    } else {
        None
    }
}

fn some_if_above_one(x: u32) -> (r: Option<u32>)
    ensures
        r == some_above_one(x),
{
    if x > 1 {
        Some(x)
    } else {
        None
    }
}

/// The DDS header parameters of a file: a DX10 header with the surface's
/// DXGI format; depth, mip count and layer count only where above one; a
/// volume texture where the depth is above one; a cube map for six layers.
pub fn dds_params(bntx: &BntxFile) -> (r: DdsParams)
    ensures
        ({
            let b = bntx.nx_header.brti;
            &&& r.width == b.width
            &&& r.height == b.height
            &&& r.depth == some_above_one(b.depth)
            &&& r.format == dxgi_of(b.format)
            &&& r.mipmap_levels == some_above_one(b.mipmap_count as u32)
            &&& r.array_layers == some_above_one(b.layer_count)
            &&& r.volume == (b.depth > 1)
            &&& r.is_cubemap == (b.layer_count == 6)
            &&& r.resource_dimension == (if b.depth > 1 {
                D3D10ResourceDimension::Texture3D
            } else {
                D3D10ResourceDimension::Texture2D
            })
            &&& r.alpha_mode == AlphaMode::Unknown
        }),
{
    let b = &bntx.nx_header.brti;
    DdsParams {
        width: b.width,
        height: b.height,
        depth: some_if_above_one(b.depth),
        format: b.format.to_dxgi(),
        mipmap_levels: some_if_above_one(b.mipmap_count as u32),
        array_layers: some_if_above_one(b.layer_count),
        volume: b.depth > 1,
        is_cubemap: b.layer_count == 6,
        resource_dimension: if b.depth > 1 {
            D3D10ResourceDimension::Texture3D
        } else {
            D3D10ResourceDimension::Texture2D
        },
        alpha_mode: AlphaMode::Unknown,
    }
}

/// The number of BNTX layers of a DDS with the given array layers and DX10
/// misc flag: six faces for each array layer of a cube map.
pub open spec fn dds_layer_count(array_layers: u32, misc_flag: Option<u32>) -> int {
    if misc_flag == Some(MISC_TEXTURECUBE) {
        array_layers * 6
    } else {
        array_layers as int
    }
}

/// The number of BNTX layers of a DDS: a cube map counts six faces for each
/// of its array layers. `None` where that overflows.
pub fn layer_count(array_layers: u32, misc_flag: Option<u32>) -> (r: Option<u32>)
    ensures
        dds_layer_count(array_layers, misc_flag) <= u32::MAX ==> r == Some(
            dds_layer_count(array_layers, misc_flag) as u32,
        ),
        dds_layer_count(array_layers, misc_flag) > u32::MAX ==> r is None,
{
    let cube = match misc_flag {
        Some(m) => m == MISC_TEXTURECUBE,
        None => false,
    };
    if cube {
        if array_layers > u32::MAX / 6 {
            return None;
        }
        Some(array_layers * 6)
    } else {
        Some(array_layers)
    }
}

/// A depth above one makes a volume texture, a depth of one a 2D texture;
/// one mip level is written without a mip count.
pub proof fn lemma_dds_flags(bntx: &BntxFile, r: DdsParams)
    requires
        r.depth == some_above_one(bntx.nx_header.brti.depth),
        r.volume == (bntx.nx_header.brti.depth > 1),
        r.resource_dimension == (if bntx.nx_header.brti.depth > 1 {
            D3D10ResourceDimension::Texture3D
        } else {
            D3D10ResourceDimension::Texture2D
        }),
        r.mipmap_levels == some_above_one(bntx.nx_header.brti.mipmap_count as u32),
    ensures
        bntx.nx_header.brti.depth == 1 ==> !r.volume && r.depth is None && r.resource_dimension
            == D3D10ResourceDimension::Texture2D,
        bntx.nx_header.brti.mipmap_count == 1 ==> r.mipmap_levels is None,
{
}


/// The `u32` size arithmetic of a DDS of this extent, in a format of at
/// most 32 bits per pixel or 16 bytes per block, does not overflow: the row
/// pitch `(w * 32 + 7) / 8`, at most four bytes per pixel plus one block,
/// rows rounded up to blocks, summed over mip levels and array layers.
pub open spec fn dds_size_fits(w: nat, h: nat, d: nat, mips: nat, layers: nat) -> bool {
    &&& w <= 0x7FF_FFFF
    &&& ((4 * w + 16) * (h + 3) * d + 16) * mips * layers <= u32::MAX
}

/// Whether `dds_size_fits` holds, computed.
fn check_dds_size(w: u32, h: u32, d: u32, mips: u32, layers: u32) -> (r: bool)
    ensures
        r == dds_size_fits(w as nat, h as nat, d as nat, mips as nat, layers as nat),
{
    if w > 0x7FF_FFFF {
        return false;
    }
    let a: u128 = 4 * w as u128 + 16;
    let b: u128 = h as u128 + 3;
    assert(a * b <= 0x2000_0010 * 0x1_0000_0003) by (nonlinear_arith)
        requires
            a <= 0x2000_0010,
            b <= 0x1_0000_0003,
    ;
    let ab = a * b;
    assert(ab * (d as u128) <= 0x2000_0010 * 0x1_0000_0003 * 0x1_0000_0000) by (nonlinear_arith)
        requires
            ab <= 0x2000_0010 * 0x1_0000_0003,
            d <= u32::MAX,
    ;
    let t = ab * d as u128 + 16;
    assert(t * (mips as u128) <= 0x2000_0010 * 0x1_0000_0003 * 0x1_0000_0000 * 0x1_0000_0000 + 16
        * 0x1_0000_0000) by (nonlinear_arith)
        requires
            t <= 0x2000_0010 * 0x1_0000_0003 * 0x1_0000_0000 + 16,
            mips <= u32::MAX,
    ;
    let tm = t * mips as u128;
    if tm > u32::MAX as u128 {
        proof {
            if layers >= 1 {
                assert(tm * layers >= tm) by (nonlinear_arith)
                    requires
                        layers >= 1,
                ;
            } else {
                assert(tm * layers == 0) by (nonlinear_arith)
                    requires
                        layers == 0,
                ;
            }
        }
        return layers == 0;
    }
    assert(tm * (layers as u128) <= 0x1_0000_0000 * 0x1_0000_0000) by (nonlinear_arith)
        requires
            tm <= u32::MAX,
            layers <= u32::MAX,
    ;
    tm * layers as u128 <= u32::MAX as u128
}

/// The value of an optional count, one where it is absent.
pub open spec fn count_or_one(x: Option<u32>) -> nat {
    match x {
        Some(v) => v as nat,
        None => 1,
    }
}

/// The DDS code of the DX10 header extension, which a DDS with a DX10
/// header carries as its FourCC.
pub const FOURCC_DX10: u32 = 0x3031_5844;

/// What the library knows of a DDS: the values its reading methods return,
/// the volume capability and resource dimension of its headers, and its
/// pixels.
pub struct DdsModel {
    pub width: u32,
    pub height: u32,
    pub depth: u32,
    pub mipmap_levels: u32,
    pub array_layers: u32,
    pub misc_flag: Option<u32>,
    pub dxgi: Option<DxgiFormat>,
    pub d3d: Option<D3DFormat>,
    pub fourcc: Option<u32>,
    pub inferred: Option<DxgiFormat>,
    pub volume: bool,
    pub resource_dimension: Option<D3D10ResourceDimension>,
    pub data: Seq<u8>,
}

/// A DDS together with its model. Only the functions of this module make
/// or change one, and each keeps the model that of the DDS.
pub struct DdsTexture {
    dds: Dds,
    model: Ghost<DdsModel>,
}

impl View for DdsTexture {
    type V = DdsModel;

    closed spec fn view(&self) -> DdsModel {
        self.model@
    }
}

impl DdsTexture {
    /// Takes a DDS, whatever it holds: its model is what its reading methods
    /// return.
    pub fn from_dds(dds: Dds) -> (r: DdsTexture) {
        DdsTexture { dds, model: Ghost(arbitrary()) }
    }

    pub fn dds(&self) -> &Dds {
        &self.dds
    }

    pub fn into_dds(self) -> Dds {
        self.dds
    }
}

/// Relies on `ddsfile::Dds::new_dxgi`: a DDS with a DX10 header built from
/// the given parameters. It fails only where the format has neither a bit
/// count per pixel nor a block size (`get_pitch` or
/// `get_minimum_mipmap_size_in_bytes` is `None`); every format that a surface
/// format maps to has one of them, of at most 32 bits or 16 bytes. Its size
/// arithmetic is in `u32`, which the bound keeps from overflowing. The header
/// takes the extent, mip count and caps as given, an absent depth or mip count
/// reading as one, and the DX10 header takes the format, the misc flag of a
/// cube map, the resource dimension and an array size counted in cubes.
#[verifier::external_body]
fn new_dxgi(p: DdsParams) -> (r: Result<DdsTexture, ddsfile::Error>)
    requires
        surface_of_dxgi(p.format) is Some,
        p.depth != Some(0u32),
        p.mipmap_levels != Some(0u32),
        p.array_layers != Some(0u32),
        dds_size_fits(
            p.width as nat,
            p.height as nat,
            count_or_one(p.depth),
            count_or_one(p.mipmap_levels),
            count_or_one(p.array_layers),
        ),
    ensures
        r is Ok,
        r matches Ok(t) ==> {
            let m = t@;
            &&& m.width == p.width
            &&& m.height == p.height
            &&& m.depth == count_or_one(p.depth)
            &&& m.mipmap_levels == count_or_one(p.mipmap_levels)
            &&& m.array_layers == (if p.is_cubemap {
                count_or_one(p.array_layers) / 6
            } else {
                count_or_one(p.array_layers)
            })
            &&& m.misc_flag == Some(
                if p.is_cubemap {
                    MISC_TEXTURECUBE
                } else {
                    0u32
                },
            )
            &&& m.dxgi == Some(p.format)
            &&& m.inferred == Some(p.format)
            &&& m.fourcc == Some(FOURCC_DX10)
            &&& m.volume == p.volume
            &&& m.resource_dimension == Some(p.resource_dimension)
        },
{
    Dds::new_dxgi(ddsfile::NewDxgiParams {
        height: p.height,
        width: p.width,
        depth: p.depth,
        format: p.format,
        mipmap_levels: p.mipmap_levels,
        array_layers: p.array_layers,
        caps2: p.volume.then_some(ddsfile::Caps2::VOLUME),
        is_cubemap: p.is_cubemap,
        resource_dimension: p.resource_dimension,
        alpha_mode: p.alpha_mode,
    }).map(DdsTexture::from_dds)
}

/// Relies on the `data` field of `ddsfile::Dds`: it holds the pixels of all
/// layers and mip levels, and nothing else reads it.
#[verifier::external_body]
fn set_dds_data(t: &mut DdsTexture, data: Vec<u8>)
    ensures
        final(t)@ == (DdsModel { data: data@, ..old(t)@ }),
{
    t.dds.data = data;
}

/// The pixels that `create_dds` puts in the DDS of a file: its untiled
/// surface.
pub open spec fn untiled_pixels(b: crate::model::BrtiSection) -> Seq<u8> {
    let block_dim = crate::format::format_block_dim(b.format);
    crate::swizzle::deswizzled_surface(
        b.width,
        b.height,
        b.depth,
        b.texture.image_data@,
        block_dim.0,
        block_dim.1,
        block_dim.2,
        crate::swizzle::block_height_from_log2(b.block_height_log2).unwrap(),
        crate::format::format_bpp(b.format),
        b.mipmap_count as u32,
        b.layer_count,
    )
}

/// The model of the DDS that `create_dds` makes of a file.
pub open spec fn is_dds_of(m: DdsModel, bntx: BntxFile) -> bool {
    let b = bntx.nx_header.brti;
    let layers = count_or_one(some_above_one(b.layer_count));
    &&& m.width == b.width
    &&& m.height == b.height
    &&& m.depth == count_or_one(some_above_one(b.depth))
    &&& m.mipmap_levels == count_or_one(some_above_one(b.mipmap_count as u32))
    &&& m.array_layers == (if b.layer_count == 6 {
        layers / 6
    } else {
        layers
    })
    &&& m.misc_flag == Some(
        if b.layer_count == 6 {
            MISC_TEXTURECUBE
        } else {
            0u32
        },
    )
    &&& m.dxgi == Some(dxgi_of(b.format))
    &&& m.inferred == Some(dxgi_of(b.format))
    &&& m.fourcc == Some(FOURCC_DX10)
    &&& m.volume == (b.depth > 1)
    &&& m.resource_dimension == Some(
        if b.depth > 1 {
            D3D10ResourceDimension::Texture3D
        } else {
            D3D10ResourceDimension::Texture2D
        },
    )
    &&& m.data == untiled_pixels(b)
}

/// Six layers make a cube map: the DDS of such a file has the cube flag and
/// one array layer, and a file built back from it has six layers again.
pub proof fn lemma_cube_layers(bntx: &BntxFile, m: DdsModel)
    requires
        is_dds_of(m, *bntx),
        bntx.nx_header.brti.layer_count == 6,
    ensures
        m.misc_flag == Some(MISC_TEXTURECUBE),
        m.array_layers == 1,
        dds_layer_count(m.array_layers, m.misc_flag) == 6,
{
}

/// The DDS of a file of depth one is a 2D texture without the volume
/// capability, and one of greater depth a volume texture; a file of one mip
/// level gives a DDS of one mip level.
pub proof fn lemma_dds_model_flags(bntx: &BntxFile, m: DdsModel)
    requires
        is_dds_of(m, *bntx),
    ensures
        bntx.nx_header.brti.depth == 1 ==> !m.volume && m.depth == 1 && m.resource_dimension
            == Some(D3D10ResourceDimension::Texture2D),
        bntx.nx_header.brti.depth > 1 ==> m.volume && m.depth == bntx.nx_header.brti.depth
            && m.resource_dimension == Some(D3D10ResourceDimension::Texture3D),
        bntx.nx_header.brti.mipmap_count == 1 ==> m.mipmap_levels == 1,
        bntx.nx_header.brti.layer_count != 6 ==> m.misc_flag == Some(0u32),
{
}

/// A DDS of the file's texture, with its untiled pixels.
pub fn create_dds(bntx: &BntxFile) -> (r: Result<DdsTexture, BntxError>)
    ensures
        ({
            let b = bntx.nx_header.brti;
            let zero = b.width == 0 || b.height == 0 || b.depth == 0 || b.mipmap_count == 0
                || b.layer_count == 0;
            let fits = crate::swizzle::surface_fits(
                b.width as nat,
                b.height as nat,
                b.depth as nat,
                crate::format::format_bpp(b.format) as nat,
                b.mipmap_count as nat,
                b.layer_count as nat,
            );
            let tiled = crate::swizzle::tiled_surface_size(
                b.width as nat,
                b.height as nat,
                b.depth as nat,
                crate::format::format_block_dim(b.format),
                crate::swizzle::block_height_from_log2(b.block_height_log2).unwrap(),
                crate::format::format_bpp(b.format) as nat,
                b.mipmap_count as nat,
                b.layer_count as nat,
            );
            let dds_fits = dds_size_fits(
                b.width as nat,
                b.height as nat,
                count_or_one(some_above_one(b.depth)),
                count_or_one(some_above_one(b.mipmap_count as u32)),
                count_or_one(some_above_one(b.layer_count)),
            );
            let valid = b.block_height_log2 <= 5 && !zero && fits;
            let len = b.texture.image_data@.len();
            &&& b.block_height_log2 > 5 ==> (r matches Err(
                BntxError::Swizzle(SurfaceError::InvalidBlockHeight),
            ))
            &&& b.block_height_log2 <= 5 && zero ==> (r matches Err(
                BntxError::Swizzle(SurfaceError::ZeroDimension),
            ))
            &&& b.block_height_log2 <= 5 && !zero && !fits ==> (r matches Err(
                BntxError::Swizzle(SurfaceError::TooLarge),
            ))
            &&& valid && len < tiled ==> (r matches Err(
                BntxError::Swizzle(SurfaceError::NotEnoughData { expected_size, actual_size }),
            ) && expected_size == tiled && actual_size == len)
            &&& valid && len >= tiled && !dds_fits ==> (r matches Err(BntxError::Format(e)) && e
                == FormatError { offset: 0, field: Field::Layout })
            &&& valid && len >= tiled && dds_fits ==> r is Ok
            &&& r matches Ok(t) ==> is_dds_of(t@, *bntx)
        }),
{
    let params = dds_params(bntx);
    let b = &bntx.nx_header.brti;
    let data = match bntx.deswizzled_data() {
        Ok(d) => d,
        Err(e) => {
            return Err(BntxError::Swizzle(e));
        },
    };
    let fits = check_dds_size(
        b.width,
        b.height,
        if b.depth > 1 { b.depth } else { 1 },
        if b.mipmap_count > 1 { b.mipmap_count as u32 } else { 1 },
        if b.layer_count > 1 { b.layer_count } else { 1 },
    );
    if !fits {
        return Err(BntxError::Format(FormatError { offset: 0, field: Field::Layout }));
    }
    let mut t = match new_dxgi(params) {
        Ok(d) => d,
        Err(_) => {
            return Err(BntxError::Format(FormatError { offset: 0, field: Field::DdsFormat }));
        },
    };
    set_dds_data(&mut t, data);
    Ok(t)
}

/// Relies on `ddsfile::Dds::get_width`: the width of the main image, in
/// pixels.
#[verifier::external_body]
fn dds_width(t: &DdsTexture) -> (r: u32)
    ensures
        r == t@.width,
{
    t.dds.get_width()
}

/// Relies on `ddsfile::Dds::get_height`: the height of the main image, in
/// pixels.
#[verifier::external_body]
fn dds_height(t: &DdsTexture) -> (r: u32)
    ensures
        r == t@.height,
{
    t.dds.get_height()
}

/// Relies on `ddsfile::Dds::get_depth`: the depth of a volume texture, one
/// otherwise.
#[verifier::external_body]
fn dds_depth(t: &DdsTexture) -> (r: u32)
    ensures
        r == t@.depth,
{
    t.dds.get_depth()
}

/// Relies on `ddsfile::Dds::get_num_mipmap_levels`: the mip count, one where
/// the header has none.
#[verifier::external_body]
fn dds_mipmap_levels(t: &DdsTexture) -> (r: u32)
    ensures
        r == t@.mipmap_levels,
{
    t.dds.get_num_mipmap_levels()
}

/// Relies on `ddsfile::Dds::get_num_array_layers`: the array size of the
/// DX10 header, six for a legacy cube map, one otherwise.
#[verifier::external_body]
fn dds_array_layers(t: &DdsTexture) -> (r: u32)
    ensures
        r == t@.array_layers,
{
    t.dds.get_num_array_layers()
}

/// Relies on `ddsfile::MiscFlag::bits`: the misc flag of the DX10 header,
/// where there is one.
#[verifier::external_body]
fn dds_misc_flag(t: &DdsTexture) -> (r: Option<u32>)
    ensures
        r == t@.misc_flag,
{
    t.dds.header10.as_ref().map(|h| h.misc_flag.bits())
}

/// Relies on the `dxgi_format` field of the DX10 header of a DDS, where
/// there is such a header.
#[verifier::external_body]
fn dds_dxgi_format(t: &DdsTexture) -> (r: Option<DxgiFormat>)
    ensures
        r == t@.dxgi,
{
    t.dds.header10.as_ref().map(|h| h.dxgi_format)
}

/// Relies on `ddsfile::Dds::get_d3d_format`: the legacy format its pixel
/// format describes, if any.
#[verifier::external_body]
fn dds_d3d_format(t: &DdsTexture) -> (r: Option<D3DFormat>)
    ensures
        r == t@.d3d,
{
    t.dds.get_d3d_format()
}

/// Relies on `ddsfile::Dds::get_dxgi_format`: the DXGI format of the DX10
/// header, or else the one its legacy pixel format describes, if any.
#[verifier::external_body]
fn dds_inferred_dxgi_format(t: &DdsTexture) -> (r: Option<DxgiFormat>)
    ensures
        r == t@.inferred,
{
    t.dds.get_dxgi_format()
}

/// Relies on the `fourcc` field of a DDS pixel format: its code, where there
/// is one.
#[verifier::external_body]
fn dds_fourcc(t: &DdsTexture) -> (r: Option<u32>)
    ensures
        r == t@.fourcc,
{
    t.dds.header.spf.fourcc.as_ref().map(|f| f.0)
}

/// Relies on the `data` field of `ddsfile::Dds`: the pixels of all layers
/// and mip levels.
#[verifier::external_body]
fn dds_data(t: &DdsTexture) -> (r: &[u8])
    ensures
        r@ == t@.data,
{
    &t.dds.data
}

/// What building a file from these DDS values gives: the exact outcome of
/// `bntx_from_dds_parts`.
pub open spec fn dds_parts_outcome(
    name: Seq<u8>,
    width: u32,
    height: u32,
    depth: u32,
    mipmap_levels: u32,
    array_layers: u32,
    misc_flag: Option<u32>,
    dxgi: Option<DxgiFormat>,
    d3d: Option<D3DFormat>,
    fourcc: Option<u32>,
    inferred: Option<DxgiFormat>,
    data: Seq<u8>,
    r: Result<BntxFile, BntxError>,
) -> bool {
    &&& (surface_of_dds(dxgi, d3d, fourcc, inferred) is None ==> r == Err::<BntxFile, BntxError>(
            BntxError::Format(FormatError { offset: 0, field: Field::DdsFormat }),
        ))
    &&& (surface_of_dds(dxgi, d3d, fourcc, inferred) is Some && dds_layer_count(
            array_layers,
            misc_flag,
        ) > u32::MAX ==> r == Err::<BntxFile, BntxError>(
            BntxError::Swizzle(SurfaceError::TooLarge),
        ))
    &&& (r matches Ok(f) ==> f.wf() && crate::construct::is_built_from(
            f,
            name,
            width,
            height,
            depth,
            mipmap_levels,
            dds_layer_count(array_layers, misc_flag) as u32,
            surface_of_dds(dxgi, d3d, fourcc, inferred).unwrap(),
            data,
        ))
    &&& (({
            let f = surface_of_dds(dxgi, d3d, fourcc, inferred).unwrap();
            let layers = dds_layer_count(array_layers, misc_flag);
            let bpp = crate::format::format_bpp(f) as nat;
            surface_of_dds(dxgi, d3d, fourcc, inferred) is Some && layers <= u32::MAX ==> (r is Ok
                <==> (width != 0 && height != 0 && depth != 0 && mipmap_levels != 0 && layers != 0
                && crate::swizzle::surface_fits(
                width as nat,
                height as nat,
                depth as nat,
                bpp,
                mipmap_levels as nat,
                layers as nat,
            ) && crate::construct::pool_size_for(name.len())
                <= crate::construct::MAX_POOL_SIZE && data.len()
                >= crate::swizzle::linear_surface_size(
                width as nat,
                height as nat,
                depth as nat,
                crate::format::format_block_dim(f),
                bpp,
                mipmap_levels as nat,
                layers as nat,
            ) && crate::swizzle::tiled_surface_size(
                width as nat,
                height as nat,
                depth as nat,
                crate::format::format_block_dim(f),
                crate::construct::new_block_height(f, height),
                bpp,
                mipmap_levels as nat,
                layers as nat,
            ) <= crate::construct::MAX_IMAGE_SIZE))
        }))
}

/// Builds a file from what a DDS holds: its extent, mip count, array layers
/// and misc flag, its DXGI, D3D and FourCC codes, and its linear pixels.
/// The surface format comes from the codes in that order; a cube map counts
/// six layers per array layer.
pub fn bntx_from_dds_parts(
    name: &str,
    width: u32,
    height: u32,
    depth: u32,
    mipmap_levels: u32,
    array_layers: u32,
    misc_flag: Option<u32>,
    dxgi: Option<DxgiFormat>,
    d3d: Option<D3DFormat>,
    fourcc: Option<u32>,
    inferred: Option<DxgiFormat>,
    data: &[u8],
) -> (r: Result<BntxFile, BntxError>)
    ensures
        dds_parts_outcome(
            name.spec_bytes(),
            width,
            height,
            depth,
            mipmap_levels,
            array_layers,
            misc_flag,
            dxgi,
            d3d,
            fourcc,
            inferred,
            data@,
            r,
        ),
{
    let format = match dds_image_format(dxgi, d3d, fourcc, inferred) {
        Some(f) => f,
        None => {
            return Err(BntxError::Format(FormatError { offset: 0, field: Field::DdsFormat }));
        },
    };
    let layers = match layer_count(array_layers, misc_flag) {
        Some(n) => n,
        None => {
            return Err(BntxError::Swizzle(SurfaceError::TooLarge));
        },
    };
    match BntxFile::from_image_data(name, width, height, depth, mipmap_levels, layers, format, data) {
        Ok(f) => Ok(f),
        Err(e) => Err(BntxError::Swizzle(e)),
    }
}

/// A file of the texture a DDS holds, its pixels tiled: what
/// `bntx_from_dds_parts` makes of the values the DDS holds.
pub fn create_bntx(name: &str, dds: &DdsTexture) -> (r: Result<BntxFile, BntxError>)
    ensures
        ({
            let m = dds@;
            dds_parts_outcome(
                name.spec_bytes(),
                m.width,
                m.height,
                m.depth,
                m.mipmap_levels,
                m.array_layers,
                m.misc_flag,
                m.dxgi,
                m.d3d,
                m.fourcc,
                m.inferred,
                m.data,
                r,
            )
        }),
{
    bntx_from_dds_parts(
        name,
        dds_width(dds),
        dds_height(dds),
        dds_depth(dds),
        dds_mipmap_levels(dds),
        dds_array_layers(dds),
        dds_misc_flag(dds),
        dds_dxgi_format(dds),
        dds_d3d_format(dds),
        dds_fourcc(dds),
        dds_inferred_dxgi_format(dds),
        dds_data(dds),
    )
}

} // verus!
