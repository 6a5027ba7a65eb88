//! The closed catalog of surface formats and the two dimension enums of a
//! texture record, with their wire codes and their block geometry.
use vstd::prelude::*;

verus! {

/// A pixel format of a BNTX surface. Each value has a stable `u32` wire code.
#[derive(Debug, Clone, Copy, PartialEq, Eq, Structural)]
pub enum SurfaceFormat {
    R8Unorm,
    R8G8B8A8Unorm,
    R8G8B8A8Srgb,
    B8G8R8A8Unorm,
    B8G8R8A8Srgb,
    BC1Unorm,
    BC1Srgb,
    BC2Unorm,
    BC2Srgb,
    BC3Unorm,
    BC3Srgb,
    BC4Unorm,
    BC4Snorm,
    BC5Unorm,
    BC5Snorm,
    BC6Sfloat,
    BC6Ufloat,
    BC7Unorm,
    BC7Srgb,
}

/// The wire code of a surface format.
pub open spec fn format_code(f: SurfaceFormat) -> u32 {
    match f {
        SurfaceFormat::R8Unorm => 0x0201,
        SurfaceFormat::R8G8B8A8Unorm => 0x0b01,
        SurfaceFormat::R8G8B8A8Srgb => 0x0b06,
        SurfaceFormat::B8G8R8A8Unorm => 0x0c01,
        SurfaceFormat::B8G8R8A8Srgb => 0x0c06,
        SurfaceFormat::BC1Unorm => 0x1a01,
        SurfaceFormat::BC1Srgb => 0x1a06,
        SurfaceFormat::BC2Unorm => 0x1b01,
        SurfaceFormat::BC2Srgb => 0x1b06,
        SurfaceFormat::BC3Unorm => 0x1c01,
        SurfaceFormat::BC3Srgb => 0x1c06,
        SurfaceFormat::BC4Unorm => 0x1d01,
        SurfaceFormat::BC4Snorm => 0x1d02,
        SurfaceFormat::BC5Unorm => 0x1e01,
        SurfaceFormat::BC5Snorm => 0x1e02,
        SurfaceFormat::BC6Sfloat => 0x1f05,
        SurfaceFormat::BC6Ufloat => 0x1f0a,
        SurfaceFormat::BC7Unorm => 0x2001,
        SurfaceFormat::BC7Srgb => 0x2006,
    }
}

/// Whether a surface format is stored in 4x4 compressed blocks.
pub open spec fn is_block_compressed(f: SurfaceFormat) -> bool {
    !(f is R8Unorm || f is R8G8B8A8Unorm || f is R8G8B8A8Srgb || f is B8G8R8A8Unorm
        || f is B8G8R8A8Srgb)
}

/// Bytes per pixel, or per compressed block for block-compressed formats.
pub open spec fn format_bpp(f: SurfaceFormat) -> u64 {
    match f {
        SurfaceFormat::R8Unorm => 1,
        SurfaceFormat::R8G8B8A8Unorm | SurfaceFormat::R8G8B8A8Srgb | SurfaceFormat::B8G8R8A8Unorm
        | SurfaceFormat::B8G8R8A8Srgb => 4,
        SurfaceFormat::BC1Unorm | SurfaceFormat::BC1Srgb | SurfaceFormat::BC4Unorm
        | SurfaceFormat::BC4Snorm => 8,
        _ => 16,
    }
}

/// The block dimensions (width, height, depth) in pixels.
pub open spec fn format_block_dim(f: SurfaceFormat) -> (u64, u64, u64) {
    if is_block_compressed(f) {
        (4, 4, 1)
    } else {
        (1, 1, 1)
    }
}

impl SurfaceFormat {
    /// The wire code of this format.
    pub fn code(&self) -> (r: u32)
        ensures
            r == format_code(*self),
    {
        match self {
            SurfaceFormat::R8Unorm => 0x0201,
            SurfaceFormat::R8G8B8A8Unorm => 0x0b01,
            SurfaceFormat::R8G8B8A8Srgb => 0x0b06,
            SurfaceFormat::B8G8R8A8Unorm => 0x0c01,
            SurfaceFormat::B8G8R8A8Srgb => 0x0c06,
            SurfaceFormat::BC1Unorm => 0x1a01,
            SurfaceFormat::BC1Srgb => 0x1a06,
            SurfaceFormat::BC2Unorm => 0x1b01,
            SurfaceFormat::BC2Srgb => 0x1b06,
            SurfaceFormat::BC3Unorm => 0x1c01,
            SurfaceFormat::BC3Srgb => 0x1c06,
            SurfaceFormat::BC4Unorm => 0x1d01,
            SurfaceFormat::BC4Snorm => 0x1d02,
            SurfaceFormat::BC5Unorm => 0x1e01,
            SurfaceFormat::BC5Snorm => 0x1e02,
            SurfaceFormat::BC6Sfloat => 0x1f05,
            SurfaceFormat::BC6Ufloat => 0x1f0a,
            SurfaceFormat::BC7Unorm => 0x2001,
            SurfaceFormat::BC7Srgb => 0x2006,
        }
    }

    /// The format with the given wire code, if there is one.
    pub fn from_code(code: u32) -> (r: Option<SurfaceFormat>)
        ensures
            r matches Some(f) ==> format_code(f) == code,
            r is None ==> forall|f: SurfaceFormat| format_code(f) != code,
    {
        let r = match code {
            0x0201 => Some(SurfaceFormat::R8Unorm),
            0x0b01 => Some(SurfaceFormat::R8G8B8A8Unorm),
            0x0b06 => Some(SurfaceFormat::R8G8B8A8Srgb),
            0x0c01 => Some(SurfaceFormat::B8G8R8A8Unorm),
            0x0c06 => Some(SurfaceFormat::B8G8R8A8Srgb),
            0x1a01 => Some(SurfaceFormat::BC1Unorm),
            0x1a06 => Some(SurfaceFormat::BC1Srgb),
            0x1b01 => Some(SurfaceFormat::BC2Unorm),
            0x1b06 => Some(SurfaceFormat::BC2Srgb),
            0x1c01 => Some(SurfaceFormat::BC3Unorm),
            0x1c06 => Some(SurfaceFormat::BC3Srgb),
            0x1d01 => Some(SurfaceFormat::BC4Unorm),
            0x1d02 => Some(SurfaceFormat::BC4Snorm),
            0x1e01 => Some(SurfaceFormat::BC5Unorm),
            0x1e02 => Some(SurfaceFormat::BC5Snorm),
            0x1f05 => Some(SurfaceFormat::BC6Sfloat),
            0x1f0a => Some(SurfaceFormat::BC6Ufloat),
            0x2001 => Some(SurfaceFormat::BC7Unorm),
            0x2006 => Some(SurfaceFormat::BC7Srgb),
            _ => None,
        };
        proof {
            if r is None {
                assert forall|f: SurfaceFormat| format_code(f) != code by {
                    match f {
                        _ => {},
                    }
                }
            }
        }
        r
    }

    /// Bytes per pixel, or bytes per 4x4 block for block-compressed formats.
    pub fn bytes_per_pixel(&self) -> (r: u64)
        ensures
            r == format_bpp(*self),
    {
        match self {
            SurfaceFormat::R8Unorm => 1,
            SurfaceFormat::R8G8B8A8Unorm => 4,
            SurfaceFormat::R8G8B8A8Srgb => 4,
            SurfaceFormat::B8G8R8A8Unorm => 4,
            SurfaceFormat::B8G8R8A8Srgb => 4,
            SurfaceFormat::BC1Unorm => 8,
            SurfaceFormat::BC1Srgb => 8,
            SurfaceFormat::BC2Unorm => 16,
            SurfaceFormat::BC2Srgb => 16,
            SurfaceFormat::BC3Unorm => 16,
            SurfaceFormat::BC3Srgb => 16,
            SurfaceFormat::BC4Unorm => 8,
            SurfaceFormat::BC4Snorm => 8,
            SurfaceFormat::BC5Unorm => 16,
            SurfaceFormat::BC5Snorm => 16,
            SurfaceFormat::BC6Sfloat => 16,
            SurfaceFormat::BC6Ufloat => 16,
            SurfaceFormat::BC7Unorm => 16,
            SurfaceFormat::BC7Srgb => 16,
        }
    }

    /// The block dimensions (width, height, depth) in pixels:
    /// 1x1x1 for uncompressed formats and 4x4x1 for BCn.
    pub fn block_dim(&self) -> (r: (u64, u64, u64))
        ensures
            r == format_block_dim(*self),
    {
        match self {
            SurfaceFormat::R8Unorm | SurfaceFormat::R8G8B8A8Unorm | SurfaceFormat::R8G8B8A8Srgb
            | SurfaceFormat::B8G8R8A8Unorm | SurfaceFormat::B8G8R8A8Srgb => (1, 1, 1),
            _ => (4, 4, 1),
        }
    }
}

/// The dimension of a texture, a `u8` on the wire.
#[derive(Debug, Clone, Copy, PartialEq, Eq, Structural)]
pub enum TextureDimension {
    D1,
    D2,
    D3,
}

pub open spec fn dimension_code(d: TextureDimension) -> u8 {
    match d {
        TextureDimension::D1 => 1,
        TextureDimension::D2 => 2,
        TextureDimension::D3 => 3,
    }
}

impl TextureDimension {
    pub fn code(&self) -> (r: u8)
        ensures
            r == dimension_code(*self),
    {
        match self {
            TextureDimension::D1 => 1,
            TextureDimension::D2 => 2,
            TextureDimension::D3 => 3,
        }
    }

    pub fn from_code(code: u8) -> (r: Option<TextureDimension>)
        ensures
            r matches Some(d) ==> dimension_code(d) == code,
            r is None ==> forall|d: TextureDimension| dimension_code(d) != code,
    {
        match code {
            1 => Some(TextureDimension::D1),
            2 => Some(TextureDimension::D2),
            3 => Some(TextureDimension::D3),
            _ => None,
        }
    }
}

/// How a texture is viewed, a `u32` on the wire.
#[derive(Debug, Clone, Copy, PartialEq, Eq, Structural)]
pub enum TextureViewDimension {
    D1,
    D2,
    D3,
    Cube,
}

pub open spec fn view_dimension_code(d: TextureViewDimension) -> u32 {
    match d {
        TextureViewDimension::D1 => 0,
        TextureViewDimension::D2 => 1,
        TextureViewDimension::D3 => 2,
        TextureViewDimension::Cube => 3,
    }
}

impl TextureViewDimension {
    pub fn code(&self) -> (r: u32)
        ensures
            r == view_dimension_code(*self),
    {
        match self {
            TextureViewDimension::D1 => 0,
            TextureViewDimension::D2 => 1,
            TextureViewDimension::D3 => 2,
            TextureViewDimension::Cube => 3,
        }
    }

    pub fn from_code(code: u32) -> (r: Option<TextureViewDimension>)
        ensures
            r matches Some(d) ==> view_dimension_code(d) == code,
            r is None ==> forall|d: TextureViewDimension| view_dimension_code(d) != code,
    {
        match code {
            0 => Some(TextureViewDimension::D1),
            1 => Some(TextureViewDimension::D2),
            2 => Some(TextureViewDimension::D3),
            3 => Some(TextureViewDimension::Cube),
            _ => None,
        }
    }
}

} // verus!
