//! The two kinds of failure: a structural violation of the container, and a
//! geometry failure of the surface swizzle.
use vstd::prelude::*;

verus! {

/// The field or structure at which a byte stream stopped making sense.
#[derive(Debug, Clone, Copy, PartialEq, Eq, Structural)]
pub enum Field {
    /// A four-byte section magic.
    Magic,
    /// The byte-order marker of the file header.
    ByteOrder,
    /// A read that runs past the end of the stream.
    UnexpectedEnd,
    /// A texture dimension code outside 1..=3.
    TextureDimension,
    /// A surface format code outside the catalog.
    SurfaceFormat,
    /// A texture view dimension code outside 0..=3.
    TextureViewDimension,
    /// A texture without any mip level.
    MipmapCount,
    /// A count or an offset that does not fit the container's integer fields.
    Layout,
    /// A DDS format that has no BNTX surface format.
    DdsFormat,
}

/// A structural violation at a byte offset of the stream.
#[derive(Debug, Clone, Copy, PartialEq, Eq, Structural)]
pub struct FormatError {
    pub offset: u64,
    pub field: Field,
}

/// A failure to tile or untile a surface.
#[derive(Debug, Clone, Copy, PartialEq, Eq, Structural)]
pub enum SurfaceError {
    /// The source holds fewer bytes than the surface needs.
    NotEnoughData { expected_size: usize, actual_size: usize },
    /// A width, height, depth, mip count or layer count of zero.
    ZeroDimension,
    /// Sizes that would overflow the arithmetic of the surface.
    TooLarge,
    /// A stored block height exponent outside 0..=5.
    InvalidBlockHeight,
}

/// Any failure of the library.
#[derive(Debug, Clone, Copy, PartialEq, Eq, Structural)]
pub enum BntxError {
    Format(FormatError),
    Swizzle(SurfaceError),
}

} // verus!
