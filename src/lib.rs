//! Reading, writing and building BNTX texture containers for the Tegra X1,
//! with a bridge to DDS.
pub mod error;
pub mod format;
pub mod bytes;
pub mod swizzle;
pub mod model;
pub mod construct;
pub mod writer;
pub mod reader;
pub mod dds;
pub mod roundtrip;

pub use error::{BntxError, Field, FormatError, SurfaceError};
pub use format::{SurfaceFormat, TextureDimension, TextureViewDimension};
pub use model::BntxFile;
pub use reader::read;
