//! The two services behind the endpoints, and the codec that both draw on.

pub mod compressor;
pub mod converter;
pub mod raster;
