//! What the two endpoints do with what was uploaded.

pub mod batch;
pub mod compression;
pub mod conversion;
pub mod images;
