//! Batches of uploaded images, converted to another format or compressed in
//! their own, each file answered with an entry that holds the result inline
//! or says why there is none.
//!
//! The raster codec works here, in memory. The still-image backend and the
//! JPEG encoder do not: a file that needs one of them is handed back with
//! what the backend is to do, and gets its entry from what the backend
//! answers.

pub mod formats;
pub mod handlers;
pub mod naming;
pub mod params;
pub mod payload;
pub mod services;
pub mod text;
