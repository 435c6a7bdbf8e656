//! Verified core of a RAW photo browser and developer for Sony `.ARW` files.

pub mod browse;
pub mod text;
pub mod exif_data;
pub mod encoding;
pub mod metadata;
pub mod develop;
pub mod laws;
