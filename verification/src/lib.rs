//! Reader for Sensor Independent Complex Data (SICD) products.
//!
//! A SICD product is a container holding an XML metadata document, whose
//! schema varies with a declared format version, and one or more raw image
//! segments of interleaved big-endian single-precision complex samples.
//! This crate resolves the declared version, dispatches the metadata to the
//! matching schema family, decodes each image segment into an owned
//! two-dimensional sample array, and assembles the results into one product.
//!
//! File and container framing are left to the caller: the entry point takes
//! the metadata text and the image segments as plain values.

mod assemble;
mod error;
mod image;
mod meta;
mod version;
mod xml;

pub use assemble::ContainerData;
pub use assemble::ImageSegment;
pub use assemble::Sicd;
pub use assemble::parse_sicd;
pub use error::SicdError;
pub use image::ImageData;
pub use image::ImageSample;
pub use meta::SicdMeta;
pub use meta::V0_4_0Meta;
pub use meta::V0_5_0Meta;
pub use meta::V1Meta;
pub use version::SicdVersion;
