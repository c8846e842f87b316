//! Conversion of images to AVIF, with a cache of finished conversions.
//!
//! A request names a source URL and, optionally, target dimensions. The handler looks the
//! request up in the cache; on a miss the caller fetches the source, and the transformer
//! decodes it, resamples it if both dimensions are given, and encodes it. Only finished
//! images enter the cache.

pub mod cache;
pub mod codec;
pub mod handler;
pub mod key;
pub mod laws;
pub mod numeral;
pub mod pixels;
pub mod request;
pub mod transform;
