//! An image-resizing gateway: request validation, request signing and the
//! decisions of the fetch, transform and cache pipeline.

pub mod decimal;
pub mod handler;
pub mod laws;
pub mod query;
pub mod signature;
pub mod text;
pub mod transform;
