//! Verified backend for a filename-translation desktop tool.
//!
//! The library splits a filename into stem and extension, classifies the
//! stem's language, frames the request for a remote translation service,
//! interprets the service's response, and builds uncompressed zip archives
//! from in-memory entries. Network and file-system work stays outside and
//! hands the library plain values.

pub mod archive;
pub mod detect;
pub mod errors;
pub mod filename;
pub mod logging;
pub mod request;
pub mod response;
pub mod text;
pub mod translate;
