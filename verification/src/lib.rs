//! Request resolution for an immutable bundle of named byte blobs.
//!
//! Given a request (method, path, two header values) and a read-only asset
//! lookup, the library decides the status, headers and body of the response:
//! index files, trailing-slash canonicalisation, precompressed siblings,
//! entity tags and a configurable not-found policy.

pub mod text;
pub mod encoding;
pub mod assets;
pub mod resolve;
pub mod response;
pub mod service;
pub mod laws;

pub use assets::{builtin_not_found, default_document, AssetEntry, AssetSource, MemoryAssets};
pub use encoding::{from_acceptable_encoding, CompressionMethod};
pub use resolve::{FallbackBehavior, Resolution, Rule};
pub use response::{assemble, date_to_string, hash_to_string, Response};
pub use service::{Request, ServeEmbed, ServeFuture};
