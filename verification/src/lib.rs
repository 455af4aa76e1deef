//! A verified client core for a remote media-server API.
//!
//! The crate models the server's loosely-structured JSON as [`json::JsonValue`],
//! decodes it into stable domain entities, groups tracks into albums, selects
//! playable media streams, and constructs playback and query URLs. All network
//! and filesystem work lives outside this crate; callers hand in response
//! status codes and decoded JSON values and receive plain entities back.

pub mod client;
pub mod entities;
pub mod grouping;
pub mod json;
pub mod text;
