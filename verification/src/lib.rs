//! A typed client library for a remote game-data web API.
//!
//! The heart of the library is the response-decoding layer: the transport
//! gate that validates an HTTP response before its body is touched, the
//! envelope decoder that strips the common response wrapper and maps its
//! status code to success or a typed error, and the schema layer that maps
//! wire JSON shapes to strongly-typed records, closed and open enumerations
//! and bit-flag sets.  All of that logic is verified; the network exchange
//! itself is left to the caller, who hands in a response's status, header
//! and body as plain values.

use vstd::prelude::*;

pub mod client;
pub mod codecs;
pub mod envelope;
pub mod error;
pub mod json;
pub mod num;
pub mod schema;
pub mod transport;
pub mod wire;

pub use client::BungieClientBuilder;
pub use envelope::BungieResponse;
pub use envelope::PlatformErrorCodes;
pub use error::Error;
pub use json::JsonValue;
pub use schema::DestinyInventoryItemDefinition;
pub use schema::DestinyPlugSetDefinition;
pub use schema::DestinySocketCategoryDefinition;
pub use schema::DestinySocketTypeDefinition;

verus! {

pub type DestinyInventoryItemManifest = Vec<(String, DestinyInventoryItemDefinition)>;

pub type DestinyPlugSetManifest = Vec<(String, DestinyPlugSetDefinition)>;

pub type DestinySocketCategoryManifest = Vec<(String, DestinySocketCategoryDefinition)>;

pub type DestinySocketTypeManifest = Vec<(String, DestinySocketTypeDefinition)>;

} // verus!
