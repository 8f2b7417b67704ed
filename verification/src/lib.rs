//! A tag-indexed song catalog: the index itself, the decoding of uploads,
//! the registry of live-update subscribers and the request dispatcher that
//! ties them together. All effects on storage and transport are left to the
//! caller; every function here is a verified computation on plain values.

pub mod catalog;
pub mod dispatch;
pub mod laws;
pub mod registry;
pub mod structs;
pub mod text;
pub mod upload;

pub use catalog::{CatalogError, Snapshot, SongDb};
pub use dispatch::{handle_http_request, handle_message, handle_songdb_request, Action};
pub use registry::LiveUpdates;
pub use structs::{
    IncomingMessage, MP3File, PlayableMedia, Song, SongDbRequest, SongDbResponse, Tag,
};
