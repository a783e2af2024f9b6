//! Verified core of a streamed planetary terrain renderer: the WebMercator tile index, the
//! streamed-tile cache contract, cache path layout, provider request checks and the
//! streaming request scheduler.

pub mod tiles;
pub mod text;
pub mod coordinate;
pub mod paths;
pub mod cache_manifest;
pub mod cache_writer;
pub mod source_contract;
pub mod scheduler;
pub mod tile_source;
pub mod streaming_jobs;
pub mod height_derivation;
pub mod http_body;
pub mod gibs;
pub mod opentopography;
pub mod terrain;
