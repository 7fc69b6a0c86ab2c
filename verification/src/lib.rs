//! A typed client library for the EarthMC world-state REST API.
//!
//! The library is organised around three verified layers:
//!
//! * query builders and compact wire codecs (`query`, `block_position`,
//!   `chunk_position`, `permission`, `player_stats`, `json`), which assemble
//!   and check the JSON shapes the API speaks;
//! * the retry and request-driving logic (`retry_strategy`, `client`), which
//!   decides, attempt by attempt, whether a failed request is retried and how
//!   long to wait;
//! * the response models (`named_id`, `uuids`, `server`, `town`, `nation`,
//!   `player`, `quarter`, `mystery_master`, `discord_link`), typed snapshots
//!   of server-reported state, with their wire decoders;
//! * the error taxonomy and its diagnostics (`errors`), and the world
//!   addressing (`world`).
//!
//! The HTTP transport itself lives outside this crate; it hands response
//! bodies in and takes request payloads out as plain values.

pub mod block_position;
pub mod chunk_position;
pub mod client;
pub mod discord_link;
pub mod errors;
pub mod json;
pub mod mystery_master;
pub mod named_id;
pub mod nation;
pub mod permission;
pub mod player;
pub mod player_stats;
pub mod quarter;
pub mod query;
pub mod retry_strategy;
pub mod server;
pub mod town;
pub mod uuids;
pub mod world;

pub use world::World;
