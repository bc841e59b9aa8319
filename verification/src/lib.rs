//! Tags and settings of the guilds that a chat bot serves.
//!
//! A tag is a named text of a guild. It is created under its literal name and
//! fetched, edited and deleted under a name that tolerates typos: the name
//! asked for is resolved against the names that exist. A setting is a channel
//! id under a key of a guild. Both are kept as the bytes that are persisted,
//! in a store with one partition per guild.
//!
//! - `store`: the store of bytes, by partition and key.
//! - `text`: UTF-8 text, decimal numbers, lists of names.
//! - `fuzzy`: similarity of names and the resolution of a request.
//! - `model`: the tag operations over maps.
//! - `tags`: the tag store.
//! - `settings`: the settings store and the bytes of a channel id.
//! - `laws`: what holds of the operations taken together.
//! - `error`: the failures of tag operations.
//! - `render`, `mention`, `dates`, `warns`, `moderation`, `guild_logs`: what
//!   the bot shows and decides around them.
//!
//! The library keeps nothing on disk and talks to no one: a caller loads
//! records into a store, asks for an operation, and writes what changed.

pub mod dates;
pub mod error;
pub mod fuzzy;
pub mod guild_logs;
pub mod laws;
pub mod mention;
pub mod model;
pub mod moderation;
pub mod render;
pub mod settings;
pub mod store;
pub mod tags;
pub mod text;
pub mod warns;
