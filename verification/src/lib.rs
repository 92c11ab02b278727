//! In-process object model for a chat platform's channels: a closed set of
//! channel variants unified behind one identifier-bearing abstraction, wire
//! decoding that selects the concrete variant from a type discriminant, and a
//! lock-protected shared representation for concurrent readers and writers.

pub mod channel;
pub mod channel_category;
pub mod channel_id;
pub mod channel_type;
pub mod context;
pub mod error;
pub mod group;
pub mod guild_channel;
pub mod id;
pub mod numfmt;
pub mod overwrite;
pub mod private_channel;
pub mod record;
pub mod request;
pub mod shared;
pub mod user;
