//! Numeric identifier types. A channel is addressed by its `ChannelId`,
//! which is the single owner of every identifier-scoped operation.

use vstd::prelude::*;

verus! {

/// Identifier of a channel: a 64-bit number, immutable once created.
#[derive(Clone, Copy, Debug, PartialEq, Eq, Structural, PartialOrd, Ord, Hash)]
pub struct ChannelId(pub u64);

/// Identifier of a user.
#[derive(Clone, Copy, Debug, PartialEq, Eq, Structural, PartialOrd, Ord, Hash)]
pub struct UserId(pub u64);

/// Identifier of a role.
#[derive(Clone, Copy, Debug, PartialEq, Eq, Structural, PartialOrd, Ord, Hash)]
pub struct RoleId(pub u64);

/// Identifier of a message.
#[derive(Clone, Copy, Debug, PartialEq, Eq, Structural, PartialOrd, Ord, Hash)]
pub struct MessageId(pub u64);

/// Identifier of a guild.
#[derive(Clone, Copy, Debug, PartialEq, Eq, Structural, PartialOrd, Ord, Hash)]
pub struct GuildId(pub u64);

/// A permission bit-set, kept opaque: this model never interprets single bits.
#[derive(Clone, Copy, Debug, PartialEq, Eq, Structural, Hash)]
pub struct Permissions(pub u64);

} // verus!
