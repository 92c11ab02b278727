//! The wire decode boundary's input shapes: generic structured records, as
//! plain values. A field that the wire format may leave out is an `Option`;
//! `None` means the field was absent from the record.

use vstd::prelude::*;

verus! {

/// A user object as it appears inside a channel record.
#[derive(Clone, Debug, PartialEq, Eq)]
pub struct UserRecord {
    pub id: Option<u64>,
    pub name: Option<String>,
    pub bot: bool,
}

/// A permission overwrite record: `{allow, deny, id, type}`, where `kind`
/// holds the string discriminant from the wire field named `type`. All four
/// fields are required; an absent one fails the decode.
#[derive(Clone, Debug, PartialEq, Eq)]
pub struct OverwriteRecord {
    pub allow: Option<u64>,
    pub deny: Option<u64>,
    pub id: Option<u64>,
    pub kind: Option<String>,
}

/// A channel object as received from the wire: the union of every field any
/// of the four variants reads. `kind` holds the integer from the wire field
/// named `type`; it selects the concrete variant.
#[derive(Clone, Debug, PartialEq, Eq)]
pub struct ChannelRecord {
    pub kind: Option<u64>,
    pub id: Option<u64>,
    pub name: Option<String>,
    pub icon: Option<String>,
    pub owner_id: Option<u64>,
    pub recipients: Vec<UserRecord>,
    pub recipient: Option<UserRecord>,
    pub guild_id: Option<u64>,
    pub nsfw: bool,
    pub parent_id: Option<u64>,
    pub permission_overwrites: Vec<OverwriteRecord>,
}

} // verus!
