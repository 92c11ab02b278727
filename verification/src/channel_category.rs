//! The channel category variant: a named grouping of guild channels.

use vstd::prelude::*;
use crate::error::Error;
use crate::id::ChannelId;
use crate::record::ChannelRecord;
use crate::request::RemoteRequest;

verus! {

/// How a decoded category's fields relate to the record it came from.
pub open spec fn category_fields(c: ChannelCategory, rec: ChannelRecord) -> bool {
    &&& rec.id is Some && c.id == ChannelId(rec.id->0)
    &&& rec.name is Some && c.name == rec.name->0
    &&& c.nsfw == rec.nsfw
    &&& c.parent_id == (match rec.parent_id {
        Some(p) => Some(ChannelId(p)),
        None => None,
    })
}

/// A category of guild channels.
#[derive(Clone, Debug, PartialEq, Eq)]
pub struct ChannelCategory {
    pub id: ChannelId,
    pub name: String,
    pub nsfw: bool,
    pub parent_id: Option<ChannelId>,
}

impl ChannelCategory {
    /// Decodes a category from a channel record. The channel identifier and
    /// the name are required.
    pub fn decode(rec: &ChannelRecord) -> (r: Result<ChannelCategory, Error>)
        ensures
            r matches Ok(c) ==> category_fields(c, *rec),
            (r is Ok) == (rec.id is Some && rec.name is Some),
            r matches Err(e) ==> e == Error::MissingField,
    {
        let id = match rec.id {
            Some(i) => i,
            None => {
                return Err(Error::MissingField);
            },
        };
        let name = match &rec.name {
            Some(n) => n.clone(),
            None => {
                return Err(Error::MissingField);
            },
        };
        let parent_id = match rec.parent_id {
            Some(p) => Some(ChannelId(p)),
            None => None,
        };
        Ok(ChannelCategory { id: ChannelId(id), name, nsfw: rec.nsfw, parent_id })
    }

    /// Whether the category is to be treated as not safe for work.
    pub fn is_nsfw(&self) -> (r: bool)
        ensures
            r == self.nsfw,
    {
        self.nsfw
    }

    /// Deletes the category from its guild.
    pub fn delete(&self) -> (r: RemoteRequest)
        ensures
            r == (RemoteRequest::RemoveChannel { channel: self.id }),
    {
        RemoteRequest::RemoveChannel { channel: self.id }
    }
}

} // verus!
