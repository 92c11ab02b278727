//! The private channel variant: a direct channel to exactly one other user.

use vstd::prelude::*;
use crate::error::Error;
use crate::id::ChannelId;
use crate::record::ChannelRecord;
use crate::request::RemoteRequest;
use crate::user::{user_decoded, User};

verus! {

/// Whether a channel record carries everything a private channel requires.
pub open spec fn private_record_ok(rec: ChannelRecord) -> bool {
    &&& rec.id is Some
    &&& rec.recipient is Some
    &&& user_decoded(rec.recipient->0) is Ok
}

/// How a decoded private channel's fields relate to the record it came
/// from.
pub open spec fn private_fields(c: PrivateChannel, rec: ChannelRecord) -> bool {
    &&& rec.id is Some && c.id == ChannelId(rec.id->0)
    &&& rec.recipient is Some && user_decoded(rec.recipient->0) == Ok::<User, Error>(c.recipient)
}

/// A private channel to another user; no third user may access it.
#[derive(Clone, Debug, PartialEq, Eq)]
pub struct PrivateChannel {
    pub id: ChannelId,
    pub recipient: User,
}

impl PrivateChannel {
    /// Decodes a private channel from a channel record. The channel
    /// identifier and the recipient, with its required fields, must be
    /// present.
    pub fn decode(rec: &ChannelRecord) -> (r: Result<PrivateChannel, Error>)
        ensures
            r matches Ok(c) ==> private_fields(c, *rec),
            (r is Ok) == private_record_ok(*rec),
            r matches Err(e) ==> e == Error::MissingField,
    {
        let id = match rec.id {
            Some(i) => i,
            None => {
                return Err(Error::MissingField);
            },
        };
        let recipient = match &rec.recipient {
            Some(u) => match User::decode(u) {
                Ok(user) => user,
                Err(e) => {
                    return Err(e);
                },
            },
            None => {
                return Err(Error::MissingField);
            },
        };
        Ok(PrivateChannel { id: ChannelId(id), recipient })
    }

    /// A private channel is never treated as not safe for work.
    pub fn is_nsfw(&self) -> (r: bool)
        ensures
            r == false,
    {
        false
    }

    /// Closes the private channel.
    pub fn delete(&self) -> (r: RemoteRequest)
        ensures
            r == (RemoteRequest::ClosePrivateChannel { channel: self.id }),
    {
        RemoteRequest::ClosePrivateChannel { channel: self.id }
    }
}

} // verus!
