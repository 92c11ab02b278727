//! The channel union: a closed, tagged union over the four variant records,
//! each payload a shared-state cell. The discriminant tag and the wrapped
//! payload always agree — enforced here at decode time and never re-checked.
//! This module is the single point where wire-format ambiguity is resolved.

use vstd::prelude::*;
use crate::channel_category::{category_fields, ChannelCategory};
use crate::channel_id::mention_of;
use crate::context::IdentityContext;
use crate::error::{Error, RawDiscriminant};
use crate::group::{fold_recipients, Group};
use crate::guild_channel::{fold_overwrites, guild_fields, guild_kind_ok, GuildChannel};
use crate::id::{ChannelId, MessageId, UserId};
use crate::private_channel::{private_fields, private_record_ok, PrivateChannel};
use crate::overwrite::PermissionOverwriteType;
use crate::record::ChannelRecord;
use crate::request::{
    CreateMessage, FileData, MessageFilter, ReactionType, RemoteRequest, SearchFilter,
};
use crate::shared::{
    SharedChannelCategory, SharedGroup, SharedGuildChannel, SharedPrivateChannel,
};

verus! {

/// Whether a channel record decodes to a channel without failure.
pub open spec fn channel_record_ok(rec: ChannelRecord) -> bool {
    match rec.kind {
        None => false,
        Some(k) => if k == 0 || k == 2 {
            rec.id is Some && rec.guild_id is Some && rec.name is Some && fold_overwrites(
                rec.permission_overwrites@,
            ) is Ok
        } else if k == 1 {
            private_record_ok(rec)
        } else if k == 3 {
            rec.id is Some && rec.owner_id is Some && fold_recipients(rec.recipients@) is Ok
        } else if k == 4 {
            rec.id is Some && rec.name is Some
        } else {
            false
        },
    }
}

/// The failure a channel record decodes to when [`channel_record_ok`] does
/// not hold of it.
pub open spec fn channel_decode_err(rec: ChannelRecord) -> Error {
    match rec.kind {
        None => Error::MissingField,
        Some(k) => if k == 0 || k == 2 {
            if rec.id is None || rec.guild_id is None || rec.name is None {
                Error::MissingField
            } else {
                match fold_overwrites(rec.permission_overwrites@) {
                    Err(e) => e,
                    Ok(_) => Error::MissingField,
                }
            }
        } else if k == 1 || k == 3 || k == 4 {
            Error::MissingField
        } else {
            Error::UnknownVariant(RawDiscriminant::Number(k))
        },
    }
}

/// A container for any channel: the unit exposed to callers.
pub enum Channel {
    /// A group. A group comprises only one channel.
    Group(SharedGroup),
    /// A text or voice channel within a guild.
    Guild(SharedGuildChannel),
    /// A private channel to another single user.
    Private(SharedPrivateChannel),
    /// A category of guild channels.
    Category(SharedChannelCategory),
}

impl Channel {
    /// The identifier this channel was constructed with; every variant's
    /// cell pins it for good.
    pub open spec fn id_spec(&self) -> ChannelId {
        match self {
            Channel::Group(g) => g.id_spec(),
            Channel::Guild(c) => c.id_spec(),
            Channel::Private(p) => p.id_spec(),
            Channel::Category(c) => c.id_spec(),
        }
    }

    /// Decodes a channel from a wire record: the required integer
    /// discriminant selects the concrete variant decoder, the decoded
    /// variant is wrapped in a fresh shared cell, and the matching tag is
    /// constructed. Discriminants zero and two both select the guild
    /// variant; the variant's own type field keeps the distinction.
    pub fn decode(rec: &ChannelRecord) -> (r: Result<Channel, Error>)
        ensures
            (r is Ok) == channel_record_ok(*rec),
            !channel_record_ok(*rec) ==> r == Err::<Channel, Error>(channel_decode_err(*rec)),
            r matches Ok(c) ==> rec.id matches Some(i) && c.id_spec() == ChannelId(i),
            guild_kind_ok(rec.kind) ==> (r matches Ok(c) ==> c matches Channel::Guild(sc)
                && guild_fields(sc.stored(), *rec)),
            rec.kind == Some(1u64) ==> (r matches Ok(c) ==> c matches Channel::Private(p)
                && private_fields(p.stored(), *rec)),
            rec.kind == Some(3u64) ==> (r matches Ok(c) ==> c matches Channel::Group(sg)
                && rec.owner_id is Some && sg.owner_spec() == UserId(rec.owner_id->0)
                && sg.icon_spec() == rec.icon),
            rec.kind == Some(4u64) ==> (r matches Ok(c) ==> c matches Channel::Category(cc)
                && category_fields(cc.stored(), *rec)),
    {
        let kind = match rec.kind {
            Some(k) => k,
            None => {
                return Err(Error::MissingField);
            },
        };
        if kind == 0 || kind == 2 {
            match GuildChannel::decode(rec) {
                Ok(c) => Ok(Channel::Guild(SharedGuildChannel::wrap(c))),
                Err(e) => Err(e),
            }
        } else if kind == 1 {
            match PrivateChannel::decode(rec) {
                Ok(c) => Ok(Channel::Private(SharedPrivateChannel::wrap(c))),
                Err(e) => Err(e),
            }
        } else if kind == 3 {
            match Group::decode(rec) {
                Ok(g) => Ok(Channel::Group(SharedGroup::wrap(g))),
                Err(e) => Err(e),
            }
        } else if kind == 4 {
            match ChannelCategory::decode(rec) {
                Ok(c) => Ok(Channel::Category(SharedChannelCategory::wrap(c))),
                Err(e) => Err(e),
            }
        } else {
            Err(Error::UnknownVariant(RawDiscriminant::Number(kind)))
        }
    }

    /// Retrieves the identifier of the inner variant, by a total match over
    /// the four tags.
    pub fn id(&self) -> (r: ChannelId)
        ensures
            r == self.id_spec(),
    {
        match self {
            Channel::Group(g) => g.channel_id(),
            Channel::Guild(c) => c.channel_id(),
            Channel::Private(p) => p.channel_id(),
            Channel::Category(c) => c.channel_id(),
        }
    }

    /// Hands out one more owner of the very same underlying cell: the
    /// result is this value, not a fresh cell that merely resembles it.
    pub fn share(&self) -> (r: Channel)
        ensures
            r == *self,
    {
        match self {
            Channel::Group(g) => Channel::Group(g.share()),
            Channel::Guild(c) => Channel::Guild(c.share()),
            Channel::Private(p) => Channel::Private(p.share()),
            Channel::Category(c) => Channel::Category(c.share()),
        }
    }

    /// Determines if the channel is not safe for work: exactly the wrapped
    /// guild channel's or category's own predicate, and never true of a
    /// group or a private channel.
    pub fn is_nsfw(&self) -> (r: bool)
        ensures
            self matches Channel::Group(_) ==> r == false,
            self matches Channel::Private(_) ==> r == false,
            self matches Channel::Guild(g) ==> r == g.stored().spec_is_nsfw(),
            self matches Channel::Category(c) ==> r == c.stored().nsfw,
    {
        match self {
            Channel::Guild(c) => c.is_nsfw(),
            Channel::Category(c) => c.is_nsfw(),
            Channel::Group(_) => false,
            Channel::Private(_) => false,
        }
    }

    /// Deletes the inner channel, with the variant's own semantics: a group
    /// is left, a guild channel or category is removed from its guild, a
    /// private channel is closed. There is no such thing as deleting a
    /// group; leaving is the closest there is.
    pub fn delete(&self) -> (r: RemoteRequest)
        ensures
            self matches Channel::Group(_) ==> r == (RemoteRequest::LeaveGroup {
                channel: self.id_spec(),
            }),
            self matches Channel::Guild(_) ==> r == (RemoteRequest::RemoveChannel {
                channel: self.id_spec(),
            }),
            self matches Channel::Private(_) ==> r == (RemoteRequest::ClosePrivateChannel {
                channel: self.id_spec(),
            }),
            self matches Channel::Category(_) ==> r == (RemoteRequest::RemoveChannel {
                channel: self.id_spec(),
            }),
    {
        match self {
            Channel::Group(g) => RemoteRequest::LeaveGroup { channel: g.channel_id() },
            Channel::Guild(c) => RemoteRequest::RemoveChannel { channel: c.channel_id() },
            Channel::Private(p) => RemoteRequest::ClosePrivateChannel { channel: p.channel_id() },
            Channel::Category(c) => RemoteRequest::RemoveChannel { channel: c.channel_id() },
        }
    }

    /// Formats the channel into a mention string, per tag: a group renders
    /// its generated name, a guild channel a clickable mention of its
    /// identifier, a private channel its stored recipient's name, a
    /// category its stored name. A pure, read-locking view with no error
    /// case.
    pub fn display(&self) -> (r: String)
        ensures
            self matches Channel::Group(g) ==> exists|v: Group|
                g.inv(v) && r@ == v.display_name(),
            self matches Channel::Guild(c) ==> r@ == mention_of(c.id_spec()),
            self matches Channel::Private(p) ==> r@ == p.stored().recipient.name@,
            self matches Channel::Category(c) ==> r@ == c.stored().name@,
    {
        match self {
            Channel::Group(g) => g.name(),
            Channel::Guild(c) => c.channel_id().mention(),
            Channel::Private(p) => p.recipient_name(),
            Channel::Category(c) => c.name(),
        }
    }

    /// Reacts to a message in the channel: a pure forward to the
    /// identifier.
    pub fn create_reaction(&self, message: MessageId, reaction: ReactionType) -> (r: RemoteRequest)
        ensures
            r == (RemoteRequest::CreateReaction { channel: self.id_spec(), message, reaction }),
    {
        self.id().create_reaction(message, reaction)
    }

    /// Deletes a message given its identifier: a pure forward to the
    /// identifier.
    pub fn delete_message(&self, message: MessageId) -> (r: RemoteRequest)
        ensures
            r == (RemoteRequest::DeleteMessage { channel: self.id_spec(), message }),
    {
        self.id().delete_message(message)
    }

    /// Deletes a reaction from a message: a pure forward to the identifier.
    pub fn delete_reaction(
        &self,
        message: MessageId,
        by_user: Option<UserId>,
        reaction: ReactionType,
    ) -> (r: RemoteRequest)
        ensures
            r == (RemoteRequest::DeleteReaction {
                channel: self.id_spec(),
                message,
                by_user,
                reaction,
            }),
    {
        self.id().delete_reaction(message, by_user, reaction)
    }

    /// Edits a message in the channel: a pure forward to the identifier.
    pub fn edit_message(&self, message: MessageId, message_data: CreateMessage) -> (r:
        RemoteRequest)
        ensures
            r == (RemoteRequest::EditMessage { channel: self.id_spec(), message, message_data }),
    {
        self.id().edit_message(message, message_data)
    }

    /// Gets a message from the channel: a pure forward to the identifier.
    pub fn message(&self, message: MessageId) -> (r: RemoteRequest)
        ensures
            r == (RemoteRequest::GetMessage { channel: self.id_spec(), message }),
    {
        self.id().get_message(message)
    }

    /// Lists messages from the channel: a pure forward to the identifier.
    pub fn messages(&self, filter: MessageFilter) -> (r: RemoteRequest)
        ensures
            r == (RemoteRequest::GetMessages { channel: self.id_spec(), filter }),
    {
        self.id().get_messages(filter)
    }

    /// Lists the users who reacted to a message: a pure forward to the
    /// identifier.
    pub fn reaction_users(
        &self,
        message: MessageId,
        reaction: ReactionType,
        limit: Option<u8>,
        after: Option<UserId>,
    ) -> (r: RemoteRequest)
        ensures
            r == (RemoteRequest::GetReactionUsers {
                channel: self.id_spec(),
                message,
                reaction,
                limit,
                after,
            }),
    {
        self.id().get_reaction_users(message, reaction, limit, after)
    }

    /// Sends a message with just the given content: a pure forward to the
    /// identifier.
    pub fn say(&self, content: &str) -> (r: RemoteRequest)
        ensures
            r matches RemoteRequest::SendMessage { channel, message_data } && channel
                == self.id_spec() && message_data.content@ == content@ && message_data.tts
                == false,
    {
        self.id().say(content)
    }

    /// Sends several files along with the given message data: a pure
    /// forward to the identifier.
    pub fn send_files(&self, files: Vec<FileData>, message_data: CreateMessage) -> (r:
        RemoteRequest)
        ensures
            r == (RemoteRequest::SendFiles { channel: self.id_spec(), files, message_data }),
    {
        self.id().send_files(files, message_data)
    }

    /// Sends a message built from the given message data: a pure forward to
    /// the identifier.
    pub fn send_message(&self, message_data: CreateMessage) -> (r: RemoteRequest)
        ensures
            r == (RemoteRequest::SendMessage { channel: self.id_spec(), message_data }),
    {
        self.id().send_message(message_data)
    }

    /// Pins a message in the channel: a pure forward to the identifier.
    pub fn pin(&self, message: MessageId) -> (r: RemoteRequest)
        ensures
            r == (RemoteRequest::Pin { channel: self.id_spec(), message }),
    {
        self.id().pin(message)
    }

    /// Unpins a message in the channel: a pure forward to the identifier.
    pub fn unpin(&self, message: MessageId) -> (r: RemoteRequest)
        ensures
            r == (RemoteRequest::Unpin { channel: self.id_spec(), message }),
    {
        self.id().unpin(message)
    }

    /// Deletes every permission overwrite for the given member or role: a
    /// pure forward to the identifier.
    pub fn delete_permission(&self, overwrite: PermissionOverwriteType) -> (r: RemoteRequest)
        ensures
            r == (RemoteRequest::DeletePermission { channel: self.id_spec(), overwrite }),
    {
        self.id().delete_permission(overwrite)
    }

    /// Searches the channel's messages, under the same account-type
    /// restriction as every search: a pure forward to the identifier.
    pub fn search(&self, ctx: &IdentityContext, query: SearchFilter) -> (r: Result<
        RemoteRequest,
        Error,
    >)
        ensures
            ctx.forbids_user_operations() ==> r == Err::<RemoteRequest, Error>(
                Error::InvalidOperationAsBot,
            ),
            !ctx.forbids_user_operations() ==> r == Ok::<RemoteRequest, Error>(
                (RemoteRequest::SearchMessages { channel: self.id_spec(), query }),
            ),
    {
        self.id().search(ctx, query)
    }
}

} // verus!
