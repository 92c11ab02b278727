//! The operation surface of a channel identifier. Every operation whose
//! behavior depends only on the identifier is implemented exactly once here;
//! the channel union and the variant records forward to these, which
//! guarantees behavioral parity across variants.
//!
//! Each operation yields the typed request for the remote-service
//! collaborator. The two operations with an account-type restriction consult
//! the injected identity context first and fail fast, before any remote call
//! would be issued.

use vstd::prelude::*;
use crate::context::IdentityContext;
use crate::error::Error;
use crate::id::{ChannelId, MessageId, UserId};
use crate::numfmt::{dec_str, u64_to_dec};
use crate::overwrite::PermissionOverwriteType;
use crate::request::{
    CreateMessage, FileData, MessageFilter, ReactionType, RemoteRequest, SearchFilter,
};

verus! {

/// The mention markup for a channel identifier: `<#` then the decimal
/// identifier then `>`.
pub open spec fn mention_of(id: ChannelId) -> Seq<char> {
    "<#"@ + dec_str(id.0 as nat) + ">"@
}

impl ChannelId {
    /// Formats this identifier as a clickable channel mention.
    pub fn mention(&self) -> (r: String)
        ensures
            r@ == mention_of(*self),
    {
        let mut s = "<#".to_owned();
        s.append(u64_to_dec(self.0).as_str());
        s.append(">");
        s
    }

    /// Marks the channel as read up to `message`. Bot accounts cannot issue
    /// this operation: when the context knows the current user is a bot, the
    /// request is refused locally and nothing is owed to the remote side.
    pub fn ack(&self, ctx: &IdentityContext, message: MessageId) -> (r: Result<
        RemoteRequest,
        Error,
    >)
        ensures
            ctx.forbids_user_operations() ==> r == Err::<RemoteRequest, Error>(
                Error::InvalidOperationAsBot,
            ),
            !ctx.forbids_user_operations() ==> r == Ok::<RemoteRequest, Error>(
                (RemoteRequest::AckMessage { channel: *self, message }),
            ),
    {
        if let Some(true) = ctx.current_user_is_bot {
            Err(Error::InvalidOperationAsBot)
        } else {
            Ok(RemoteRequest::AckMessage { channel: *self, message })
        }
    }

    /// Broadcasts that the current user is typing in the channel.
    pub fn broadcast_typing(&self) -> (r: RemoteRequest)
        ensures
            r == (RemoteRequest::BroadcastTyping { channel: *self }),
    {
        RemoteRequest::BroadcastTyping { channel: *self }
    }

    /// Reacts to `message` with the given reaction.
    pub fn create_reaction(&self, message: MessageId, reaction: ReactionType) -> (r: RemoteRequest)
        ensures
            r == (RemoteRequest::CreateReaction { channel: *self, message, reaction }),
    {
        RemoteRequest::CreateReaction { channel: *self, message, reaction }
    }

    /// Deletes a single message by identifier.
    pub fn delete_message(&self, message: MessageId) -> (r: RemoteRequest)
        ensures
            r == (RemoteRequest::DeleteMessage { channel: *self, message }),
    {
        RemoteRequest::DeleteMessage { channel: *self, message }
    }

    /// Deletes all the given messages in one bulk request.
    pub fn delete_messages(&self, messages: Vec<MessageId>) -> (r: RemoteRequest)
        ensures
            r == (RemoteRequest::DeleteMessages { channel: *self, messages }),
    {
        RemoteRequest::DeleteMessages { channel: *self, messages }
    }

    /// Deletes every permission overwrite for the given member or role.
    pub fn delete_permission(&self, overwrite: PermissionOverwriteType) -> (r: RemoteRequest)
        ensures
            r == (RemoteRequest::DeletePermission { channel: *self, overwrite }),
    {
        RemoteRequest::DeletePermission { channel: *self, overwrite }
    }

    /// Deletes a reaction from a message, either one user's or, with `None`,
    /// the current user's.
    pub fn delete_reaction(
        &self,
        message: MessageId,
        by_user: Option<UserId>,
        reaction: ReactionType,
    ) -> (r: RemoteRequest)
        ensures
            r == (RemoteRequest::DeleteReaction { channel: *self, message, by_user, reaction }),
    {
        RemoteRequest::DeleteReaction { channel: *self, message, by_user, reaction }
    }

    /// Edits a message in the channel; unchanged message data is preserved
    /// by the remote side.
    pub fn edit_message(&self, message: MessageId, message_data: CreateMessage) -> (r:
        RemoteRequest)
        ensures
            r == (RemoteRequest::EditMessage { channel: *self, message, message_data }),
    {
        RemoteRequest::EditMessage { channel: *self, message, message_data }
    }

    /// Gets a single message from the channel.
    pub fn get_message(&self, message: MessageId) -> (r: RemoteRequest)
        ensures
            r == (RemoteRequest::GetMessage { channel: *self, message }),
    {
        RemoteRequest::GetMessage { channel: *self, message }
    }

    /// Lists messages from the channel under the given filter.
    pub fn get_messages(&self, filter: MessageFilter) -> (r: RemoteRequest)
        ensures
            r == (RemoteRequest::GetMessages { channel: *self, filter }),
    {
        RemoteRequest::GetMessages { channel: *self, filter }
    }

    /// Lists the users who reacted to a message with the given reaction.
    pub fn get_reaction_users(
        &self,
        message: MessageId,
        reaction: ReactionType,
        limit: Option<u8>,
        after: Option<UserId>,
    ) -> (r: RemoteRequest)
        ensures
            r == (RemoteRequest::GetReactionUsers {
                channel: *self,
                message,
                reaction,
                limit,
                after,
            }),
    {
        RemoteRequest::GetReactionUsers { channel: *self, message, reaction, limit, after }
    }

    /// Pins a message in the channel.
    pub fn pin(&self, message: MessageId) -> (r: RemoteRequest)
        ensures
            r == (RemoteRequest::Pin { channel: *self, message }),
    {
        RemoteRequest::Pin { channel: *self, message }
    }

    /// Lists the messages pinned in the channel.
    pub fn pins(&self) -> (r: RemoteRequest)
        ensures
            r == (RemoteRequest::GetPins { channel: *self }),
    {
        RemoteRequest::GetPins { channel: *self }
    }

    /// Sends a message with just the given content.
    pub fn say(&self, content: &str) -> (r: RemoteRequest)
        ensures
            r matches RemoteRequest::SendMessage { channel, message_data } && channel == *self
                && message_data.content@ == content@ && message_data.tts == false,
    {
        RemoteRequest::SendMessage {
            channel: *self,
            message_data: CreateMessage { content: content.to_owned(), tts: false },
        }
    }

    /// Searches the channel's messages. Bot accounts cannot search: when the
    /// context knows the current user is a bot, the request is refused
    /// locally.
    pub fn search(&self, ctx: &IdentityContext, query: SearchFilter) -> (r: Result<
        RemoteRequest,
        Error,
    >)
        ensures
            ctx.forbids_user_operations() ==> r == Err::<RemoteRequest, Error>(
                Error::InvalidOperationAsBot,
            ),
            !ctx.forbids_user_operations() ==> r == Ok::<RemoteRequest, Error>(
                (RemoteRequest::SearchMessages { channel: *self, query }),
            ),
    {
        if let Some(true) = ctx.current_user_is_bot {
            Err(Error::InvalidOperationAsBot)
        } else {
            Ok(RemoteRequest::SearchMessages { channel: *self, query })
        }
    }

    /// Sends one file along with the given message data.
    pub fn send_file(&self, file: FileData, message_data: CreateMessage) -> (r: RemoteRequest)
        ensures
            r == (RemoteRequest::SendFile { channel: *self, file, message_data }),
    {
        RemoteRequest::SendFile { channel: *self, file, message_data }
    }

    /// Sends several files along with the given message data.
    pub fn send_files(&self, files: Vec<FileData>, message_data: CreateMessage) -> (r:
        RemoteRequest)
        ensures
            r == (RemoteRequest::SendFiles { channel: *self, files, message_data }),
    {
        RemoteRequest::SendFiles { channel: *self, files, message_data }
    }

    /// Sends a message built from the given message data.
    pub fn send_message(&self, message_data: CreateMessage) -> (r: RemoteRequest)
        ensures
            r == (RemoteRequest::SendMessage { channel: *self, message_data }),
    {
        RemoteRequest::SendMessage { channel: *self, message_data }
    }

    /// Unpins a message in the channel.
    pub fn unpin(&self, message: MessageId) -> (r: RemoteRequest)
        ensures
            r == (RemoteRequest::Unpin { channel: *self, message }),
    {
        RemoteRequest::Unpin { channel: *self, message }
    }
}

} // verus!
