//! Typed descriptions of the requests handed to the remote-service
//! collaborator. This model constructs and returns these values; the code
//! that drives the model performs them and reports back the collaborator's
//! typed result or failure.

use vstd::prelude::*;
use crate::id::{ChannelId, MessageId, UserId};
use crate::overwrite::PermissionOverwriteType;

verus! {

/// A reaction: a unicode character sequence or a custom emoji by identifier.
#[derive(Clone, Debug, PartialEq, Eq)]
pub enum ReactionType {
    Unicode(String),
    Custom(u64),
}

/// The content of a message to be sent or edited. Message bodies beyond
/// their text are peripheral to this model and are not elaborated.
#[derive(Clone, Debug, PartialEq, Eq)]
pub struct CreateMessage {
    pub content: String,
    pub tts: bool,
}

/// A filter for listing messages.
#[derive(Clone, Debug, PartialEq, Eq)]
pub struct MessageFilter {
    pub after: Option<MessageId>,
    pub before: Option<MessageId>,
    pub limit: Option<u8>,
}

/// A filter for searching messages.
#[derive(Clone, Debug, PartialEq, Eq)]
pub struct SearchFilter {
    pub content: Option<String>,
    pub limit: Option<u8>,
}

/// A file to attach to a message, already read into memory.
#[derive(Clone, Debug, PartialEq, Eq)]
pub struct FileData {
    pub filename: String,
    pub bytes: Vec<u8>,
}

/// One request to the remote-service collaborator, scoped to a channel
/// identifier.
#[derive(Clone, Debug, PartialEq, Eq)]
pub enum RemoteRequest {
    AckMessage { channel: ChannelId, message: MessageId },
    BroadcastTyping { channel: ChannelId },
    CreateReaction { channel: ChannelId, message: MessageId, reaction: ReactionType },
    DeleteMessage { channel: ChannelId, message: MessageId },
    DeleteMessages { channel: ChannelId, messages: Vec<MessageId> },
    DeletePermission { channel: ChannelId, overwrite: PermissionOverwriteType },
    DeleteReaction {
        channel: ChannelId,
        message: MessageId,
        by_user: Option<UserId>,
        reaction: ReactionType,
    },
    EditMessage { channel: ChannelId, message: MessageId, message_data: CreateMessage },
    GetMessage { channel: ChannelId, message: MessageId },
    GetMessages { channel: ChannelId, filter: MessageFilter },
    GetPins { channel: ChannelId },
    Pin { channel: ChannelId, message: MessageId },
    GetReactionUsers {
        channel: ChannelId,
        message: MessageId,
        reaction: ReactionType,
        limit: Option<u8>,
        after: Option<UserId>,
    },
    SearchMessages { channel: ChannelId, query: SearchFilter },
    SendFile { channel: ChannelId, file: FileData, message_data: CreateMessage },
    SendFiles { channel: ChannelId, files: Vec<FileData>, message_data: CreateMessage },
    SendMessage { channel: ChannelId, message_data: CreateMessage },
    Unpin { channel: ChannelId, message: MessageId },
    AddGroupRecipient { channel: ChannelId, user: UserId },
    RemoveGroupRecipient { channel: ChannelId, user: UserId },
    LeaveGroup { channel: ChannelId },
    RemoveChannel { channel: ChannelId },
    ClosePrivateChannel { channel: ChannelId },
}

/// The outcome of an operation that this model may settle locally: either it
/// is already done, with no remote call owed, or one request must be issued.
#[derive(Clone, Debug, PartialEq, Eq)]
pub enum Action {
    /// The operation succeeded locally; no remote call is to be issued.
    Done,
    /// The operation requires this one remote call.
    Remote(RemoteRequest),
}

} // verus!
