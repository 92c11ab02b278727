//! The group variant: group-specific state and group-only semantics, plus
//! pure forwards of every identifier-scoped operation to the channel
//! identifier.
//!
//! A group's recipients form a mapping from user identifier to user, held in
//! insertion order with unique identifiers. Membership operations settle
//! locally when they would be no-ops; otherwise they delegate to the remote
//! service, and local state is only updated by remote-confirmed events, never
//! optimistically.

use vstd::prelude::*;
use crate::context::IdentityContext;
use crate::error::Error;
use crate::id::{ChannelId, MessageId, UserId};
use crate::numfmt::dec_str;
use crate::numfmt::u64_to_dec;
use crate::overwrite::PermissionOverwriteType;
use crate::record::ChannelRecord;
use crate::request::{
    Action, CreateMessage, FileData, MessageFilter, ReactionType, RemoteRequest, SearchFilter,
};
use crate::user::{user_decoded, User};

verus! {

/// Whether each user in the sequence has an identifier all of its own.
pub open spec fn unique_ids(users: Seq<User>) -> bool {
    forall|i: int, j: int|
        0 <= i < j < users.len() ==> users[i].id != users[j].id
}

/// Whether some user in the sequence has the given identifier.
pub open spec fn has_user(users: Seq<User>, id: UserId) -> bool {
    exists|i: int| 0 <= i < users.len() && users[i].id == id
}

/// The index of the user with the given identifier; meaningful only when
/// [`has_user`] holds, and then unique under [`unique_ids`].
pub open spec fn find_user(users: Seq<User>, id: UserId) -> int {
    choose|i: int| 0 <= i < users.len() && users[i].id == id
}

/// Mapping-style insertion into an identifier-keyed, insertion-ordered
/// sequence: a user with a known identifier replaces the entry in place; a
/// new identifier is appended.
pub open spec fn upsert(users: Seq<User>, user: User) -> Seq<User> {
    if has_user(users, user.id) {
        users.update(find_user(users, user.id), user)
    } else {
        users.push(user)
    }
}

/// Mapping-style removal: the entry with the given identifier leaves, the
/// order of the rest is kept; absent identifiers change nothing.
pub open spec fn without_user(users: Seq<User>, id: UserId) -> Seq<User> {
    if has_user(users, id) {
        users.remove(find_user(users, id))
    } else {
        users
    }
}

/// The recipients' names joined by a comma and a space, in sequence order.
pub open spec fn joined_names(users: Seq<User>) -> Seq<char>
    decreases users.len(),
{
    if users.len() == 0 {
        Seq::empty()
    } else if users.len() == 1 {
        users[0].name@
    } else {
        joined_names(users.drop_last()) + ", "@ + users.last().name@
    }
}

/// What decoding a channel record's recipient list yields: each user record
/// decoded in order and inserted mapping-style, or the first decode failure.
pub open spec fn fold_recipients(recs: Seq<crate::record::UserRecord>) -> Result<Seq<User>, Error>
    decreases recs.len(),
{
    if recs.len() == 0 {
        Ok(Seq::empty())
    } else {
        match fold_recipients(recs.drop_last()) {
            Ok(users) => match user_decoded(recs.last()) {
                Ok(u) => Ok(upsert(users, u)),
                Err(e) => Err(e),
            },
            Err(e) => Err(e),
        }
    }
}

/// The CDN path of a group icon: `/channel-icons/{channel id}/{hash}.webp`,
/// rooted at the configured CDN base.
pub open spec fn group_icon_url(id: ChannelId, hash: Seq<char>) -> Seq<char> {
    "https://cdn.discordapp.com"@ + "/channel-icons/"@ + dec_str(id.0 as nat) + "/"@ + hash
        + ".webp"@
}

/// Under unique identifiers, the index found for a present identifier is
/// exactly where that identifier sits.
pub proof fn lemma_find_unique(users: Seq<User>, k: int)
    requires
        unique_ids(users),
        0 <= k < users.len(),
    ensures
        has_user(users, users[k].id),
        find_user(users, users[k].id) == k,
{
    assert(0 <= k < users.len() && users[k].id == users[k].id);
    assert(has_user(users, users[k].id));
    let i = find_user(users, users[k].id);
    assert(0 <= i < users.len() && users[i].id == users[k].id);
    if i < k {
        assert(users[i].id != users[k].id);
    } else if k < i {
        assert(users[k].id != users[i].id);
    }
}

/// Mapping-style insertion keeps identifiers unique.
pub proof fn lemma_upsert_unique(users: Seq<User>, user: User)
    requires
        unique_ids(users),
    ensures
        unique_ids(upsert(users, user)),
{
    if has_user(users, user.id) {
        let k = find_user(users, user.id);
        assert(0 <= k < users.len() && users[k].id == user.id);
        let res = users.update(k, user);
        assert forall|i: int, j: int| 0 <= i < j < res.len() implies res[i].id != res[j].id by {
            assert(users[i].id != users[j].id);
        }
    } else {
        let res = users.push(user);
        assert forall|i: int, j: int| 0 <= i < j < res.len() implies res[i].id != res[j].id by {
            if j == users.len() {
                assert(res[j] == user);
                assert(res[i] == users[i]);
                assert(!(0 <= i < users.len() && users[i].id == user.id));
            } else {
                assert(users[i].id != users[j].id);
            }
        }
    }
}

/// Mapping-style removal keeps identifiers unique.
pub proof fn lemma_remove_unique(users: Seq<User>, k: int)
    requires
        unique_ids(users),
        0 <= k < users.len(),
    ensures
        unique_ids(users.remove(k)),
{
    let res = users.remove(k);
    assert forall|i: int, j: int| 0 <= i < j < res.len() implies res[i].id != res[j].id by {
        let i0 = if i < k { i } else { i + 1 };
        let j0 = if j < k { j } else { j + 1 };
        assert(res[i] == users[i0]);
        assert(res[j] == users[j0]);
        assert(users[i0].id != users[j0].id);
    }
}

/// A recipient-list decode fails only for want of a required field.
pub proof fn lemma_fold_err_is_missing(recs: Seq<crate::record::UserRecord>)
    ensures
        fold_recipients(recs) is Err ==> fold_recipients(recs) == Err::<Seq<User>, Error>(
            Error::MissingField,
        ),
    decreases recs.len(),
{
    if recs.len() > 0 {
        lemma_fold_err_is_missing(recs.drop_last());
    }
}

/// One undecodable user record makes the whole recipient-list decode fail.
pub proof fn lemma_fold_err_at(recs: Seq<crate::record::UserRecord>, k: int)
    requires
        0 <= k < recs.len(),
        user_decoded(recs[k]) is Err,
    ensures
        fold_recipients(recs) is Err,
    decreases recs.len(),
{
    if k < recs.len() - 1 {
        assert(recs.drop_last()[k] == recs[k]);
        lemma_fold_err_at(recs.drop_last(), k);
    }
}

/// How a decoded group's fields relate to the record it came from.
pub open spec fn group_fields(g: Group, rec: ChannelRecord) -> bool {
    &&& rec.id is Some && g.channel_id == ChannelId(rec.id->0)
    &&& rec.owner_id is Some && g.owner_id == UserId(rec.owner_id->0)
    &&& g.icon == rec.icon
    &&& g.name == rec.name
    &&& fold_recipients(rec.recipients@) == Ok::<Seq<User>, Error>(g.recipients@)
}

/// Law: a group with an explicit name displays that name verbatim, whatever
/// its recipient list holds.
pub proof fn lemma_explicit_name_wins(g: Group)
    requires
        g.name is Some,
    ensures
        g.display_name() == g.name->0@,
{
}

/// Law: a group with no explicit name and no recipients displays exactly
/// the empty-group fallback.
pub proof fn lemma_empty_group_fallback(g: Group)
    requires
        g.name is None,
        g.recipients@.len() == 0,
    ensures
        g.display_name() == "Empty Group"@,
{
}

/// Law: a group with no explicit name and at least one recipient displays
/// the recipients' names joined in insertion order.
pub proof fn lemma_generated_name_joins_recipients(g: Group)
    requires
        g.name is None,
        g.recipients@.len() > 0,
    ensures
        g.display_name() == joined_names(g.recipients@),
{
}

/// Inserts a user mapping-style into an identifier-unique vector.
fn upsert_user(users: &mut Vec<User>, user: User)
    requires
        unique_ids(old(users)@),
    ensures
        final(users)@ == upsert(old(users)@, user),
        unique_ids(final(users)@),
{
    proof {
        lemma_upsert_unique(users@, user);
    }
    let mut i: usize = 0;
    while i < users.len()
        invariant
            i <= users@.len(),
            users@ == old(users)@,
            unique_ids(users@),
            forall|j: int| 0 <= j < i ==> users@[j].id != user.id,
        decreases users@.len() - i,
    {
        if users[i].id == user.id {
            proof {
                lemma_find_unique(users@, i as int);
            }
            users[i] = user;
            return;
        }
        i = i + 1;
    }
    proof {
        if has_user(users@, user.id) {
            let j = find_user(users@, user.id);
            assert(0 <= j < users@.len() && users@[j].id == user.id);
            assert(false);
        }
    }
    users.push(user);
}

/// A direct-message group: a single channel shared by up to ten recipients.
#[derive(Clone, Debug, PartialEq, Eq)]
pub struct Group {
    pub channel_id: ChannelId,
    pub icon: Option<String>,
    pub name: Option<String>,
    pub recipients: Vec<User>,
    pub owner_id: UserId,
}

impl Group {
    /// The recipient mapping's invariant: one entry per user identifier.
    /// The ten-recipient cap is the remote service's to enforce, not ours.
    pub open spec fn wf(self) -> bool {
        unique_ids(self.recipients@)
    }

    /// The generated display name: the explicit name when one is set;
    /// otherwise the recipients' names in insertion order, comma-separated,
    /// or the fallback for an empty group.
    pub open spec fn display_name(self) -> Seq<char> {
        match self.name {
            Some(n) => n@,
            None => if self.recipients@.len() == 0 {
                "Empty Group"@
            } else {
                joined_names(self.recipients@)
            },
        }
    }

    /// Whether the user with the given identifier is a recipient.
    pub open spec fn has_recipient(self, user: UserId) -> bool {
        has_user(self.recipients@, user)
    }

    /// Decodes a group from a channel record. The channel and owner
    /// identifiers are required; recipients are inserted mapping-style in
    /// record order, and each must carry its required fields.
    pub fn decode(rec: &ChannelRecord) -> (r: Result<Group, Error>)
        ensures
            r matches Ok(g) ==> group_fields(g, *rec) && g.wf(),
            (r is Ok) == (rec.id is Some && rec.owner_id is Some && fold_recipients(
                rec.recipients@,
            ) is Ok),
            r matches Err(e) ==> e == Error::MissingField,
    {
        proof {
            lemma_fold_err_is_missing(rec.recipients@);
        }
        let id = match rec.id {
            Some(i) => i,
            None => {
                return Err(Error::MissingField);
            },
        };
        let owner = match rec.owner_id {
            Some(o) => o,
            None => {
                return Err(Error::MissingField);
            },
        };
        let mut users: Vec<User> = Vec::new();
        let mut i: usize = 0;
        while i < rec.recipients.len()
            invariant
                i <= rec.recipients@.len(),
                fold_recipients(rec.recipients@.subrange(0, i as int)) == Ok::<Seq<User>, Error>(
                    users@,
                ),
                unique_ids(users@),
            decreases rec.recipients@.len() - i,
        {
            let u = match User::decode(&rec.recipients[i]) {
                Ok(u) => u,
                Err(_) => {
                    proof {
                        lemma_fold_err_at(rec.recipients@, i as int);
                        lemma_fold_err_is_missing(rec.recipients@);
                    }
                    return Err(Error::MissingField);
                },
            };
            proof {
                let pre = rec.recipients@.subrange(0, i as int);
                let post = rec.recipients@.subrange(0, i as int + 1);
                assert(post.drop_last() =~= pre);
                assert(post.last() == rec.recipients@[i as int]);
            }
            upsert_user(&mut users, u);
            i = i + 1;
        }
        proof {
            assert(rec.recipients@.subrange(0, rec.recipients@.len() as int) =~= rec.recipients@);
        }
        let icon = match &rec.icon {
            Some(s) => Some(s.clone()),
            None => None,
        };
        let name = match &rec.name {
            Some(s) => Some(s.clone()),
            None => None,
        };
        Ok(Group { channel_id: ChannelId(id), icon, name, recipients: users, owner_id: UserId(owner) })
    }

    /// Generates a name for the group: the explicit name if set, else a
    /// comma-separated list of recipient names, else the empty-group
    /// fallback.
    pub fn name(&self) -> (r: String)
        ensures
            r@ == self.display_name(),
    {
        match &self.name {
            Some(n) => n.clone(),
            None => {
                if self.recipients.len() == 0 {
                    "Empty Group".to_owned()
                } else {
                    let mut s = self.recipients[0].name.clone();
                    proof {
                        assert(self.recipients@.subrange(0, 1).len() == 1);
                        assert(self.recipients@.subrange(0, 1)[0] == self.recipients@[0]);
                    }
                    let mut i: usize = 1;
                    while i < self.recipients.len()
                        invariant
                            1 <= i <= self.recipients@.len(),
                            s@ == joined_names(self.recipients@.subrange(0, i as int)),
                        decreases self.recipients@.len() - i,
                    {
                        s.append(", ");
                        s.append(self.recipients[i].name.as_str());
                        proof {
                            let pre = self.recipients@.subrange(0, i as int);
                            let post = self.recipients@.subrange(0, i as int + 1);
                            assert(post.drop_last() =~= pre);
                            assert(post.last() == self.recipients@[i as int]);
                        }
                        i = i + 1;
                    }
                    proof {
                        assert(self.recipients@.subrange(0, self.recipients@.len() as int)
                            =~= self.recipients@);
                    }
                    s
                }
            },
        }
    }

    /// The formatted URI of the group's icon, if one is set: a pure
    /// derivation, no network access.
    pub fn icon_url(&self) -> (r: Option<String>)
        ensures
            (r is None) == (self.icon is None),
            r matches Some(u) ==> self.icon matches Some(h) && u@ == group_icon_url(
                self.channel_id,
                h@,
            ),
    {
        match &self.icon {
            None => None,
            Some(h) => {
                let mut s = "https://cdn.discordapp.com".to_owned();
                s.append("/channel-icons/");
                s.append(u64_to_dec(self.channel_id.0).as_str());
                s.append("/");
                s.append(h.as_str());
                s.append(".webp");
                Some(s)
            },
        }
    }

    /// Whether the user with the given identifier is currently a recipient.
    pub fn contains_recipient(&self, user: UserId) -> (r: bool)
        ensures
            r == self.has_recipient(user),
    {
        let mut i: usize = 0;
        while i < self.recipients.len()
            invariant
                i <= self.recipients@.len(),
                forall|j: int| 0 <= j < i ==> self.recipients@[j].id != user,
            decreases self.recipients@.len() - i,
        {
            if self.recipients[i].id == user {
                return true;
            }
            i = i + 1;
        }
        proof {
            if self.has_recipient(user) {
                let j = find_user(self.recipients@, user);
                assert(0 <= j < self.recipients@.len() && self.recipients@[j].id == user);
                assert(false);
            }
        }
        false
    }

    /// Adds the given user to the group: a local no-op when the user is
    /// already a recipient, otherwise one delegated remote call. The
    /// ten-recipient cap is left to the remote service.
    pub fn add_recipient(&self, user: UserId) -> (r: Action)
        ensures
            self.has_recipient(user) ==> r == Action::Done,
            !self.has_recipient(user) ==> r == Action::Remote(
                (RemoteRequest::AddGroupRecipient { channel: self.channel_id, user }),
            ),
    {
        if self.contains_recipient(user) {
            Action::Done
        } else {
            Action::Remote(RemoteRequest::AddGroupRecipient { channel: self.channel_id, user })
        }
    }

    /// Removes a recipient from the group: a local no-op when the user is
    /// not a recipient, otherwise one delegated remote call. Only available
    /// to the group owner, which the remote service enforces.
    pub fn remove_recipient(&self, user: UserId) -> (r: Action)
        ensures
            !self.has_recipient(user) ==> r == Action::Done,
            self.has_recipient(user) ==> r == Action::Remote(
                (RemoteRequest::RemoveGroupRecipient { channel: self.channel_id, user }),
            ),
    {
        if !self.contains_recipient(user) {
            Action::Done
        } else {
            Action::Remote(RemoteRequest::RemoveGroupRecipient { channel: self.channel_id, user })
        }
    }

    /// Renames the group in place, on a remote-confirmed event.
    pub fn set_name(&mut self, name: Option<String>)
        ensures
            final(self).name == name,
            final(self).channel_id == old(self).channel_id,
            final(self).icon == old(self).icon,
            final(self).recipients == old(self).recipients,
            final(self).owner_id == old(self).owner_id,
    {
        self.name = name;
    }

    /// Inserts a recipient in place, on a remote-confirmed event: an already
    /// known identifier is updated where it sits, a new one is appended.
    pub fn apply_recipient_add(&mut self, user: User)
        requires
            old(self).wf(),
        ensures
            final(self).recipients@ == upsert(old(self).recipients@, user),
            final(self).wf(),
            final(self).channel_id == old(self).channel_id,
            final(self).icon == old(self).icon,
            final(self).name == old(self).name,
            final(self).owner_id == old(self).owner_id,
    {
        upsert_user(&mut self.recipients, user);
    }

    /// Removes a recipient in place, on a remote-confirmed event, keeping
    /// the order of the rest.
    pub fn apply_recipient_remove(&mut self, user: UserId)
        requires
            old(self).wf(),
        ensures
            final(self).recipients@ == without_user(old(self).recipients@, user),
            final(self).wf(),
            final(self).channel_id == old(self).channel_id,
            final(self).icon == old(self).icon,
            final(self).name == old(self).name,
            final(self).owner_id == old(self).owner_id,
    {
        let mut i: usize = 0;
        while i < self.recipients.len()
            invariant
                i <= self.recipients@.len(),
                *self == *old(self),
                self.wf(),
                forall|j: int| 0 <= j < i ==> self.recipients@[j].id != user,
            decreases self.recipients@.len() - i,
        {
            if self.recipients[i].id == user {
                proof {
                    lemma_find_unique(self.recipients@, i as int);
                    lemma_remove_unique(self.recipients@, i as int);
                }
                self.recipients.remove(i);
                return;
            }
            i = i + 1;
        }
        proof {
            if has_user(self.recipients@, user) {
                let j = find_user(self.recipients@, user);
                assert(0 <= j < self.recipients@.len() && self.recipients@[j].id == user);
                assert(false);
            }
        }
    }

    /// Marks the group as read up to `message`; refused locally for a bot
    /// account when the identity context knows of one.
    pub fn ack(&self, ctx: &IdentityContext, message: MessageId) -> (r: Result<
        RemoteRequest,
        Error,
    >)
        ensures
            ctx.forbids_user_operations() ==> r == Err::<RemoteRequest, Error>(
                Error::InvalidOperationAsBot,
            ),
            !ctx.forbids_user_operations() ==> r == Ok::<RemoteRequest, Error>(
                (RemoteRequest::AckMessage { channel: self.channel_id, message }),
            ),
    {
        self.channel_id.ack(ctx, message)
    }

    /// Leaves the group; the remote service is authoritative for the
    /// post-leave snapshot it returns.
    pub fn leave(&self) -> (r: RemoteRequest)
        ensures
            r == (RemoteRequest::LeaveGroup { channel: self.channel_id }),
    {
        RemoteRequest::LeaveGroup { channel: self.channel_id }
    }

    /// Broadcasts that the current user is typing in the group.
    pub fn broadcast_typing(&self) -> (r: RemoteRequest)
        ensures
            r == (RemoteRequest::BroadcastTyping { channel: self.channel_id }),
    {
        self.channel_id.broadcast_typing()
    }

    /// Reacts to a message with the given reaction.
    pub fn create_reaction(&self, message: MessageId, reaction: ReactionType) -> (r: RemoteRequest)
        ensures
            r == (RemoteRequest::CreateReaction { channel: self.channel_id, message, reaction }),
    {
        self.channel_id.create_reaction(message, reaction)
    }

    /// Deletes all the given messages in one bulk request.
    pub fn delete_messages(&self, messages: Vec<MessageId>) -> (r: RemoteRequest)
        ensures
            r == (RemoteRequest::DeleteMessages { channel: self.channel_id, messages }),
    {
        self.channel_id.delete_messages(messages)
    }

    /// Deletes every permission overwrite for the given member or role.
    pub fn delete_permission(&self, overwrite: PermissionOverwriteType) -> (r: RemoteRequest)
        ensures
            r == (RemoteRequest::DeletePermission { channel: self.channel_id, overwrite }),
    {
        self.channel_id.delete_permission(overwrite)
    }

    /// Deletes a reaction from a message.
    pub fn delete_reaction(
        &self,
        message: MessageId,
        by_user: Option<UserId>,
        reaction: ReactionType,
    ) -> (r: RemoteRequest)
        ensures
            r == (RemoteRequest::DeleteReaction {
                channel: self.channel_id,
                message,
                by_user,
                reaction,
            }),
    {
        self.channel_id.delete_reaction(message, by_user, reaction)
    }

    /// Edits a message in the group's channel.
    pub fn edit_message(&self, message: MessageId, message_data: CreateMessage) -> (r:
        RemoteRequest)
        ensures
            r == (RemoteRequest::EditMessage { channel: self.channel_id, message, message_data }),
    {
        self.channel_id.edit_message(message, message_data)
    }

    /// Gets a single message from the group's channel.
    pub fn get_message(&self, message: MessageId) -> (r: RemoteRequest)
        ensures
            r == (RemoteRequest::GetMessage { channel: self.channel_id, message }),
    {
        self.channel_id.get_message(message)
    }

    /// Lists messages from the group's channel under the given filter.
    pub fn get_messages(&self, filter: MessageFilter) -> (r: RemoteRequest)
        ensures
            r == (RemoteRequest::GetMessages { channel: self.channel_id, filter }),
    {
        self.channel_id.get_messages(filter)
    }

    /// Lists the users who reacted to a message with the given reaction.
    pub fn get_reaction_users(
        &self,
        message: MessageId,
        reaction: ReactionType,
        limit: Option<u8>,
        after: Option<UserId>,
    ) -> (r: RemoteRequest)
        ensures
            r == (RemoteRequest::GetReactionUsers {
                channel: self.channel_id,
                message,
                reaction,
                limit,
                after,
            }),
    {
        self.channel_id.get_reaction_users(message, reaction, limit, after)
    }

    /// Lists the messages pinned in the group.
    pub fn pins(&self) -> (r: RemoteRequest)
        ensures
            r == (RemoteRequest::GetPins { channel: self.channel_id }),
    {
        self.channel_id.pins()
    }

    /// Sends a message with just the given content.
    pub fn say(&self, content: &str) -> (r: RemoteRequest)
        ensures
            r matches RemoteRequest::SendMessage { channel, message_data } && channel
                == self.channel_id && message_data.content@ == content@ && message_data.tts
                == false,
    {
        self.channel_id.say(content)
    }

    /// Searches the group's messages; refused locally for a bot account
    /// when the identity context knows of one.
    pub fn search(&self, ctx: &IdentityContext, query: SearchFilter) -> (r: Result<
        RemoteRequest,
        Error,
    >)
        ensures
            ctx.forbids_user_operations() ==> r == Err::<RemoteRequest, Error>(
                Error::InvalidOperationAsBot,
            ),
            !ctx.forbids_user_operations() ==> r == Ok::<RemoteRequest, Error>(
                (RemoteRequest::SearchMessages { channel: self.channel_id, query }),
            ),
    {
        self.channel_id.search(ctx, query)
    }

    /// Sends one file along with the given message data.
    pub fn send_file(&self, file: FileData, message_data: CreateMessage) -> (r: RemoteRequest)
        ensures
            r == (RemoteRequest::SendFile { channel: self.channel_id, file, message_data }),
    {
        self.channel_id.send_file(file, message_data)
    }

    /// Sends a message built from the given message data.
    pub fn send_message(&self, message_data: CreateMessage) -> (r: RemoteRequest)
        ensures
            r == (RemoteRequest::SendMessage { channel: self.channel_id, message_data }),
    {
        self.channel_id.send_message(message_data)
    }

    /// Unpins a message in the group's channel.
    pub fn unpin(&self, message: MessageId) -> (r: RemoteRequest)
        ensures
            r == (RemoteRequest::Unpin { channel: self.channel_id, message }),
    {
        self.channel_id.unpin(message)
    }
}

} // verus!
