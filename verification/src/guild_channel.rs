//! The guild channel variant: a text or voice channel within a guild. The
//! wire discriminants for text and voice both decode to this one
//! representation; the distinction is carried by the variant's own type
//! field.

use vstd::prelude::*;
use crate::channel_type::ChannelType;
use crate::error::{Error, RawDiscriminant};
use crate::id::{ChannelId, GuildId};
use crate::overwrite::{overwrite_decoded, PermissionOverwrite};
use crate::record::{ChannelRecord, OverwriteRecord};
use crate::request::RemoteRequest;

verus! {

/// Whether a channel record's discriminant selects the guild channel
/// variant.
pub open spec fn guild_kind_ok(kind: Option<u64>) -> bool {
    kind == Some(0u64) || kind == Some(2u64)
}

/// What decoding a record's permission overwrite list yields: every record
/// decoded in order, or the first decode failure.
pub open spec fn fold_overwrites(recs: Seq<OverwriteRecord>) -> Result<
    Seq<PermissionOverwrite>,
    Error,
>
    decreases recs.len(),
{
    if recs.len() == 0 {
        Ok(Seq::empty())
    } else {
        match fold_overwrites(recs.drop_last()) {
            Ok(os) => match overwrite_decoded(recs.last()) {
                Ok(o) => Ok(os.push(o)),
                Err(e) => Err(e),
            },
            Err(e) => Err(e),
        }
    }
}

/// The first undecodable overwrite record decides the whole list's failure.
pub proof fn lemma_fold_overwrites_err(recs: Seq<OverwriteRecord>, i: int, err: Error)
    requires
        0 <= i < recs.len(),
        fold_overwrites(recs.subrange(0, i)) is Ok,
        overwrite_decoded(recs[i]) == Err::<PermissionOverwrite, Error>(err),
    ensures
        fold_overwrites(recs) == Err::<Seq<PermissionOverwrite>, Error>(err),
    decreases recs.len(),
{
    if i == recs.len() - 1 {
        assert(recs.drop_last() =~= recs.subrange(0, i));
        assert(recs.last() == recs[i]);
    } else {
        assert(recs.drop_last().subrange(0, i) =~= recs.subrange(0, i));
        assert(recs.drop_last()[i] == recs[i]);
        lemma_fold_overwrites_err(recs.drop_last(), i, err);
    }
}

/// How a decoded guild channel's fields relate to the record it came from.
pub open spec fn guild_fields(c: GuildChannel, rec: ChannelRecord) -> bool {
    &&& rec.id is Some && c.id == ChannelId(rec.id->0)
    &&& rec.guild_id is Some && c.guild_id == GuildId(rec.guild_id->0)
    &&& rec.name is Some && c.name == rec.name->0
    &&& c.nsfw == rec.nsfw
    &&& c.parent_id == (match rec.parent_id {
        Some(p) => Some(ChannelId(p)),
        None => None,
    })
    &&& rec.kind == Some(0u64) ==> c.kind is Text
    &&& rec.kind == Some(2u64) ==> c.kind is Voice
    &&& fold_overwrites(rec.permission_overwrites@) == Ok::<Seq<PermissionOverwrite>, Error>(
        c.permission_overwrites@,
    )
}

/// A text or voice channel within a guild.
#[derive(Clone, Debug, PartialEq, Eq)]
pub struct GuildChannel {
    pub id: ChannelId,
    pub guild_id: GuildId,
    pub kind: ChannelType,
    pub name: String,
    pub nsfw: bool,
    pub parent_id: Option<ChannelId>,
    pub permission_overwrites: Vec<PermissionOverwrite>,
}

impl GuildChannel {
    /// The variant's invariant: its own type field is text or voice.
    pub open spec fn wf(self) -> bool {
        self.kind is Text || self.kind is Voice
    }

    /// Whether the channel is to be treated as not safe for work: only a
    /// text channel can be, by its explicit flag.
    pub open spec fn spec_is_nsfw(self) -> bool {
        self.kind is Text && self.nsfw
    }

    /// Decodes a guild channel from a channel record. The discriminant must
    /// select this variant; the channel identifier, guild identifier and
    /// name are required; every permission overwrite must decode.
    pub fn decode(rec: &ChannelRecord) -> (r: Result<GuildChannel, Error>)
        ensures
            rec.kind is None ==> r == Err::<GuildChannel, Error>(Error::MissingField),
            rec.kind matches Some(k) ==> (k != 0 && k != 2 ==> r == Err::<GuildChannel, Error>(
                Error::UnknownVariant(RawDiscriminant::Number(k)),
            )),
            guild_kind_ok(rec.kind) && (rec.id is None || rec.guild_id is None
                || rec.name is None) ==> r == Err::<GuildChannel, Error>(Error::MissingField),
            fold_overwrites(rec.permission_overwrites@) matches Err(e) ==> (guild_kind_ok(rec.kind)
                && rec.id is Some && rec.guild_id is Some && rec.name is Some ==> r == Err::<
                GuildChannel,
                Error,
            >(e)),
            (r is Ok) == (guild_kind_ok(rec.kind) && rec.id is Some && rec.guild_id is Some
                && rec.name is Some && fold_overwrites(rec.permission_overwrites@) is Ok),
            r matches Ok(c) ==> guild_fields(c, *rec) && c.wf(),
    {
        let kind = match rec.kind {
            Some(0) => ChannelType::Text,
            Some(2) => ChannelType::Voice,
            Some(k) => {
                return Err(Error::UnknownVariant(RawDiscriminant::Number(k)));
            },
            None => {
                return Err(Error::MissingField);
            },
        };
        let id = match rec.id {
            Some(i) => i,
            None => {
                return Err(Error::MissingField);
            },
        };
        let guild = match rec.guild_id {
            Some(g) => g,
            None => {
                return Err(Error::MissingField);
            },
        };
        let name = match &rec.name {
            Some(n) => n.clone(),
            None => {
                return Err(Error::MissingField);
            },
        };
        let mut overwrites: Vec<PermissionOverwrite> = Vec::new();
        let mut i: usize = 0;
        while i < rec.permission_overwrites.len()
            invariant
                i <= rec.permission_overwrites@.len(),
                guild_kind_ok(rec.kind),
                rec.id is Some,
                rec.guild_id is Some,
                rec.name is Some,
                fold_overwrites(rec.permission_overwrites@.subrange(0, i as int)) == Ok::<
                    Seq<PermissionOverwrite>,
                    Error,
                >(overwrites@),
            decreases rec.permission_overwrites@.len() - i,
        {
            match PermissionOverwrite::decode(&rec.permission_overwrites[i]) {
                Ok(o) => {
                    proof {
                        let pre = rec.permission_overwrites@.subrange(0, i as int);
                        let post = rec.permission_overwrites@.subrange(0, i as int + 1);
                        assert(post.drop_last() =~= pre);
                        assert(post.last() == rec.permission_overwrites@[i as int]);
                    }
                    overwrites.push(o);
                },
                Err(e) => {
                    proof {
                        lemma_fold_overwrites_err(rec.permission_overwrites@, i as int, e);
                    }
                    return Err(e);
                },
            }
            i = i + 1;
        }
        proof {
            assert(rec.permission_overwrites@.subrange(
                0,
                rec.permission_overwrites@.len() as int,
            ) =~= rec.permission_overwrites@);
        }
        let parent_id = match rec.parent_id {
            Some(p) => Some(ChannelId(p)),
            None => None,
        };
        Ok(GuildChannel {
            id: ChannelId(id),
            guild_id: GuildId(guild),
            kind,
            name,
            nsfw: rec.nsfw,
            parent_id,
            permission_overwrites: overwrites,
        })
    }

    /// Whether the channel is to be treated as not safe for work.
    pub fn is_nsfw(&self) -> (r: bool)
        ensures
            r == self.spec_is_nsfw(),
    {
        matches!(self.kind, ChannelType::Text) && self.nsfw
    }

    /// Deletes the channel from its guild.
    pub fn delete(&self) -> (r: RemoteRequest)
        ensures
            r == (RemoteRequest::RemoveChannel { channel: self.id }),
    {
        RemoteRequest::RemoveChannel { channel: self.id }
    }
}

} // verus!
