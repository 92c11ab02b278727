use channel_model::channel::Channel;
use channel_model::error::{Error, RawDiscriminant};
use channel_model::group::Group;
use channel_model::guild_channel::GuildChannel;
use channel_model::id::{ChannelId, Permissions, UserId};
use channel_model::overwrite::PermissionOverwriteType;
use channel_model::record::{ChannelRecord, OverwriteRecord};
use channel_model::shared::SharedGroup;
use channel_model::user::User;

fn user(id: u64, name: &str) -> User {
    User { id: UserId(id), name: name.to_string(), bot: false }
}

fn group() -> Group {
    Group {
        channel_id: ChannelId(808),
        icon: None,
        name: None,
        recipients: vec![user(1, "Alice"), user(2, "Bob")],
        owner_id: UserId(1),
    }
}

fn guild_record() -> ChannelRecord {
    ChannelRecord {
        kind: Some(0),
        id: Some(31),
        name: Some("rules".to_string()),
        icon: None,
        owner_id: None,
        recipients: Vec::new(),
        recipient: None,
        guild_id: Some(7),
        nsfw: false,
        parent_id: Some(90),
        permission_overwrites: vec![
            OverwriteRecord {
                allow: Some(1),
                deny: Some(2),
                id: Some(42),
                kind: Some("member".to_string()),
            },
            OverwriteRecord {
                allow: Some(4),
                deny: Some(8),
                id: Some(7),
                kind: Some("role".to_string()),
            },
        ],
    }
}

#[test]
fn every_owner_of_a_shared_cell_sees_one_state() {
    let cell = SharedGroup::wrap(group());
    let other = cell.share();
    assert_eq!(cell.channel_id(), ChannelId(808));
    assert_eq!(other.channel_id(), ChannelId(808));
    cell.apply_rename(Some("renamed".to_string()));
    assert_eq!(other.name(), "renamed");
    other.apply_rename(None);
    assert_eq!(cell.name(), "Alice, Bob");
}

#[test]
fn recipient_events_through_one_owner_reach_all() {
    let cell = SharedGroup::wrap(group());
    let other = cell.share();
    cell.apply_recipient_add(user(3, "Carol"));
    assert_eq!(other.name(), "Alice, Bob, Carol");
    other.apply_recipient_remove(UserId(1));
    assert_eq!(cell.name(), "Bob, Carol");
}

#[test]
fn snapshot_is_a_complete_consistent_copy() {
    let cell = SharedGroup::wrap(group());
    let snap = cell.snapshot();
    assert_eq!(snap.channel_id, ChannelId(808));
    assert_eq!(snap.recipients.len(), 2);
    cell.apply_rename(Some("after".to_string()));
    assert_eq!(snap.name, None);
}

#[test]
fn with_runs_a_projection_under_a_short_read_lock() {
    let cell = SharedGroup::wrap(group());
    let owner = cell.with(|g: &Group| g.owner_id);
    assert_eq!(owner, UserId(1));
    let n = cell.with(|g: &Group| g.recipients.len());
    assert_eq!(n, 2);
}

#[test]
fn shared_channel_keeps_tag_and_identifier() {
    let c = Channel::Group(SharedGroup::wrap(group()));
    let d = c.share();
    assert!(matches!(d, Channel::Group(_)));
    assert_eq!(d.id(), ChannelId(808));
}

#[test]
fn guild_decode_carries_its_overwrites() {
    let g = GuildChannel::decode(&guild_record()).unwrap();
    assert_eq!(g.id, ChannelId(31));
    assert_eq!(g.parent_id, Some(ChannelId(90)));
    assert_eq!(g.permission_overwrites.len(), 2);
    assert_eq!(g.permission_overwrites[0].kind, PermissionOverwriteType::Member(UserId(42)));
    assert_eq!(g.permission_overwrites[0].allow, Permissions(1));
    assert_eq!(
        g.permission_overwrites[1].kind,
        PermissionOverwriteType::Role(channel_model::id::RoleId(7))
    );
}

#[test]
fn guild_decode_fails_on_a_bad_overwrite() {
    let mut rec = guild_record();
    rec.permission_overwrites.push(OverwriteRecord {
        allow: Some(0),
        deny: Some(0),
        id: Some(1),
        kind: Some("webhook".to_string()),
    });
    assert_eq!(
        GuildChannel::decode(&rec).err().unwrap(),
        Error::UnknownVariant(RawDiscriminant::Text("webhook".to_string()))
    );
}

#[test]
fn guild_decode_fails_on_an_incomplete_overwrite() {
    let mut rec = guild_record();
    rec.permission_overwrites.push(OverwriteRecord {
        allow: None,
        deny: Some(0),
        id: Some(1),
        kind: Some("member".to_string()),
    });
    assert_eq!(GuildChannel::decode(&rec).err().unwrap(), Error::MissingField);
}

#[test]
fn guild_decode_alone_reports_a_foreign_discriminant() {
    let mut rec = guild_record();
    rec.kind = Some(9);
    assert_eq!(
        GuildChannel::decode(&rec).err().unwrap(),
        Error::UnknownVariant(RawDiscriminant::Number(9))
    );
}
