use channel_model::channel::Channel;
use channel_model::error::{Error, RawDiscriminant};
use channel_model::id::ChannelId;
use channel_model::record::{ChannelRecord, UserRecord};

fn empty_record() -> ChannelRecord {
    ChannelRecord {
        kind: None,
        id: None,
        name: None,
        icon: None,
        owner_id: None,
        recipients: Vec::new(),
        recipient: None,
        guild_id: None,
        nsfw: false,
        parent_id: None,
        permission_overwrites: Vec::new(),
    }
}

fn record_of_kind(kind: u64) -> ChannelRecord {
    let mut rec = empty_record();
    rec.kind = Some(kind);
    rec.id = Some(99);
    rec.name = Some("general".to_string());
    rec.guild_id = Some(7);
    rec.owner_id = Some(1);
    rec.recipient = Some(UserRecord {
        id: Some(2),
        name: Some("Sam".to_string()),
        bot: false,
    });
    rec
}

#[test]
fn kind_zero_decodes_to_guild_tag() {
    let c = Channel::decode(&record_of_kind(0)).unwrap();
    assert!(matches!(c, Channel::Guild(_)));
}

#[test]
fn kind_one_decodes_to_private_tag() {
    let c = Channel::decode(&record_of_kind(1)).unwrap();
    assert!(matches!(c, Channel::Private(_)));
}

#[test]
fn kind_two_decodes_to_guild_tag() {
    let c = Channel::decode(&record_of_kind(2)).unwrap();
    assert!(matches!(c, Channel::Guild(_)));
}

#[test]
fn kind_three_decodes_to_group_tag() {
    let c = Channel::decode(&record_of_kind(3)).unwrap();
    assert!(matches!(c, Channel::Group(_)));
}

#[test]
fn kind_four_decodes_to_category_tag() {
    let c = Channel::decode(&record_of_kind(4)).unwrap();
    assert!(matches!(c, Channel::Category(_)));
}

#[test]
fn unknown_kind_is_reported_with_its_value() {
    let r = Channel::decode(&record_of_kind(7));
    assert_eq!(r.err().unwrap(), Error::UnknownVariant(RawDiscriminant::Number(7)));
    let r = Channel::decode(&record_of_kind(250));
    assert_eq!(r.err().unwrap(), Error::UnknownVariant(RawDiscriminant::Number(250)));
}

#[test]
fn missing_type_field_is_missing_field_never_a_panic() {
    let mut rec = record_of_kind(3);
    rec.kind = None;
    assert_eq!(Channel::decode(&rec).err().unwrap(), Error::MissingField);
}

#[test]
fn missing_id_is_missing_field_for_every_variant() {
    for kind in [0u64, 1, 2, 3, 4] {
        let mut rec = record_of_kind(kind);
        rec.id = None;
        assert_eq!(Channel::decode(&rec).err().unwrap(), Error::MissingField);
    }
}

#[test]
fn channel_id_matches_for_each_constructed_variant() {
    for kind in [0u64, 1, 2, 3, 4] {
        let mut rec = record_of_kind(kind);
        rec.id = Some(1000 + kind);
        let c = Channel::decode(&rec).unwrap();
        assert_eq!(c.id(), ChannelId(1000 + kind));
    }
}

#[test]
fn group_decode_requires_owner() {
    let mut rec = record_of_kind(3);
    rec.owner_id = None;
    assert_eq!(Channel::decode(&rec).err().unwrap(), Error::MissingField);
}

#[test]
fn private_decode_requires_recipient() {
    let mut rec = record_of_kind(1);
    rec.recipient = None;
    assert_eq!(Channel::decode(&rec).err().unwrap(), Error::MissingField);
}

#[test]
fn private_decode_requires_recipient_fields() {
    let mut rec = record_of_kind(1);
    rec.recipient = Some(UserRecord { id: None, name: Some("Sam".to_string()), bot: false });
    assert_eq!(Channel::decode(&rec).err().unwrap(), Error::MissingField);
}

#[test]
fn guild_decode_requires_guild_and_name() {
    let mut rec = record_of_kind(0);
    rec.guild_id = None;
    assert_eq!(Channel::decode(&rec).err().unwrap(), Error::MissingField);
    let mut rec = record_of_kind(2);
    rec.name = None;
    assert_eq!(Channel::decode(&rec).err().unwrap(), Error::MissingField);
}

#[test]
fn group_decode_keeps_recipients_in_insertion_order() {
    let mut rec = record_of_kind(3);
    rec.name = None;
    rec.recipients = vec![
        UserRecord { id: Some(1), name: Some("Alice".to_string()), bot: false },
        UserRecord { id: Some(2), name: Some("Bob".to_string()), bot: false },
        UserRecord { id: Some(3), name: Some("Carol".to_string()), bot: false },
    ];
    let c = Channel::decode(&rec).unwrap();
    assert_eq!(c.display(), "Alice, Bob, Carol");
}

#[test]
fn group_decode_takes_latest_value_of_a_repeated_recipient() {
    let mut rec = record_of_kind(3);
    rec.name = None;
    rec.recipients = vec![
        UserRecord { id: Some(1), name: Some("Alice".to_string()), bot: false },
        UserRecord { id: Some(2), name: Some("Bob".to_string()), bot: false },
        UserRecord { id: Some(1), name: Some("Alicia".to_string()), bot: false },
    ];
    let c = Channel::decode(&rec).unwrap();
    assert_eq!(c.display(), "Alicia, Bob");
}

#[test]
fn group_decode_rejects_recipient_without_name() {
    let mut rec = record_of_kind(3);
    rec.recipients = vec![UserRecord { id: Some(1), name: None, bot: false }];
    assert_eq!(Channel::decode(&rec).err().unwrap(), Error::MissingField);
}
