use channel_model::error::{Error, RawDiscriminant};
use channel_model::id::{Permissions, RoleId, UserId};
use channel_model::overwrite::{PermissionOverwrite, PermissionOverwriteType};
use channel_model::record::OverwriteRecord;

fn full_record(kind: &str) -> OverwriteRecord {
    OverwriteRecord {
        allow: Some(1),
        deny: Some(2),
        id: Some(3),
        kind: Some(kind.to_string()),
    }
}

#[test]
fn member_overwrite_round_trips() {
    let p = PermissionOverwrite {
        allow: Permissions(0b1010),
        deny: Permissions(0b0101),
        kind: PermissionOverwriteType::Member(UserId(42)),
    };
    let rec = p.encode();
    assert_eq!(rec.kind, Some("member".to_string()));
    assert_eq!(rec.id, Some(42));
    assert_eq!(PermissionOverwrite::decode(&rec), Ok(p));
}

#[test]
fn role_overwrite_round_trips() {
    let p = PermissionOverwrite {
        allow: Permissions(8),
        deny: Permissions(0),
        kind: PermissionOverwriteType::Role(RoleId(7)),
    };
    let rec = p.encode();
    assert_eq!(rec.kind, Some("role".to_string()));
    assert_eq!(rec.id, Some(7));
    assert_eq!(PermissionOverwrite::decode(&rec), Ok(p));
}

#[test]
fn unknown_overwrite_kind_is_reported_with_its_text() {
    let rec = full_record("everyone");
    assert_eq!(
        PermissionOverwrite::decode(&rec),
        Err(Error::UnknownVariant(RawDiscriminant::Text("everyone".to_string())))
    );
}

#[test]
fn overwrite_decode_requires_every_field() {
    let mut rec = full_record("member");
    rec.allow = None;
    assert_eq!(PermissionOverwrite::decode(&rec), Err(Error::MissingField));

    let mut rec = full_record("member");
    rec.deny = None;
    assert_eq!(PermissionOverwrite::decode(&rec), Err(Error::MissingField));

    let mut rec = full_record("member");
    rec.id = None;
    assert_eq!(PermissionOverwrite::decode(&rec), Err(Error::MissingField));

    let mut rec = full_record("member");
    rec.kind = None;
    assert_eq!(PermissionOverwrite::decode(&rec), Err(Error::MissingField));
}

#[test]
fn missing_kind_is_missing_field_not_an_unknown_variant() {
    let rec = OverwriteRecord { allow: Some(0), deny: Some(0), id: Some(9), kind: None };
    assert_eq!(PermissionOverwrite::decode(&rec), Err(Error::MissingField));
}

#[test]
fn overwrite_decode_reinterprets_id_by_kind() {
    let mut member = full_record("member");
    member.id = Some(11);
    let mut role = full_record("role");
    role.id = Some(11);
    let m = PermissionOverwrite::decode(&member).unwrap();
    let r = PermissionOverwrite::decode(&role).unwrap();
    assert_eq!(m.kind, PermissionOverwriteType::Member(UserId(11)));
    assert_eq!(r.kind, PermissionOverwriteType::Role(RoleId(11)));
    assert_eq!(m.allow, Permissions(1));
    assert_eq!(m.deny, Permissions(2));
}
