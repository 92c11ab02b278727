//! Channel-specific permission overwrites and their wire codec: a pure,
//! stateless mapping between overwrite records and typed overwrites, total
//! on success-or-error.

use vstd::prelude::*;
use crate::error::{Error, RawDiscriminant};
use crate::id::{Permissions, RoleId, UserId};
use crate::record::OverwriteRecord;

verus! {

/// The subject of a permission overwrite: a member or a role, by identifier.
#[derive(Clone, Copy, Debug, PartialEq, Eq, Structural)]
pub enum PermissionOverwriteType {
    Member(UserId),
    Role(RoleId),
}

/// A channel-specific permission overwrite for a member or role. An
/// immutable value type with no shared ownership.
#[derive(Clone, Copy, Debug, PartialEq, Eq, Structural)]
pub struct PermissionOverwrite {
    pub allow: Permissions,
    pub deny: Permissions,
    pub kind: PermissionOverwriteType,
}

/// Whether an overwrite record carries all four of its required fields.
pub open spec fn overwrite_record_complete(rec: OverwriteRecord) -> bool {
    rec.allow is Some && rec.deny is Some && rec.id is Some && rec.kind is Some
}

/// What decoding an overwrite record yields: a missing required field fails
/// first; then the record's numeric `id` is reinterpreted as a user or role
/// identifier according to the string discriminant, which must be exactly
/// `"member"` or `"role"`.
pub open spec fn overwrite_decoded(rec: OverwriteRecord) -> Result<PermissionOverwrite, Error> {
    if !overwrite_record_complete(rec) {
        Err(Error::MissingField)
    } else if rec.kind->0@ == "member"@ {
        Ok(PermissionOverwrite {
            allow: Permissions(rec.allow->0),
            deny: Permissions(rec.deny->0),
            kind: PermissionOverwriteType::Member(UserId(rec.id->0)),
        })
    } else if rec.kind->0@ == "role"@ {
        Ok(PermissionOverwrite {
            allow: Permissions(rec.allow->0),
            deny: Permissions(rec.deny->0),
            kind: PermissionOverwriteType::Role(RoleId(rec.id->0)),
        })
    } else {
        Err(Error::UnknownVariant(RawDiscriminant::Text(rec.kind->0)))
    }
}

/// Whether `rec` is an encoding of the overwrite `p`.
pub open spec fn encodes(rec: OverwriteRecord, p: PermissionOverwrite) -> bool {
    &&& rec.allow == Some(p.allow.0)
    &&& rec.deny == Some(p.deny.0)
    &&& rec.kind is Some
    &&& match p.kind {
        PermissionOverwriteType::Member(u) => rec.id == Some(u.0) && rec.kind->0@ == "member"@,
        PermissionOverwriteType::Role(r) => rec.id == Some(r.0) && rec.kind->0@ == "role"@,
    }
}

impl PermissionOverwrite {
    /// Decodes an overwrite record: a missing `allow`, `deny`, `id` or
    /// `type` field fails with the missing-field error, a discriminant
    /// outside `{"member", "role"}` with the offending string.
    pub fn decode(rec: &OverwriteRecord) -> (r: Result<PermissionOverwrite, Error>)
        ensures
            r == overwrite_decoded(*rec),
    {
        let (allow, deny, id, kind) = match (&rec.allow, &rec.deny, &rec.id, &rec.kind) {
            (Some(a), Some(d), Some(i), Some(k)) => (*a, *d, *i, k),
            _ => {
                return Err(Error::MissingField);
            },
        };
        if *kind == "member".to_owned() {
            Ok(PermissionOverwrite {
                allow: Permissions(allow),
                deny: Permissions(deny),
                kind: PermissionOverwriteType::Member(UserId(id)),
            })
        } else if *kind == "role".to_owned() {
            Ok(PermissionOverwrite {
                allow: Permissions(allow),
                deny: Permissions(deny),
                kind: PermissionOverwriteType::Role(RoleId(id)),
            })
        } else {
            Err(Error::UnknownVariant(RawDiscriminant::Text(kind.clone())))
        }
    }

    /// Encodes this overwrite as a wire record, with every field present.
    pub fn encode(&self) -> (r: OverwriteRecord)
        ensures
            encodes(r, *self),
    {
        match self.kind {
            PermissionOverwriteType::Member(u) => OverwriteRecord {
                allow: Some(self.allow.0),
                deny: Some(self.deny.0),
                id: Some(u.0),
                kind: Some("member".to_owned()),
            },
            PermissionOverwriteType::Role(r) => OverwriteRecord {
                allow: Some(self.allow.0),
                deny: Some(self.deny.0),
                id: Some(r.0),
                kind: Some("role".to_owned()),
            },
        }
    }
}

/// Law: decoding any record that encodes an overwrite yields exactly that
/// overwrite; in particular, decoding the result of [`PermissionOverwrite::encode`]
/// restores the original value.
pub proof fn lemma_overwrite_round_trip(rec: OverwriteRecord, p: PermissionOverwrite)
    requires
        encodes(rec, p),
    ensures
        overwrite_decoded(rec) == Ok::<PermissionOverwrite, Error>(p),
{
    reveal_strlit("member");
    reveal_strlit("role");
    assert("member"@.len() == 6);
    assert("role"@.len() == 4);
    match p.kind {
        PermissionOverwriteType::Member(u) => {
            assert(UserId(rec.id->0) == u);
            assert(Permissions(rec.allow->0) == p.allow);
            assert(Permissions(rec.deny->0) == p.deny);
        },
        PermissionOverwriteType::Role(r) => {
            assert(rec.kind->0@ != "member"@);
            assert(RoleId(rec.id->0) == r);
            assert(Permissions(rec.allow->0) == p.allow);
            assert(Permissions(rec.deny->0) == p.deny);
        },
    }
}

/// Law: an overwrite record with any required field absent decodes to the
/// missing-field error, whatever the other fields hold.
pub proof fn lemma_missing_overwrite_field(rec: OverwriteRecord)
    requires
        !overwrite_record_complete(rec),
    ensures
        overwrite_decoded(rec) == Err::<PermissionOverwrite, Error>(Error::MissingField),
{
}

/// Law: a complete record whose kind string is outside the known set
/// decodes to an unknown-variant failure carrying that string.
pub proof fn lemma_unknown_overwrite_kind(rec: OverwriteRecord)
    requires
        overwrite_record_complete(rec),
        rec.kind->0@ != "member"@,
        rec.kind->0@ != "role"@,
    ensures
        overwrite_decoded(rec) == Err::<PermissionOverwrite, Error>(
            Error::UnknownVariant(RawDiscriminant::Text(rec.kind->0)),
        ),
{
}

} // verus!
