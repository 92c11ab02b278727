//! Users as this model needs them: an identifier, a display name, and the
//! account-type flag. Anything more about a user is peripheral here.

use vstd::prelude::*;
use crate::error::Error;
use crate::id::UserId;
use crate::record::UserRecord;

verus! {

/// A user, as carried in a group's recipient list or as the counterpart of
/// a private channel.
#[derive(Clone, Debug, PartialEq, Eq)]
pub struct User {
    pub id: UserId,
    pub name: String,
    pub bot: bool,
}

/// What decoding a user record yields: the identifier and the name are
/// required; the bot flag defaults to false on the wire and is taken as is.
pub open spec fn user_decoded(rec: UserRecord) -> Result<User, Error> {
    if rec.id is Some && rec.name is Some {
        Ok(User { id: UserId(rec.id->0), name: rec.name->0, bot: rec.bot })
    } else {
        Err(Error::MissingField)
    }
}

impl User {
    /// Decodes a user record, failing when a required field is absent.
    pub fn decode(rec: &UserRecord) -> (r: Result<User, Error>)
        ensures
            r == user_decoded(*rec),
    {
        match (&rec.id, &rec.name) {
            (Some(id), Some(name)) => Ok(
                User { id: UserId(*id), name: name.clone(), bot: rec.bot },
            ),
            _ => Err(Error::MissingField),
        }
    }
}

} // verus!
