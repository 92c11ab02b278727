//! The identity context: what the process-wide cache collaborator knows about
//! the current account, injected explicitly into the operations that need it.

use vstd::prelude::*;

verus! {

/// A synchronized read of the cache collaborator's view of the current user.
///
/// `current_user_is_bot` is `None` when no cache is consulted; account-type
/// restrictions are then not locally enforced and the remote service is the
/// source of truth.
#[derive(Clone, Copy, Debug, PartialEq, Eq, Structural)]
pub struct IdentityContext {
    pub current_user_is_bot: Option<bool>,
}

impl IdentityContext {
    /// Whether an account-type-restricted operation must be refused locally.
    pub open spec fn forbids_user_operations(self) -> bool {
        self.current_user_is_bot == Some(true)
    }

    /// A context backed by no cache: restrictions are left to the remote side.
    pub fn detached() -> (r: Self)
        ensures
            r.current_user_is_bot is None,
    {
        IdentityContext { current_user_is_bot: None }
    }

    /// A context backed by a cache that knows whether the account is a bot.
    pub fn with_identity(bot: bool) -> (r: Self)
        ensures
            r.current_user_is_bot == Some(bot),
    {
        IdentityContext { current_user_is_bot: Some(bot) }
    }
}

} // verus!
