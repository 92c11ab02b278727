//! The shared-state wrapper: a reference-counted, lock-protected cell around
//! each concrete variant record. Many owners may observe and mutate one
//! logical object without copying; reads block only against a concurrent
//! exclusive access on the same object, writes are exclusive. Every value
//! that enters a cell satisfies the cell's invariant, which pins the
//! variant's well-formedness and its channel identifier for the cell's whole
//! lifetime.

use vstd::prelude::*;
use vstd::rwlock::{RwLock, RwLockPredicate};
use std::sync::Arc;
use crate::channel_category::ChannelCategory;
use crate::group::Group;
use crate::guild_channel::GuildChannel;
use crate::id::ChannelId;
use crate::private_channel::PrivateChannel;
use crate::user::User;

verus! {

/// Relies on std's Arc::clone: the returned handle shares the very same
/// cell, so its value is the caller's value.
#[verifier::external_body]
fn share_arc<T>(v: &Arc<T>) -> (r: Arc<T>)
    ensures
        r == *v,
{
    Arc::clone(v)
}

/// A reference-counted cell around one variant record, with a lock whose
/// invariant `Pred` holds of every value ever stored in it.
pub struct Shared<V, Pred: RwLockPredicate<V>> {
    lock: Arc<RwLock<V, Pred>>,
}

impl<V, Pred: RwLockPredicate<V>> Shared<V, Pred> {
    /// The invariant this cell was constructed with.
    pub closed spec fn pred(&self) -> Pred {
        (*self.lock).pred()
    }

    /// Whether `v` may be stored in this cell.
    pub open spec fn inv(&self, v: V) -> bool {
        self.pred().inv(v)
    }

    /// Wraps `v` in a fresh cell with the given invariant.
    pub fn new(v: V, Ghost(pred): Ghost<Pred>) -> (s: Self)
        requires
            pred.inv(v),
        ensures
            s.pred() == pred,
    {
        Shared { lock: Arc::new(RwLock::new(v, Ghost(pred))) }
    }

    /// Hands out one more owner of the very same cell: the result is this
    /// value, not a fresh cell that merely resembles it.
    pub fn share(&self) -> (r: Self)
        ensures
            r == *self,
    {
        Shared { lock: share_arc(&self.lock) }
    }

    /// Acquires a read lock, applies a caller-supplied projection to the
    /// stored value, and releases: the lock is never held longer than one
    /// projection. The result is the projection of a value satisfying the
    /// cell's invariant.
    pub fn with<T, F: Fn(&V) -> T>(&self, f: F) -> (r: T)
        requires
            forall|v: V| self.inv(v) ==> f.requires((&v,)),
        ensures
            exists|v: V| self.inv(v) && f.ensures((&v,), r),
    {
        let handle = self.lock.acquire_read();
        let val = handle.borrow();
        let ghost snap = *val;
        proof {
            assert(self.inv(snap));
            assert(f.requires((&snap,)));
        }
        let r = f(val);
        proof {
            assert(self.inv(snap) && f.ensures((&snap,), r));
        }
        handle.release_read();
        r
    }
}

/// The cell invariant of a shared group: well formed, with the identifier,
/// the owner and the icon fixed for the cell's lifetime. The name and the
/// recipients stay free: remote-confirmed events rewrite them in place.
pub struct GroupPred {
    pub id: ChannelId,
    pub owner: crate::id::UserId,
    pub icon: Option<String>,
}

impl RwLockPredicate<Group> for GroupPred {
    open spec fn inv(self, v: Group) -> bool {
        v.wf() && v.channel_id == self.id && v.owner_id == self.owner && v.icon == self.icon
    }
}

/// The cell invariant of a shared guild channel: nothing rewrites these
/// cells, so the invariant pins the whole stored value.
pub struct GuildChannelPred {
    pub val: GuildChannel,
}

impl RwLockPredicate<GuildChannel> for GuildChannelPred {
    open spec fn inv(self, v: GuildChannel) -> bool {
        v == self.val && v.wf()
    }
}

/// The cell invariant of a shared private channel: nothing rewrites these
/// cells, so the invariant pins the whole stored value.
pub struct PrivateChannelPred {
    pub val: PrivateChannel,
}

impl RwLockPredicate<PrivateChannel> for PrivateChannelPred {
    open spec fn inv(self, v: PrivateChannel) -> bool {
        v == self.val
    }
}

/// The cell invariant of a shared category: nothing rewrites these cells,
/// so the invariant pins the whole stored value.
pub struct CategoryPred {
    pub val: ChannelCategory,
}

impl RwLockPredicate<ChannelCategory> for CategoryPred {
    open spec fn inv(self, v: ChannelCategory) -> bool {
        v == self.val
    }
}

/// A shared, lock-protected group.
pub type SharedGroup = Shared<Group, GroupPred>;

/// A shared, lock-protected guild channel.
pub type SharedGuildChannel = Shared<GuildChannel, GuildChannelPred>;

/// A shared, lock-protected private channel.
pub type SharedPrivateChannel = Shared<PrivateChannel, PrivateChannelPred>;

/// A shared, lock-protected category.
pub type SharedChannelCategory = Shared<ChannelCategory, CategoryPred>;

/// An exact copy of one user, built field by field.
fn clone_user(u: &User) -> (r: User)
    ensures
        r == *u,
{
    User { id: u.id, name: u.name.clone(), bot: u.bot }
}

/// A copy of one group, built field by field: every field equal, the
/// recipient list equal element for element.
fn clone_group(g: &Group) -> (r: Group)
    ensures
        r.channel_id == g.channel_id,
        r.icon == g.icon,
        r.name == g.name,
        r.owner_id == g.owner_id,
        r.recipients@ == g.recipients@,
{
    let icon = match &g.icon {
        Some(s) => Some(s.clone()),
        None => None,
    };
    let name = match &g.name {
        Some(s) => Some(s.clone()),
        None => None,
    };
    let mut recipients: Vec<User> = Vec::new();
    let mut i: usize = 0;
    while i < g.recipients.len()
        invariant
            i <= g.recipients@.len(),
            recipients@ =~= g.recipients@.subrange(0, i as int),
        decreases g.recipients@.len() - i,
    {
        recipients.push(clone_user(&g.recipients[i]));
        i = i + 1;
    }
    proof {
        assert(recipients@ =~= g.recipients@);
    }
    Group { channel_id: g.channel_id, icon, name, recipients, owner_id: g.owner_id }
}

impl Shared<Group, GroupPred> {
    /// The channel identifier every value in this cell carries.
    pub open spec fn id_spec(&self) -> ChannelId {
        self.pred().id
    }

    /// The owner identifier every value in this cell carries.
    pub open spec fn owner_spec(&self) -> crate::id::UserId {
        self.pred().owner
    }

    /// The icon every value in this cell carries.
    pub open spec fn icon_spec(&self) -> Option<String> {
        self.pred().icon
    }

    /// Wraps a well-formed group in a fresh shared cell.
    pub fn wrap(g: Group) -> (s: Self)
        requires
            g.wf(),
        ensures
            s.id_spec() == g.channel_id,
            s.owner_spec() == g.owner_id,
            s.icon_spec() == g.icon,
    {
        let ghost pred = GroupPred { id: g.channel_id, owner: g.owner_id, icon: g.icon };
        Shared::new(g, Ghost(pred))
    }

    /// Reads the group's channel identifier: a one-projection read lock.
    pub fn channel_id(&self) -> (r: ChannelId)
        ensures
            r == self.id_spec(),
    {
        let handle = self.lock.acquire_read();
        let id = handle.borrow().channel_id;
        handle.release_read();
        id
    }

    /// Generates the group's display name from the current state: the
    /// projection of one whole value satisfying the cell invariant.
    pub fn name(&self) -> (r: String)
        ensures
            exists|g: Group| self.inv(g) && r@ == g.display_name(),
    {
        let handle = self.lock.acquire_read();
        let g = handle.borrow();
        let r = g.name();
        proof {
            assert(self.inv(*g) && r@ == g.display_name());
        }
        handle.release_read();
        r
    }

    /// Copies out the current state: a complete, well-formed snapshot of one
    /// value that was in the cell, never a partially written one. The
    /// identifier, owner and icon are the cell's pinned ones; the name and
    /// the recipients are those of the observed state.
    pub fn snapshot(&self) -> (r: Group)
        ensures
            r.wf(),
            r.channel_id == self.id_spec(),
            r.owner_id == self.owner_spec(),
            r.icon == self.icon_spec(),
            exists|g: Group| self.inv(g) && r.name == g.name && r.recipients@ == g.recipients@,
    {
        let handle = self.lock.acquire_read();
        let g = handle.borrow();
        let ghost snap = *g;
        let r = clone_group(g);
        proof {
            assert(self.inv(snap) && r.name == snap.name && r.recipients@ == snap.recipients@);
        }
        handle.release_read();
        r
    }

    /// Renames the group in place, on a remote-confirmed event: one
    /// exclusive critical section on this object alone.
    pub fn apply_rename(&self, name: Option<String>) {
        let (mut g, handle) = self.lock.acquire_write();
        g.set_name(name);
        handle.release_write(g);
    }

    /// Inserts a recipient in place, on a remote-confirmed event.
    pub fn apply_recipient_add(&self, user: User) {
        let (mut g, handle) = self.lock.acquire_write();
        g.apply_recipient_add(user);
        handle.release_write(g);
    }

    /// Removes a recipient in place, on a remote-confirmed event.
    pub fn apply_recipient_remove(&self, user: crate::id::UserId) {
        let (mut g, handle) = self.lock.acquire_write();
        g.apply_recipient_remove(user);
        handle.release_write(g);
    }
}

impl Shared<GuildChannel, GuildChannelPred> {
    /// The one guild channel value this cell holds.
    pub open spec fn stored(&self) -> GuildChannel {
        self.pred().val
    }

    /// The channel identifier every value in this cell carries.
    pub open spec fn id_spec(&self) -> ChannelId {
        self.stored().id
    }

    /// Wraps a well-formed guild channel in a fresh shared cell.
    pub fn wrap(c: GuildChannel) -> (s: Self)
        requires
            c.wf(),
        ensures
            s.stored() == c,
    {
        let ghost pred = GuildChannelPred { val: c };
        Shared::new(c, Ghost(pred))
    }

    /// Reads the channel identifier: a one-projection read lock.
    pub fn channel_id(&self) -> (r: ChannelId)
        ensures
            r == self.id_spec(),
    {
        let handle = self.lock.acquire_read();
        let id = handle.borrow().id;
        handle.release_read();
        id
    }

    /// Whether the stored channel is to be treated as not safe for work.
    pub fn is_nsfw(&self) -> (r: bool)
        ensures
            r == self.stored().spec_is_nsfw(),
    {
        let handle = self.lock.acquire_read();
        let r = handle.borrow().is_nsfw();
        handle.release_read();
        r
    }
}

impl Shared<PrivateChannel, PrivateChannelPred> {
    /// The one private channel value this cell holds.
    pub open spec fn stored(&self) -> PrivateChannel {
        self.pred().val
    }

    /// The channel identifier every value in this cell carries.
    pub open spec fn id_spec(&self) -> ChannelId {
        self.stored().id
    }

    /// Wraps a private channel in a fresh shared cell.
    pub fn wrap(c: PrivateChannel) -> (s: Self)
        ensures
            s.stored() == c,
    {
        let ghost pred = PrivateChannelPred { val: c };
        Shared::new(c, Ghost(pred))
    }

    /// Reads the channel identifier: a one-projection read lock.
    pub fn channel_id(&self) -> (r: ChannelId)
        ensures
            r == self.id_spec(),
    {
        let handle = self.lock.acquire_read();
        let id = handle.borrow().id;
        handle.release_read();
        id
    }

    /// Reads the stored recipient's display name.
    pub fn recipient_name(&self) -> (r: String)
        ensures
            r@ == self.stored().recipient.name@,
    {
        let handle = self.lock.acquire_read();
        let r = handle.borrow().recipient.name.clone();
        handle.release_read();
        r
    }
}

impl Shared<ChannelCategory, CategoryPred> {
    /// The one category value this cell holds.
    pub open spec fn stored(&self) -> ChannelCategory {
        self.pred().val
    }

    /// The channel identifier every value in this cell carries.
    pub open spec fn id_spec(&self) -> ChannelId {
        self.stored().id
    }

    /// Wraps a category in a fresh shared cell.
    pub fn wrap(c: ChannelCategory) -> (s: Self)
        ensures
            s.stored() == c,
    {
        let ghost pred = CategoryPred { val: c };
        Shared::new(c, Ghost(pred))
    }

    /// Reads the channel identifier: a one-projection read lock.
    pub fn channel_id(&self) -> (r: ChannelId)
        ensures
            r == self.id_spec(),
    {
        let handle = self.lock.acquire_read();
        let id = handle.borrow().id;
        handle.release_read();
        id
    }

    /// Reads the category's stored name.
    pub fn name(&self) -> (r: String)
        ensures
            r@ == self.stored().name@,
    {
        let handle = self.lock.acquire_read();
        let r = handle.borrow().name.clone();
        handle.release_read();
        r
    }

    /// Whether the stored category is to be treated as not safe for work.
    pub fn is_nsfw(&self) -> (r: bool)
        ensures
            r == self.stored().nsfw,
    {
        let handle = self.lock.acquire_read();
        let r = handle.borrow().is_nsfw();
        handle.release_read();
        r
    }
}

} // verus!
