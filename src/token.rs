//! The lifetime token shared by a root projectile and everything spawned under it.
use vstd::prelude::*;

use std::sync::Arc;

verus! {

/// Relies on Arc::clone: another owner of the same allocation, so of the same value.
#[verifier::external_body]
fn another_owner<T>(owner: &Arc<T>) -> (r: Arc<T>)
    ensures
        r == *owner,
{
    Arc::clone(owner)
}

/// Relies on Arc::strong_count: the number of live owners of the allocation when it is
/// called. That depends on tokens held elsewhere, so only the group's own share, which
/// lives as long as `group`, is stated.
#[verifier::external_body]
fn owner_count(group: &Arc<Arc<()>>) -> (r: usize)
    ensures
        r >= 1,
{
    Arc::strong_count(&**group)
}

/// The value `group_finished` computes.
pub open spec fn group_finished_spec(owners: usize) -> bool {
    owners == 1
}

/// Whether a group whose owner count is `owners` is finished.
///
/// The count is one for the group itself plus one per owned token of the group, so the
/// group is finished when the count is down to one.
pub fn group_finished(owners: usize) -> (r: bool)
    ensures
        r == group_finished_spec(owners),
{
    owners == 1
}

/// A completion token, either owned or released.
///
/// Every token of a group holds `group`, which keeps one share of the owner count for
/// itself. An owned token holds one more share in `share`; releasing drops it. So the
/// owner count of a group is one plus the number of its owned tokens, and a released
/// token can watch it without keeping anything alive.
#[derive(Debug)]
pub struct ProjectileRc {
    group: Arc<Arc<()>>,
    share: Option<Arc<()>>,
}

impl ProjectileRc {
    /// Whether this token still keeps its group alive.
    pub closed spec fn is_owned(&self) -> bool {
        self.share is Some
    }

    /// The token after `release`.
    pub closed spec fn released(self) -> ProjectileRc {
        ProjectileRc { share: None, ..self }
    }

    /// Creates the first token of a new group, owned.
    pub fn new() -> (r: ProjectileRc)
        ensures
            r.is_owned(),
    {
        let share = Arc::new(());
        let group = Arc::new(another_owner(&share));
        ProjectileRc { group, share: Some(share) }
    }

    /// Stops keeping the group alive. Releasing a released token changes nothing.
    pub fn release(&mut self)
        ensures
            *final(self) == old(self).released(),
            !final(self).is_owned(),
            !old(self).is_owned() ==> *final(self) == *old(self),
    {
        self.share = None;
    }

    /// Whether the group is finished: this token is released and no token of its group
    /// is still owned.
    ///
    /// An owned token never reports so. For a released one the answer comes from the
    /// group's owner count at the time of the call.
    pub fn should_drop(&mut self) -> (r: bool)
        ensures
            *final(self) == *old(self),
            old(self).is_owned() ==> !r,
            !old(self).is_owned() ==> exists|owners: usize| owners >= 1 && r == group_finished_spec(owners),
    {
        match self.share {
            Some(_) => false,
            None => group_finished(owner_count(&self.group)),
        }
    }
}

impl Clone for ProjectileRc {
    /// A token of the same group, in the same state: a clone of an owned token is one
    /// more owner.
    fn clone(&self) -> (r: Self)
        ensures
            r == *self,
    {
        let share = match &self.share {
            Some(share) => Some(another_owner(share)),
            None => None,
        };
        ProjectileRc { group: another_owner(&self.group), share }
    }
}

/// Releasing twice leaves a token exactly as releasing once does.
pub proof fn lemma_release_idempotent(token: ProjectileRc)
    ensures
        token.released().released() == token.released(),
        !token.released().is_owned(),
{
}

} // verus!
