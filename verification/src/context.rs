//! What the hooks of an application are called with.

use vstd::prelude::*;
use std::time::Duration;

verus! {

/// The identity of an actor.
pub type ActorID = usize;

/// What a mount or unmount hook is called with: whom it is called for.
#[derive(Clone, Copy, Debug)]
pub struct MountContext {
    pub actor_id: ActorID,
}

/// What an update hook is called with: the time since the last update.
#[derive(Clone, Copy, Debug)]
pub struct UpdateContext {
    pub dt: Duration,
}

impl MountContext {
    pub fn new(actor_id: ActorID) -> (ctx: Self)
        ensures
            ctx.actor_id == actor_id,
    {
        MountContext { actor_id }
    }

    /// Whom the hook is called for.
    pub fn actor_id(&self) -> (id: ActorID)
        ensures
            id == self.actor_id,
    {
        self.actor_id
    }
}

impl UpdateContext {
    pub fn new(dt: Duration) -> (ctx: Self)
        ensures
            ctx.dt == dt,
    {
        UpdateContext { dt }
    }

    /// The time since the last update.
    pub fn dt(&self) -> (dt: Duration)
        ensures
            dt == self.dt,
    {
        self.dt
    }
}

} // verus!
