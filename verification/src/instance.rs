//! Single-instance coordination.
//!
//! Only one graphical instance of the application may hold UI resources at
//! a time. The first process to arrive becomes the owner; every later
//! process (a challenger) forwards its argument list and working directory
//! to the owner as a `single-instance` event and terminates without
//! creating a second UI session. Events are queued in arrival order and
//! the owner consumes each exactly once.

use vstd::prelude::*;

verus! {

/// What a challenger forwards to the owner: its argument list and its
/// working directory.
pub struct LaunchPayload {
    pub args: Vec<String>,
    pub cwd: String,
}

/// How one process launch was settled.
#[derive(PartialEq, Eq, Structural, Clone, Copy, Debug)]
pub enum LaunchOutcome {
    /// No owner was active: this process becomes the owner and starts the
    /// one UI session.
    BecameOwner,
    /// An owner was active: the payload was forwarded to it and this
    /// process terminates without a UI session.
    ForwardedToOwner,
}

/// The coordination state shared by all launches of one user session:
/// whether an owner holds the UI session, and the events forwarded to it
/// that it has not yet consumed, in arrival order.
pub struct InstanceCoordinator {
    pub owner_active: bool,
    pub pending: Vec<LaunchPayload>,
}

impl InstanceCoordinator {
    /// How many UI sessions are held: one while an owner is active.
    pub open spec fn ui_sessions(&self) -> nat {
        if self.owner_active {
            1
        } else {
            0
        }
    }

    /// The state before any process arrived.
    pub fn new() -> (r: InstanceCoordinator)
        ensures
            !r.owner_active,
            r.pending@.len() == 0,
            r.ui_sessions() == 0,
    {
        InstanceCoordinator { owner_active: false, pending: Vec::new() }
    }

    /// One process launch. While an owner is active, the challenger's
    /// payload is appended as exactly one pending event, no second UI
    /// session comes into being, and the challenger is told to terminate.
    /// With no owner active, the process becomes the owner; no event is
    /// recorded. At most one UI session is ever held.
    pub fn launch(&mut self, payload: LaunchPayload) -> (o: LaunchOutcome)
        ensures
            old(self).owner_active ==> {
                &&& o == LaunchOutcome::ForwardedToOwner
                &&& final(self).owner_active
                &&& final(self).pending@ == old(self).pending@.push(payload)
            },
            !old(self).owner_active ==> {
                &&& o == LaunchOutcome::BecameOwner
                &&& final(self).owner_active
                &&& final(self).pending@ == old(self).pending@
            },
            final(self).ui_sessions() == 1,
            final(self).pending@.len() <= old(self).pending@.len() + 1,
    {
        if self.owner_active {
            self.pending.push(payload);
            LaunchOutcome::ForwardedToOwner
        } else {
            self.owner_active = true;
            LaunchOutcome::BecameOwner
        }
    }

    /// The owner consumes the oldest pending event, exactly once: the
    /// returned payload leaves the queue and the rest keep their order.
    pub fn take_event(&mut self) -> (e: Option<LaunchPayload>)
        ensures
            final(self).owner_active == old(self).owner_active,
            old(self).pending@.len() == 0 ==> e is None && final(self).pending@ == old(
                self,
            ).pending@,
            old(self).pending@.len() > 0 ==> {
                &&& e matches Some(p) && p == old(self).pending@[0]
                &&& final(self).pending@ == old(self).pending@.skip(1)
            },
    {
        if self.pending.len() == 0 {
            None
        } else {
            let p = self.pending.remove(0);
            proof {
                assert(self.pending@ =~= old(self).pending@.skip(1));
            }
            Some(p)
        }
    }
}

} // verus!
