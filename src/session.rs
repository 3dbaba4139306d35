use vstd::prelude::*;

verus! {

/// What the container engine answered to a removal request.
#[derive(Clone, Copy, Debug, PartialEq, Eq, Structural)]
pub enum RemovalOutcome {
    /// The container was removed.
    Removed,
    /// The engine knows no such container: it is already gone.
    NotFound,
    /// Any other failure; the record is kept so that a later call retries.
    Failed,
}

/// What is known of one user's sessions and container.
///
/// Timestamps are milliseconds on one monotonic clock.
pub struct UserState {
    /// Number of live sessions (reference tokens) held for the user.
    pub count: u64,
    /// When the live-session count last fell to zero, if ever. Stale while
    /// `count > 0`, and then ignored.
    pub last_closure: Option<u64>,
    /// The container that backs the user's environment, if any.
    pub container: Option<String>,
    /// A removal of `container` has been handed out and not yet answered.
    pub reclaiming: bool,
}

/// The moment a closure at `closure` ends its grace period, capped at the
/// largest timestamp.
pub open spec fn capped_expiry(closure: u64, grace: u64) -> u64 {
    if closure + grace <= u64::MAX {
        (closure + grace) as u64
    } else {
        u64::MAX
    }
}

impl UserState {
    /// The state of a user with no prior activity.
    pub open spec fn fresh() -> UserState {
        UserState { count: 0, last_closure: None, container: None, reclaiming: false }
    }

    /// Expiration is due: no live session, a recorded closure, and the grace
    /// period after it has run out at `now`.
    pub open spec fn due(self, grace: u64, now: u64) -> bool {
        self.count == 0 && match self.last_closure {
            Some(c) => now >= c + grace,
            None => false,
        }
    }

    /// When the container may be reclaimed: none while sessions are live or
    /// when no closure was ever recorded.
    pub open spec fn expiry(self, grace: u64) -> Option<u64> {
        if self.count > 0 {
            None
        } else {
            match self.last_closure {
                Some(c) => Some(capped_expiry(c, grace)),
                None => None,
            }
        }
    }

    /// The state once one more token is taken.
    pub open spec fn after_acquire(self) -> UserState {
        UserState { count: (self.count + 1) as u64, ..self }
    }

    /// The state once one token is given back at `now`: the closure time is
    /// overwritten when the count reaches zero. With no token held nothing
    /// changes.
    pub open spec fn after_release(self, now: u64) -> UserState {
        if self.count == 0 {
            self
        } else if self.count == 1 {
            UserState { count: 0, last_closure: Some(now), ..self }
        } else {
            UserState { count: (self.count - 1) as u64, ..self }
        }
    }

    /// The container whose removal a reclaim at `now` hands out, if any.
    pub open spec fn reclaim_target(self, force: bool, grace: u64, now: u64) -> Option<String> {
        if !self.reclaiming && self.container is Some && (force || self.due(grace, now)) {
            self.container
        } else {
            None
        }
    }

    /// The state once a reclaim at `now` has been decided.
    pub open spec fn after_begin(self, force: bool, grace: u64, now: u64) -> UserState {
        if self.reclaim_target(force, grace, now) is Some {
            UserState { reclaiming: true, ..self }
        } else {
            self
        }
    }

    /// The state once the engine's answer to a handed-out removal is known.
    pub open spec fn after_finish(self, outcome: RemovalOutcome) -> UserState {
        if !self.reclaiming {
            self
        } else if outcome == RemovalOutcome::Failed {
            UserState { reclaiming: false, ..self }
        } else {
            UserState { reclaiming: false, container: None, ..self }
        }
    }

    /// A user with no prior activity.
    pub fn new() -> (r: Self)
        ensures
            r == UserState::fresh(),
    {
        UserState { count: 0, last_closure: None, container: None, reclaiming: false }
    }

    /// Takes one reference token: the live count grows by one.
    pub fn acquire(&mut self)
        requires
            old(self).count < u64::MAX,
        ensures
            *final(self) == old(self).after_acquire(),
    {
        self.count = self.count + 1;
    }

    /// Gives back one reference token at time `now`. When this brings the
    /// count to zero the closure time is overwritten with `now`, and the
    /// result is true. With no token held nothing changes.
    pub fn release(&mut self, now: u64) -> (zero: bool)
        ensures
            *final(self) == old(self).after_release(now),
            zero == (old(self).count == 1),
    {
        if self.count == 0 {
            return false;
        }
        self.count = self.count - 1;
        if self.count == 0 {
            self.last_closure = Some(now);
            true
        } else {
            false
        }
    }

    /// Whether the container may be reclaimed at `now`.
    pub fn expiration_due(&self, grace: u64, now: u64) -> (r: bool)
        ensures
            r == self.due(grace, now),
    {
        if self.count > 0 {
            return false;
        }
        match self.last_closure {
            Some(c) => now >= c && now - c >= grace,
            None => false,
        }
    }

    /// When the container may be reclaimed, if sessions allow it at all.
    pub fn expiration_time(&self, grace: u64) -> (r: Option<u64>)
        ensures
            r == self.expiry(grace),
    {
        if self.count > 0 {
            return None;
        }
        match self.last_closure {
            Some(c) => Some(c.saturating_add(grace)),
            None => None,
        }
    }

    /// Records the container that was provisioned for the user.
    pub fn set_container(&mut self, id: String)
        ensures
            *final(self) == (UserState { container: Some(id), ..*old(self) }),
    {
        self.container = Some(id);
    }

    /// Decides a reclaim at `now`. Returns the container to remove when there
    /// is one, no removal of it is pending, and `force` is set or expiration
    /// is due; that removal is then pending until `finish_reclaim`.
    pub fn begin_reclaim(&mut self, force: bool, grace: u64, now: u64) -> (r: Option<String>)
        ensures
            r == old(self).reclaim_target(force, grace, now),
            *final(self) == old(self).after_begin(force, grace, now),
    {
        if self.reclaiming {
            return None;
        }
        let go = force || self.expiration_due(grace, now);
        if !go {
            return None;
        }
        match &self.container {
            Some(id) => {
                let id = id.clone();
                self.reclaiming = true;
                Some(id)
            },
            None => None,
        }
    }

    /// Takes in the engine's answer to the pending removal: on removal, or
    /// when the engine no longer knows the container, the record is cleared;
    /// on failure it is kept. With no removal pending nothing changes.
    pub fn finish_reclaim(&mut self, outcome: RemovalOutcome)
        ensures
            *final(self) == old(self).after_finish(outcome),
    {
        if !self.reclaiming {
            return;
        }
        self.reclaiming = false;
        match outcome {
            RemovalOutcome::Failed => {},
            _ => {
                self.container = None;
            },
        }
    }
}

} // verus!
