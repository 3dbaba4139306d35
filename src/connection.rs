use vstd::prelude::*;

use crate::auth::{accepts, Credential};
use crate::server::{total, Server};

verus! {

/// The answer to one offered credential.
#[derive(Clone, Copy, Debug, PartialEq, Eq, Structural)]
pub enum Auth {
    Accept,
    /// Rejected, with no other method suggested.
    Reject,
}

/// The state of one connection: which user it authenticated as, and whether
/// it holds that user's reference token. A connection takes at most one
/// token in its lifetime and gives it back once, when it ends.
pub struct Handler {
    pub name: Option<String>,
    pub holds_token: bool,
    /// The connection has ended; it accepts nothing more.
    pub closed: bool,
}

impl Handler {
    /// A connection that has authenticated nobody yet.
    pub fn new() -> (r: Self)
        ensures
            r.name is None,
            !r.holds_token,
            !r.closed,
    {
        Handler { name: None, holds_token: false, closed: false }
    }

    /// Whether the connection is authenticated.
    pub fn is_authenticated(&self) -> (r: bool)
        ensures
            r == self.holds_token,
    {
        self.holds_token
    }

    /// One credential offered for `user`. It is accepted, and a token taken
    /// for `user`, exactly when the connection is open and holds no token
    /// yet, the credential authenticates `user`, and the total count can
    /// still grow. Otherwise nothing changes.
    pub fn auth_publickey(&mut self, server: &mut Server, user: &str, key: &Credential) -> (r: Auth)
        requires
            old(server).wf(),
        ensures
            final(server).wf(),
            (r == Auth::Accept) == (!old(self).holds_token && !old(self).closed && accepts(
                old(server).users@,
                user@,
                key@,
            ) && total(old(server).states@) < u64::MAX),
            r == Auth::Accept ==> {
                &&& final(self).holds_token
                &&& !final(self).closed
                &&& final(self).name matches Some(n) && n@ == user@
                &&& old(server).changed_for(
                    *final(server),
                    user@,
                    old(server).state_of(user@).after_acquire(),
                )
            },
            r == Auth::Reject ==> *final(self) == *old(self) && *final(server) == *old(server),
    {
        if self.holds_token || self.closed {
            return Auth::Reject;
        }
        if !server.check_key(user, key) {
            return Auth::Reject;
        }
        if !server.acquire(user) {
            return Auth::Reject;
        }
        self.name = Some(user.to_owned());
        self.holds_token = true;
        Auth::Accept
    }

    /// The connection ended at `now`, for whatever reason. The token it
    /// holds, if any, is given back, once: later calls change nothing.
    pub fn disconnected(&mut self, server: &mut Server, now: u64)
        requires
            old(server).wf(),
        ensures
            final(server).wf(),
            !final(self).holds_token,
            final(self).closed,
            final(self).name == old(self).name,
            match (old(self).holds_token, old(self).name) {
                (true, Some(n)) => old(server).changed_for(
                    *final(server),
                    n@,
                    old(server).state_of(n@).after_release(now),
                ),
                _ => *final(server) == *old(server),
            },
    {
        if self.holds_token {
            match &self.name {
                Some(n) => {
                    server.release(n.as_str(), now);
                },
                None => {},
            }
        }
        self.holds_token = false;
        self.closed = true;
    }
}

} // verus!
