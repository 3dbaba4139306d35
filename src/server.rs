use vstd::prelude::*;

use crate::auth::{accepts, check, distinct_names, find_user, Credential, UserKeys};
use crate::session::{RemovalOutcome, UserState};

verus! {

/// One hour, in milliseconds: the grace period that deployments use unless
/// told otherwise.
pub const DEFAULT_GRACE_MS: u64 = 3600000;

/// Sum of the live-session counts of `states`.
pub open spec fn total(states: Seq<UserState>) -> int
    decreases states.len(),
{
    if states.len() == 0 {
        0
    } else {
        total(states.drop_last()) + states.last().count
    }
}

/// The session registry, closure clock and container directory of a set of
/// users, with the authorized-credential table and the grace period.
///
/// `states[i]` belongs to the user `users[i]`.
pub struct Server {
    pub users: Vec<UserKeys>,
    pub states: Vec<UserState>,
    pub grace: u64,
}

impl Server {
    pub open spec fn wf(self) -> bool {
        &&& self.users@.len() == self.states@.len()
        &&& distinct_names(self.users@)
        &&& total(self.states@) <= u64::MAX
    }

    /// The position of the user named `name`, if it is known.
    pub open spec fn index_of(self, name: Seq<char>) -> Option<int> {
        if exists|i: int| 0 <= i < self.users@.len() && self.users@[i].name@ == name {
            Some(choose|i: int| 0 <= i < self.users@.len() && self.users@[i].name@ == name)
        } else {
            None
        }
    }

    /// The state of the user named `name`; a fresh one for an unknown name.
    pub open spec fn state_of(self, name: Seq<char>) -> UserState {
        match self.index_of(name) {
            Some(i) => self.states@[i],
            None => UserState::fresh(),
        }
    }

    /// `other` is this server with the state of the user at `i` replaced by `s`.
    pub open spec fn changed_at(self, other: Server, i: int, s: UserState) -> bool {
        &&& other.users == self.users
        &&& other.grace == self.grace
        &&& other.states@ == self.states@.update(i, s)
    }

    /// `other` is this server with the state of the user named `name`, if it
    /// is known, replaced by `s`.
    pub open spec fn changed_for(self, other: Server, name: Seq<char>, s: UserState) -> bool {
        match self.index_of(name) {
            Some(i) => self.changed_at(other, i, s),
            None => other == self,
        }
    }

    /// A server for the given users, none of them with any activity yet.
    pub fn new(users: Vec<UserKeys>, grace: u64) -> (r: Self)
        requires
            distinct_names(users@),
        ensures
            r.wf(),
            r.users == users,
            r.grace == grace,
            forall|n: Seq<char>| #[trigger] r.state_of(n) == UserState::fresh(),
    {
        let mut states: Vec<UserState> = Vec::new();
        let mut i: usize = 0;
        while i < users.len()
            invariant
                0 <= i <= users@.len(),
                states@.len() == i,
                forall|j: int| 0 <= j < i ==> #[trigger] states@[j] == UserState::fresh(),
            decreases users.len() - i,
        {
            states.push(UserState::new());
            i = i + 1;
        }
        proof {
            lemma_total_fresh(states@);
        }
        let r = Server { users, states, grace };
        assert forall|n: Seq<char>| #[trigger] r.state_of(n) == UserState::fresh() by {
            if let Some(i) = r.index_of(n) {
                assert(0 <= i < r.states@.len());
            }
        }
        r
    }

    /// Whether `name` is a known user that `key` authenticates.
    pub fn check_key(&self, name: &str, key: &Credential) -> (r: bool)
        requires
            self.wf(),
        ensures
            r == accepts(self.users@, name@, key@),
    {
        check(&self.users, name, key)
    }

    /// Position of the user named `name`, as `index_of` gives it.
    fn locate(&self, name: &str) -> (r: Option<usize>)
        requires
            self.wf(),
        ensures
            match r {
                Some(i) => self.index_of(name@) == Some(i as int) && i < self.states@.len(),
                None => self.index_of(name@) is None,
            },
    {
        let r = find_user(&self.users, name);
        proof {
            if let Some(i) = r {
                assert(self.users@[i as int].name@ == name@);
                let c = choose|k: int| 0 <= k < self.users@.len() && self.users@[k].name@ == name@;
                assert(c == i as int);
            }
        }
        r
    }

    /// Live sessions of the user named `name`, or of all users together
    /// when no name is given. An unknown user has none.
    pub fn connection_count(&self, name: Option<&str>) -> (r: u64)
        requires
            self.wf(),
        ensures
            match name {
                Some(n) => r == self.state_of(n@).count,
                None => r == total(self.states@),
            },
    {
        match name {
            Some(n) => match self.locate(n) {
                Some(i) => self.states[i].count,
                None => 0,
            },
            None => {
                let mut acc: u64 = 0;
                let mut i: usize = 0;
                while i < self.states.len()
                    invariant
                        self.wf(),
                        0 <= i <= self.states@.len(),
                        acc == total(self.states@.subrange(0, i as int)),
                    decreases self.states.len() - i,
                {
                    proof {
                        let s = self.states@.subrange(0, i as int + 1);
                        assert(s.drop_last() =~= self.states@.subrange(0, i as int));
                        lemma_total_prefix(self.states@, i as int + 1);
                    }
                    acc = acc + self.states[i].count;
                    i = i + 1;
                }
                assert(self.states@.subrange(0, i as int) =~= self.states@);
                acc
            },
        }
    }

    /// When the container of `name` may be reclaimed: none while sessions are
    /// live, when no closure was recorded, or for an unknown user.
    pub fn expiration_time(&self, name: &str) -> (r: Option<u64>)
        requires
            self.wf(),
        ensures
            r == self.state_of(name@).expiry(self.grace),
    {
        match self.locate(name) {
            Some(i) => self.states[i].expiration_time(self.grace),
            None => None,
        }
    }

    /// Whether the container of `name` may be reclaimed at `now`.
    pub fn expiration_due(&self, name: &str, now: u64) -> (r: bool)
        requires
            self.wf(),
        ensures
            r == self.state_of(name@).due(self.grace, now),
    {
        match self.locate(name) {
            Some(i) => self.states[i].expiration_due(self.grace, now),
            None => false,
        }
    }

    /// Takes one reference token for `name`. Fails, changing nothing, for an
    /// unknown user or when the total count is at its largest value.
    pub fn acquire(&mut self, name: &str) -> (r: bool)
        requires
            old(self).wf(),
        ensures
            final(self).wf(),
            r == (old(self).index_of(name@) is Some && total(old(self).states@) < u64::MAX),
            r ==> old(self).changed_for(*final(self), name@, old(self).state_of(name@).after_acquire()),
            !r ==> *final(self) == *old(self),
    {
        match self.locate(name) {
            Some(i) => {
                if self.total_is_max() {
                    return false;
                }
                proof {
                    lemma_count_le_total(self.states@, i as int);
                }
                let mut s = self.take_state(i);
                s.acquire();
                proof {
                    lemma_total_update(old(self).states@, i as int, s);
                }
                self.states.set(i, s);
                true
            },
            None => false,
        }
    }

    /// Gives back one reference token of `name` at `now`. True when this
    /// brought the user's count to zero, and its closure time is then `now`.
    pub fn release(&mut self, name: &str, now: u64) -> (zero: bool)
        requires
            old(self).wf(),
        ensures
            final(self).wf(),
            old(self).changed_for(*final(self), name@, old(self).state_of(name@).after_release(now)),
            zero == (old(self).state_of(name@).count == 1),
    {
        match self.locate(name) {
            Some(i) => {
                let mut s = self.take_state(i);
                let zero = s.release(now);
                proof {
                    lemma_total_update(old(self).states@, i as int, s);
                }
                self.states.set(i, s);
                zero
            },
            None => false,
        }
    }

    /// Records the container provisioned for `name`; false for an unknown
    /// user.
    pub fn set_container(&mut self, name: &str, id: String) -> (r: bool)
        requires
            old(self).wf(),
        ensures
            final(self).wf(),
            r == old(self).index_of(name@) is Some,
            old(self).changed_for(
                *final(self),
                name@,
                (UserState { container: Some(id), ..old(self).state_of(name@) }),
            ),
    {
        match self.locate(name) {
            Some(i) => {
                let mut s = self.take_state(i);
                s.set_container(id);
                proof {
                    lemma_total_update(old(self).states@, i as int, s);
                }
                self.states.set(i, s);
                true
            },
            None => false,
        }
    }

    /// Decides whether the container of `name` goes at `now`: returns its
    /// identifier when there is one, no removal of it is pending, and `force`
    /// is set or expiration is due. The caller then asks the engine to remove
    /// it, holding no lock, and hands the answer to `finish_expire`.
    pub fn expire_user(&mut self, name: &str, force: bool, now: u64) -> (r: Option<String>)
        requires
            old(self).wf(),
        ensures
            final(self).wf(),
            r == old(self).state_of(name@).reclaim_target(force, old(self).grace, now),
            old(self).changed_for(
                *final(self),
                name@,
                old(self).state_of(name@).after_begin(force, old(self).grace, now),
            ),
    {
        match self.locate(name) {
            Some(i) => {
                let mut s = self.take_state(i);
                let r = s.begin_reclaim(force, self.grace, now);
                proof {
                    lemma_total_update(old(self).states@, i as int, s);
                }
                self.states.set(i, s);
                r
            },
            None => None,
        }
    }

    /// Takes in the engine's answer to the pending removal for `name`.
    pub fn finish_expire(&mut self, name: &str, outcome: RemovalOutcome)
        requires
            old(self).wf(),
        ensures
            final(self).wf(),
            old(self).changed_for(
                *final(self),
                name@,
                old(self).state_of(name@).after_finish(outcome),
            ),
    {
        match self.locate(name) {
            Some(i) => {
                let mut s = self.take_state(i);
                s.finish_reclaim(outcome);
                proof {
                    lemma_total_update(old(self).states@, i as int, s);
                }
                self.states.set(i, s);
            },
            None => {},
        }
    }

    fn total_is_max(&self) -> (r: bool)
        requires
            self.wf(),
        ensures
            r == (total(self.states@) == u64::MAX),
    {
        let all = self.connection_count(None);
        all == u64::MAX
    }

    /// A copy of the state at `i`.
    fn take_state(&self, i: usize) -> (r: UserState)
        requires
            i < self.states@.len(),
        ensures
            r == self.states@[i as int],
    {
        let s = &self.states[i];
        let container = match &s.container {
            Some(c) => Some(c.clone()),
            None => None,
        };
        UserState {
            count: s.count,
            last_closure: s.last_closure,
            container,
            reclaiming: s.reclaiming,
        }
    }
}

proof fn lemma_total_fresh(s: Seq<UserState>)
    requires
        forall|j: int| 0 <= j < s.len() ==> #[trigger] s[j] == UserState::fresh(),
    ensures
        total(s) == 0,
    decreases s.len(),
{
    if s.len() > 0 {
        lemma_total_fresh(s.drop_last());
    }
}

proof fn lemma_total_update(s: Seq<UserState>, i: int, v: UserState)
    requires
        0 <= i < s.len(),
    ensures
        total(s.update(i, v)) == total(s) - s[i].count + v.count,
    decreases s.len(),
{
    if i == s.len() - 1 {
        assert(s.update(i, v).drop_last() =~= s.drop_last());
    } else {
        lemma_total_update(s.drop_last(), i, v);
        assert(s.update(i, v).drop_last() =~= s.drop_last().update(i, v));
    }
}

proof fn lemma_count_le_total(s: Seq<UserState>, i: int)
    requires
        0 <= i < s.len(),
    ensures
        s[i].count <= total(s),
    decreases s.len(),
{
    if i < s.len() - 1 {
        lemma_count_le_total(s.drop_last(), i);
    }
    lemma_total_nonneg(s.drop_last());
}

proof fn lemma_total_nonneg(s: Seq<UserState>)
    ensures
        total(s) >= 0,
    decreases s.len(),
{
    if s.len() > 0 {
        lemma_total_nonneg(s.drop_last());
    }
}

proof fn lemma_total_prefix(s: Seq<UserState>, k: int)
    requires
        0 <= k <= s.len(),
    ensures
        total(s.subrange(0, k)) <= total(s),
    decreases s.len(),
{
    if k == s.len() {
        assert(s.subrange(0, k) =~= s);
    } else {
        lemma_total_prefix(s.drop_last(), k);
        assert(s.drop_last().subrange(0, k) =~= s.subrange(0, k));
    }
}

} // verus!
