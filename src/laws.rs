use vstd::prelude::*;

use crate::auth::accepts;
use crate::server::Server;
use crate::session::{RemovalOutcome, UserState};

verus! {

/// The state after `n` tokens are taken one after another.
pub open spec fn acquire_n(s: UserState, n: nat) -> UserState
    decreases n,
{
    if n == 0 {
        s
    } else {
        acquire_n(s, (n - 1) as nat).after_acquire()
    }
}

/// The state after `n` tokens are given back one after another at `now`.
pub open spec fn release_n(s: UserState, n: nat, now: u64) -> UserState
    decreases n,
{
    if n == 0 {
        s
    } else {
        release_n(s, (n - 1) as nat, now).after_release(now)
    }
}

/// A user with no prior activity has no live session and no expiration
/// time, and is never due for expiration.
pub proof fn law_fresh_user_idle(grace: u64, now: u64)
    ensures
        UserState::fresh().count == 0,
        UserState::fresh().expiry(grace) is None,
        !UserState::fresh().due(grace, now),
{
}

/// A name the server does not know has no live session, no expiration time,
/// and is never due for expiration.
pub proof fn law_unknown_user_idle(s: Server, name: Seq<char>, now: u64)
    requires
        s.index_of(name) is None,
    ensures
        s.state_of(name).count == 0,
        s.state_of(name).expiry(s.grace) is None,
        !s.state_of(name).due(s.grace, now),
{
}

/// Taking a token and giving it back at `now`, from no live session, leaves
/// the count at zero with the closure recorded at `now`.
pub proof fn law_acquire_release(s: UserState, now: u64)
    requires
        s.count == 0,
    ensures
        s.after_acquire().after_release(now).count == 0,
        s.after_acquire().after_release(now).last_closure == Some(now),
{
}

/// While any session is live, expiration is never due, however late.
pub proof fn law_live_blocks_expiry(s: UserState, grace: u64, now: u64)
    requires
        s.count > 0,
    ensures
        !s.due(grace, now),
        s.expiry(grace) is None,
{
}

/// After a closure at `t` with grace `g`, expiration is not due one moment
/// before `t + g` and is due at `t + g`.
pub proof fn law_grace_boundary(s: UserState, t: u64, g: u64)
    requires
        s.count == 0,
        s.last_closure == Some(t),
        1 <= t + g <= u64::MAX,
    ensures
        !s.due(g, (t + g - 1) as u64),
        s.due(g, (t + g) as u64),
        s.expiry(g) == Some((t + g) as u64),
{
}

/// A forced reclaim of a user with a container hands out that container,
/// and once the engine confirms (removed, or already gone) the record is
/// cleared. A second forced reclaim then hands out nothing, and whatever
/// the engine says afterwards changes nothing.
pub proof fn law_forced_reclaim_idempotent(
    s: UserState,
    grace: u64,
    t1: u64,
    t2: u64,
    first: RemovalOutcome,
    second: RemovalOutcome,
)
    requires
        s.container is Some,
        !s.reclaiming,
        first != RemovalOutcome::Failed,
    ensures
        s.reclaim_target(true, grace, t1) == s.container,
        s.after_begin(true, grace, t1).after_finish(first).container is None,
        s.after_begin(true, grace, t1).after_finish(first).reclaim_target(true, grace, t2) is None,
        s.after_begin(true, grace, t1).after_finish(first).after_begin(true, grace, t2).after_finish(
            second,
        ) == s.after_begin(true, grace, t1).after_finish(first),
{
}

/// Two reclaims that overlap never both hand out the container: once one
/// has handed it out, the other gets nothing until the answer is in.
pub proof fn law_no_double_removal(s: UserState, f1: bool, f2: bool, grace: u64, t1: u64, t2: u64)
    requires
        s.reclaim_target(f1, grace, t1) is Some,
    ensures
        s.after_begin(f1, grace, t1).reclaim_target(f2, grace, t2) is None,
{
}

/// `n` tokens taken and then `n` given back leave the count where it was;
/// from zero, the closure is recorded at the time of the last release.
pub proof fn law_balanced_tokens(s: UserState, n: nat, now: u64)
    requires
        s.count + n <= u64::MAX,
    ensures
        release_n(acquire_n(s, n), n, now).count == s.count,
        s.count == 0 && n > 0 ==> release_n(acquire_n(s, n), n, now).last_closure == Some(now),
{
    lemma_acquire_n(s, n);
    lemma_release_n(acquire_n(s, n), n, now);
}

proof fn lemma_acquire_n(s: UserState, n: nat)
    requires
        s.count + n <= u64::MAX,
    ensures
        acquire_n(s, n).count == s.count + n,
        acquire_n(s, n).last_closure == s.last_closure,
    decreases n,
{
    if n > 0 {
        lemma_acquire_n(s, (n - 1) as nat);
    }
}

proof fn lemma_release_n(s: UserState, n: nat, now: u64)
    requires
        n <= s.count,
    ensures
        release_n(s, n, now).count == s.count - n,
        n > 0 && n == s.count ==> release_n(s, n, now).last_closure == Some(now),
    decreases n,
{
    if n > 0 {
        lemma_release_n(s, (n - 1) as nat, now);
    }
}

/// A credential is accepted only for a known user and only when it equals
/// one of that user's authorized credentials exactly.
pub proof fn law_check_exact(
    users: Seq<crate::auth::UserKeys>,
    name: Seq<char>,
    key: Seq<u8>,
)
    ensures
        (forall|i: int| 0 <= i < users.len() ==> users[i].name@ != name) ==> !accepts(
            users,
            name,
            key,
        ),
        accepts(users, name, key) <==> exists|i: int, k: int|
            0 <= i < users.len() && users[i].name@ == name && 0 <= k < users[i].keys@.len()
                && users[i].keys@[k]@ == key,
{
    if accepts(users, name, key) {
        let i = choose|i: int|
            0 <= i < users.len() && users[i].name@ == name && users[i].key_views().contains(key);
        let k = choose|k: int|
            0 <= k < users[i].key_views().len() && users[i].key_views()[k] == key;
        assert(users[i].keys@[k]@ == key);
    }
    if exists|i: int, k: int|
        0 <= i < users.len() && users[i].name@ == name && 0 <= k < users[i].keys@.len()
            && users[i].keys@[k]@ == key {
        let (i, k) = choose|i: int, k: int|
            0 <= i < users.len() && users[i].name@ == name && 0 <= k < users[i].keys@.len()
                && users[i].keys@[k]@ == key;
        assert(users[i].key_views()[k] == key);
    }
}

} // verus!
