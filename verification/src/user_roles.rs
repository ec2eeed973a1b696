//! Per-user role cache.
//!
//! The cache maps a user id to the last-known ordered role list.  An
//! entry is created lazily when a miss is resolved against the external
//! directory, overwritten wholesale on every later resolution or on a
//! role-change push event, and never deleted.  Concurrent misses for one
//! user may each trigger a fetch; the cache does not coalesce them, the
//! last writer simply wins.  Locking is the embedder's business: reads
//! take `&self` and writes take `&mut self`.

use vstd::prelude::*;
use std::collections::HashMap;

verus! {

broadcast use vstd::std_specs::hash::group_hash_axioms;

/// The role cache's one error: the external directory fetch for a user
/// failed, with the directory's own message as the cause.
#[derive(Debug)]
pub enum UserRoleCacheError {
    FailedToFetchGuildMember { user_id: u64, guild_id: u64, cause: String },
}

/// In-memory user-to-roles cache; rebuilt from the directory on restart.
pub struct UserRoleCache {
    user_roles: HashMap<u64, Vec<u64>>,
}

impl View for UserRoleCache {
    type V = Map<u64, Seq<u64>>;

    closed spec fn view(&self) -> Map<u64, Seq<u64>> {
        self.user_roles@.map_values(|v: Vec<u64>| v@)
    }
}

impl UserRoleCache {
    /// An empty cache.
    pub fn new() -> (r: UserRoleCache)
        ensures
            r@ == Map::<u64, Seq<u64>>::empty(),
    {
        let r = UserRoleCache { user_roles: HashMap::new() };
        proof {
            assert(r@ =~= Map::<u64, Seq<u64>>::empty());
        }
        r
    }

    /// Overwrite the user's entry unconditionally; used both when a
    /// fetch resolves and when a role-change push event arrives,
    /// independent of any in-flight fetch.
    pub fn update_roles(&mut self, user_id: u64, roles: &Vec<u64>)
        ensures
            final(self)@ == old(self)@.insert(user_id, roles@),
    {
        let copy = roles.clone();
        proof {
            assert(copy@ =~= roles@);
        }
        self.user_roles.insert(user_id, copy);
        proof {
            assert(self@ =~= old(self)@.insert(user_id, roles@));
        }
    }

    /// The cached entry, if the user has ever been resolved; a hit reads
    /// the cache only and never mutates it.
    pub fn cached_roles(&self, user_id: u64) -> (r: Option<Vec<u64>>)
        ensures
            (match r {
                Some(v) => self@.contains_key(user_id) && v@ == self@[user_id],
                None => !self@.contains_key(user_id),
            }),
    {
        match self.user_roles.get(&user_id) {
            Some(v) => {
                let copy = v.clone();
                proof {
                    assert(copy@ =~= v@);
                }
                Some(copy)
            },
            None => None,
        }
    }

    /// Apply the outcome of a directory fetch for a cache miss: a
    /// successful fetch is stored (overwriting any entry written
    /// concurrently) and returned; a failed fetch leaves the cache
    /// untouched and surfaces the directory error.
    pub fn resolve_fetched(&mut self, user_id: u64, guild_id: u64, fetched: Result<
        Vec<u64>,
        String,
    >) -> (r: Result<Vec<u64>, UserRoleCacheError>)
        ensures
            fetched matches Ok(roles) ==> final(self)@ == old(self)@.insert(user_id, roles@) && (
            r matches Ok(rr) && rr@ == roles@),
            fetched matches Err(cause) ==> final(self)@ == old(self)@ && r == Err::<
                Vec<u64>,
                UserRoleCacheError,
            >((UserRoleCacheError::FailedToFetchGuildMember { user_id, guild_id, cause })),
    {
        match fetched {
            Ok(roles) => {
                self.update_roles(user_id, &roles);
                Ok(roles)
            },
            Err(cause) => Err(
                UserRoleCacheError::FailedToFetchGuildMember { user_id, guild_id, cause },
            ),
        }
    }
}

/// Law: when concurrent misses for one user each trigger a fetch, the
/// entry ends as whichever resolution was applied last, exactly as if
/// the earlier one had never been stored; and once an entry is present,
/// a lookup returns it without touching the directory (`cached_roles`
/// takes `&self` and can perform no fetch).
pub proof fn lemma_last_fetch_wins(
    m: Map<u64, Seq<u64>>,
    user_id: u64,
    first: Seq<u64>,
    second: Seq<u64>,
)
    ensures
        m.insert(user_id, first).insert(user_id, second) =~= m.insert(user_id, second),
        m.insert(user_id, second).contains_key(user_id),
        m.insert(user_id, second)[user_id] == second,
{
}

} // verus!
