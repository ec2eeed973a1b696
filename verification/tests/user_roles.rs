//! Role-cache behaviour: lazy population, wholesale overwrites, and the
//! last-writer-wins outcome of concurrent miss resolutions.

use time_converter::user_roles::{UserRoleCache, UserRoleCacheError};

#[test]
fn miss_then_resolution_populates_the_cache() {
    let mut cache = UserRoleCache::new();
    assert!(cache.cached_roles(1).is_none());
    let r = cache.resolve_fetched(1, 99, Ok(vec![10, 20]));
    assert_eq!(r.unwrap(), vec![10, 20]);
    assert_eq!(cache.cached_roles(1).unwrap(), vec![10, 20]);
}

#[test]
fn failed_fetch_leaves_cache_unpopulated_and_surfaces_the_error() {
    let mut cache = UserRoleCache::new();
    let r = cache.resolve_fetched(7, 99, Err(String::from("directory unavailable")));
    match r {
        Err(UserRoleCacheError::FailedToFetchGuildMember { user_id, guild_id, cause }) => {
            assert_eq!(user_id, 7);
            assert_eq!(guild_id, 99);
            assert_eq!(cause, "directory unavailable");
        },
        Ok(_) => panic!("expected the directory error to surface"),
    }
    assert!(cache.cached_roles(7).is_none());
}

#[test]
fn concurrent_miss_resolutions_last_writer_wins() {
    let mut cache = UserRoleCache::new();
    // Two lookups for the same uncached user each triggered a fetch;
    // their resolutions land in either order and the later one stays.
    let first = cache.resolve_fetched(5, 99, Ok(vec![1, 2]));
    assert_eq!(first.unwrap(), vec![1, 2]);
    let second = cache.resolve_fetched(5, 99, Ok(vec![3]));
    assert_eq!(second.unwrap(), vec![3]);
    // A subsequent call finds the entry and needs no further fetch.
    assert_eq!(cache.cached_roles(5).unwrap(), vec![3]);
}

#[test]
fn push_invalidation_overwrites_unconditionally() {
    let mut cache = UserRoleCache::new();
    cache.resolve_fetched(5, 99, Ok(vec![1, 2])).unwrap();
    cache.update_roles(5, &vec![8, 9]);
    assert_eq!(cache.cached_roles(5).unwrap(), vec![8, 9]);
    cache.update_roles(6, &vec![]);
    assert_eq!(cache.cached_roles(6).unwrap(), Vec::<u64>::new());
}

#[test]
fn entries_are_independent_per_user() {
    let mut cache = UserRoleCache::new();
    cache.update_roles(1, &vec![11]);
    cache.update_roles(2, &vec![22]);
    assert_eq!(cache.cached_roles(1).unwrap(), vec![11]);
    assert_eq!(cache.cached_roles(2).unwrap(), vec![22]);
    assert!(cache.cached_roles(3).is_none());
}
