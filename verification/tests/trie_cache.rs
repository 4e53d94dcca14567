use relay_chain_minimal_node::trie_cache::CacheProvider;
use std::cell::Cell;

#[test]
fn a_new_provider_caches_nothing() {
    let mut provider = CacheProvider::new();
    let cache = provider.as_trie_db_mut_cache();
    assert_eq!(cache.get_node(&[1u8; 32]), None);
    assert_eq!(cache.lookup_value_for_key(b"key"), None);
    assert_eq!(cache.lookup_value_for_key(b""), None);
}

#[test]
fn a_cached_value_is_found_under_its_key_only() {
    let mut provider = CacheProvider::new();
    let cache = provider.as_trie_db_mut_cache();
    cache.cache_value_for_key(b"alpha", 3);
    assert_eq!(cache.lookup_value_for_key(b"alpha"), Some(3));
    assert_eq!(cache.lookup_value_for_key(b"alph"), None);
    assert_eq!(cache.lookup_value_for_key(b"alphab"), None);
    assert_eq!(cache.get_node(b"alpha"), None);
}

#[test]
fn caching_a_value_again_replaces_it() {
    let mut provider = CacheProvider::new();
    let cache = provider.as_trie_db_mut_cache();
    cache.cache_value_for_key(b"alpha", 3);
    cache.cache_value_for_key(b"beta", 4);
    cache.cache_value_for_key(b"alpha", 5);
    assert_eq!(cache.lookup_value_for_key(b"alpha"), Some(5));
    assert_eq!(cache.lookup_value_for_key(b"beta"), Some(4));
}

#[test]
fn the_empty_key_is_a_key() {
    let mut provider = CacheProvider::new();
    let cache = provider.as_trie_db_mut_cache();
    cache.cache_value_for_key(b"", 0);
    assert_eq!(cache.lookup_value_for_key(b""), Some(0));
}

#[test]
fn a_missing_node_is_fetched_once_and_cached() {
    let mut provider = CacheProvider::new();
    let cache = provider.as_trie_db_mut_cache();
    let fetches = Cell::new(0u32);
    let hash = [7u8; 32];
    let first: Result<usize, ()> = cache.get_or_insert_node(&hash, || {
        fetches.set(fetches.get() + 1);
        Ok(11)
    });
    assert_eq!(first, Ok(11));
    assert_eq!(cache.get_node(&hash), Some(11));
    let second: Result<usize, ()> = cache.get_or_insert_node(&hash, || {
        fetches.set(fetches.get() + 1);
        Ok(12)
    });
    assert_eq!(second, Ok(11));
    assert_eq!(fetches.get(), 1);
    assert_eq!(cache.get_node(&hash), Some(11));
}

#[test]
fn a_failed_fetch_caches_nothing() {
    let mut provider = CacheProvider::new();
    let cache = provider.as_trie_db_mut_cache();
    let hash = [7u8; 32];
    let failed: Result<usize, &str> = cache.get_or_insert_node(&hash, || Err("incomplete proof"));
    assert_eq!(failed, Err("incomplete proof"));
    assert_eq!(cache.get_node(&hash), None);
    let fetched: Result<usize, &str> = cache.get_or_insert_node(&hash, || Ok(2));
    assert_eq!(fetched, Ok(2));
    assert_eq!(cache.get_node(&hash), Some(2));
}

#[test]
fn nodes_and_values_are_kept_apart() {
    let mut provider = CacheProvider::new();
    let cache = provider.as_trie_db_mut_cache();
    let hash = [9u8; 32];
    let _: Result<usize, ()> = cache.get_or_insert_node(&hash, || Ok(1));
    assert_eq!(cache.lookup_value_for_key(&hash), None);
    cache.cache_value_for_key(&hash, 2);
    assert_eq!(cache.get_node(&hash), Some(1));
    assert_eq!(cache.lookup_value_for_key(&hash), Some(2));
}

#[test]
fn different_hashes_have_different_entries() {
    let mut provider = CacheProvider::new();
    let cache = provider.as_trie_db_mut_cache();
    let mut other = [0u8; 32];
    other[31] = 1;
    let _: Result<usize, ()> = cache.get_or_insert_node(&[0u8; 32], || Ok(0));
    let _: Result<usize, ()> = cache.get_or_insert_node(&other, || Ok(1));
    assert_eq!(cache.get_node(&[0u8; 32]), Some(0));
    assert_eq!(cache.get_node(&other), Some(1));
}

#[test]
fn what_is_cached_stays_with_the_provider() {
    let mut provider = CacheProvider::new();
    {
        let cache = provider.as_trie_db_cache(&[0xee; 32]);
        cache.cache_value_for_key(b"alpha", 3);
        let _: Result<usize, ()> = cache.get_or_insert_node(&[1u8; 32], || Ok(8));
    }
    let again = provider.as_trie_db_cache(&[0xdd; 32]);
    assert_eq!(again.lookup_value_for_key(b"alpha"), Some(3));
    assert_eq!(again.get_node(&[1u8; 32]), Some(8));
    let for_writing = provider.as_trie_db_mut_cache();
    assert_eq!(for_writing.lookup_value_for_key(b"alpha"), Some(3));
    assert_eq!(for_writing.get_node(&[1u8; 32]), Some(8));
}
