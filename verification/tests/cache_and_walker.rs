use spotify_player::cache::LruCache;
use spotify_player::pagewalk::{Page, PageWalker};

#[test]
fn lru_insert_beyond_capacity_evicts_least_recently_used() {
    let mut cache: LruCache<u32> = LruCache::new(2);
    cache.put(String::from("a"), 1);
    cache.put(String::from("b"), 2);
    cache.put(String::from("c"), 3);
    assert_eq!(cache.len(), 2);
    assert!(!cache.contains("a"));
    assert!(cache.contains("b"));
    assert!(cache.contains("c"));
}

#[test]
fn lru_default_capacity_evicts_after_sixty_five_inserts() {
    let mut cache: LruCache<usize> = LruCache::new(64);
    for i in 0..65usize {
        cache.put(format!("key-{}", i), i);
    }
    assert_eq!(cache.len(), 64);
    assert!(!cache.contains("key-0"));
    assert!(cache.contains("key-1"));
    assert!(cache.contains("key-64"));
}

#[test]
fn lru_put_existing_key_replaces_and_bumps() {
    let mut cache: LruCache<u32> = LruCache::new(2);
    cache.put(String::from("a"), 1);
    cache.put(String::from("b"), 2);
    cache.put(String::from("a"), 10);
    cache.put(String::from("c"), 3);
    // "a" was bumped to most recent, so "b" was the one evicted.
    assert!(cache.contains("a"));
    assert!(!cache.contains("b"));
    assert!(cache.contains("c"));
    assert_eq!(cache.peek("a"), Some(&10));
}

#[test]
fn lru_pop_removes_the_entry() {
    let mut cache: LruCache<u32> = LruCache::new(4);
    cache.put(String::from("a"), 1);
    assert_eq!(cache.pop("a"), Some(1));
    assert!(!cache.contains("a"));
    assert_eq!(cache.pop("a"), None);
}

#[test]
fn lru_peek_misses_on_absent_key() {
    let cache: LruCache<u32> = LruCache::new(4);
    assert_eq!(cache.peek("nothing"), None);
}

#[test]
fn walker_single_page_returns_its_items() {
    let first: Page<u32> = Page { items: vec![1, 2, 3], next: None };
    let walker = PageWalker::start(first);
    assert!(walker.pending().is_none());
    assert_eq!(walker.finish(), vec![1, 2, 3]);
}

#[test]
fn walker_chain_concatenates_in_page_order() {
    let p0: Page<u32> = Page { items: vec![1, 2], next: Some(String::from("page-1")) };
    let p1: Page<u32> = Page { items: vec![3], next: Some(String::from("page-2")) };
    let p2: Page<u32> = Page { items: vec![4, 5], next: None };
    let mut walker = PageWalker::start(p0);
    assert_eq!(walker.pending(), Some(&String::from("page-1")));
    walker.absorb(p1);
    assert_eq!(walker.pending(), Some(&String::from("page-2")));
    walker.absorb(p2);
    assert!(walker.pending().is_none());
    assert_eq!(walker.finish(), vec![1, 2, 3, 4, 5]);
}

#[test]
fn walker_empty_pages_yield_empty_list() {
    let p0: Page<u32> = Page { items: vec![], next: Some(String::from("next")) };
    let p1: Page<u32> = Page { items: vec![], next: None };
    let mut walker = PageWalker::start(p0);
    walker.absorb(p1);
    assert_eq!(walker.finish(), Vec::<u32>::new());
}

#[test]
fn lru_reinserting_the_same_key_never_grows_the_cache() {
    let mut cache: spotify_player::cache::LruCache<u32> = spotify_player::cache::LruCache::new(2);
    cache.put(String::from("a"), 1);
    cache.put(String::from("a"), 2);
    cache.put(String::from("a"), 3);
    assert_eq!(cache.len(), 1);
    assert_eq!(cache.peek("a"), Some(&3));
}
