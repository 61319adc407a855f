use skia_renderer::ItemCache;

#[test]
fn new_cache_is_empty() {
    let cache: ItemCache<u32> = ItemCache::new();
    assert!(cache.get(1, 0).is_none());
}

#[test]
fn insert_then_get_returns_value() {
    let mut cache: ItemCache<u32> = ItemCache::new();
    cache.insert(7, 3, Some(42));
    assert_eq!(cache.get(7, 3), Some(&Some(42)));
    assert!(cache.get(7, 4).is_none());
    assert!(cache.get(8, 3).is_none());
}

#[test]
fn none_entry_is_not_a_miss() {
    let mut cache: ItemCache<u32> = ItemCache::new();
    cache.insert(1, 1, None);
    assert_eq!(cache.get(1, 1), Some(&None));
}

#[test]
fn insert_replaces_earlier_entry() {
    let mut cache: ItemCache<u32> = ItemCache::new();
    cache.insert(1, 1, Some(1));
    cache.insert(1, 1, Some(2));
    assert_eq!(cache.get(1, 1), Some(&Some(2)));
}

#[test]
fn component_destroyed_spares_siblings() {
    let mut cache: ItemCache<&str> = ItemCache::new();
    cache.insert(1, 0, Some("a"));
    cache.insert(1, 5, Some("b"));
    cache.insert(2, 0, Some("c"));
    cache.insert(3, 1, None);
    cache.component_destroyed(1);
    assert!(cache.get(1, 0).is_none());
    assert!(cache.get(1, 5).is_none());
    assert_eq!(cache.get(2, 0), Some(&Some("c")));
    assert_eq!(cache.get(3, 1), Some(&None));
}

#[test]
fn clear_all_evicts_everything() {
    let mut cache: ItemCache<u32> = ItemCache::new();
    cache.insert(1, 0, Some(1));
    cache.insert(2, 0, Some(2));
    cache.clear_all();
    assert!(cache.get(1, 0).is_none());
    assert!(cache.get(2, 0).is_none());
}

#[test]
fn same_scale_factor_keeps_entries() {
    let scale = 2.0f32.to_bits();
    let mut cache: ItemCache<u32> = ItemCache::new();
    cache.clear_cache_if_scale_factor_changed(scale);
    cache.insert(1, 0, Some(9));
    cache.clear_cache_if_scale_factor_changed(scale);
    assert_eq!(cache.get(1, 0), Some(&Some(9)));
}

#[test]
fn changed_scale_factor_evicts_entries() {
    let mut cache: ItemCache<u32> = ItemCache::new();
    cache.clear_cache_if_scale_factor_changed(1.0f32.to_bits());
    cache.insert(1, 0, Some(9));
    cache.insert(4, 2, None);
    cache.clear_cache_if_scale_factor_changed(1.5f32.to_bits());
    assert!(cache.get(1, 0).is_none());
    assert!(cache.get(4, 2).is_none());
    cache.insert(1, 0, Some(10));
    cache.clear_cache_if_scale_factor_changed(1.5f32.to_bits());
    assert_eq!(cache.get(1, 0), Some(&Some(10)));
}

#[test]
fn first_scale_check_evicts_entries_made_before_it() {
    let mut cache: ItemCache<u32> = ItemCache::new();
    cache.insert(1, 0, Some(9));
    cache.clear_cache_if_scale_factor_changed(1.0f32.to_bits());
    assert!(cache.get(1, 0).is_none());
}
