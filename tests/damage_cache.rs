use fluster::DamageCache;

#[test]
fn damage_is_released_at_the_next_present_of_its_framebuffer() {
    let mut cache: DamageCache<Vec<u32>> = DamageCache::new();
    cache.keep_until_present(5, vec![1, 2]);
    assert_eq!(cache.release_on_present(5), vec![vec![1, 2]]);
    assert!(cache.release_on_present(5).is_empty());
}

#[test]
fn present_of_another_framebuffer_keeps_the_damage() {
    let mut cache: DamageCache<Vec<u32>> = DamageCache::new();
    cache.keep_until_present(5, vec![7]);
    assert!(cache.release_on_present(6).is_empty());
    assert!(cache.release_on_present(0).is_empty());
    assert_eq!(cache.release_on_present(5), vec![vec![7]]);
}

#[test]
fn damage_asked_twice_is_all_released_at_the_next_present() {
    let mut cache: DamageCache<&str> = DamageCache::new();
    cache.keep_until_present(3, "first");
    cache.keep_until_present(3, "second");
    assert_eq!(cache.release_on_present(3), vec!["first", "second"]);
    assert!(cache.release_on_present(3).is_empty());
}

#[test]
fn largest_framebuffer_id_is_matched() {
    let mut cache: DamageCache<u8> = DamageCache::new();
    cache.keep_until_present(u32::MAX as isize, 1);
    assert_eq!(cache.release_on_present(u32::MAX), vec![1]);
}

#[test]
fn damage_without_present_is_never_released() {
    let mut cache: DamageCache<u8> = DamageCache::new();
    cache.keep_until_present(-1, 9);
    for fbo in 0..10u32 {
        assert!(cache.release_on_present(fbo).is_empty());
    }
}
