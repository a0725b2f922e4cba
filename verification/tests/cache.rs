use skinhelm::cache::{AppCache, RENDERED_PNG_TTL_MS, SKIN_URL_TTL_MS, USERNAME_TTL_MS};

#[test]
fn username_lookup_ignores_case_until_expiry() {
    let mut cache = AppCache::new();
    cache.set_username_uuid("Steve", "abc".to_owned(), 1_000);
    assert_eq!(cache.get_username_uuid("STEVE", 1_000).as_deref(), Some("abc"));
    assert_eq!(cache.get_username_uuid("steve", 1_000 + USERNAME_TTL_MS - 1).as_deref(), Some("abc"));
    assert_eq!(cache.get_username_uuid("steve", 1_000 + USERNAME_TTL_MS), None);
    // The stale entry was dropped; it stays gone.
    assert_eq!(cache.get_username_uuid("steve", 1_000), None);
}

#[test]
fn skin_urls_expire_after_thirty_minutes() {
    let mut cache = AppCache::default();
    assert_eq!(cache.get_skin_url("u1", 0), None);
    cache.set_skin_url("u1", "https://a".to_owned(), 0);
    cache.set_skin_url("u2", "https://b".to_owned(), 10);
    assert_eq!(cache.get_skin_url("u1", SKIN_URL_TTL_MS - 1).as_deref(), Some("https://a"));
    assert_eq!(cache.get_skin_url("u1", SKIN_URL_TTL_MS), None);
    assert_eq!(cache.get_skin_url("u2", SKIN_URL_TTL_MS).as_deref(), Some("https://b"));
    assert_eq!(cache.get_skin_url("U2", SKIN_URL_TTL_MS), None);
}

#[test]
fn rendered_pngs_are_keyed_by_url_and_size() {
    let mut cache = AppCache::new();
    cache.set_rendered_png("https://s", 8, vec![1, 2, 3], 5);
    cache.set_rendered_png("https://s", 16, vec![4], 5);
    assert_eq!(cache.get_rendered_png("https://s", 8, 5), Some(vec![1, 2, 3]));
    assert_eq!(cache.get_rendered_png("https://s", 16, 5), Some(vec![4]));
    assert_eq!(cache.get_rendered_png("https://s", 24, 5), None);
    cache.set_rendered_png("https://s", 8, vec![9], 6);
    assert_eq!(cache.get_rendered_png("https://s", 8, 6), Some(vec![9]));
    assert_eq!(cache.get_rendered_png("https://s", 16, 5 + RENDERED_PNG_TTL_MS), None);
}

#[test]
fn storing_drops_stale_entries_of_other_keys() {
    let mut cache = AppCache::new();
    cache.set_skin_url("old", "https://old".to_owned(), 0);
    cache.set_skin_url("new", "https://new".to_owned(), SKIN_URL_TTL_MS + 1);
    assert_eq!(cache.get_skin_url("old", 0), None);
    assert_eq!(cache.get_skin_url("new", SKIN_URL_TTL_MS + 1).as_deref(), Some("https://new"));
}
