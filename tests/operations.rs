use podclaw::{
    add_podcast_gui, do_autocache_gui, download_episode_gui, edit_podcast, find_podcast,
    get_storage, inspect_podcast, list_podcasts_or_episodes, lock_podcast, remove_podcast_gui,
    repair_storage, storage_bytes, update_podcast_gui, wants_fetch, Inspection, Podcast,
    PodclawError, PodclawSuccess,
};

fn item(title: &str) -> String {
    format!(
        "<item><title>{t}</title><description>about {t}</description>\
         <enclosure url=\"http://example.com/{t}.mp3\" length=\"1\" type=\"audio/mpeg\"/></item>",
        t = title
    )
}

fn feed_with(author: bool, items: &[&str]) -> Vec<u8> {
    let mut s = String::from(
        "<?xml version=\"1.0\" encoding=\"UTF-8\"?>\
         <rss version=\"2.0\" xmlns:itunes=\"http://www.itunes.com/dtds/podcast-1.0.dtd\">\
         <channel><title>Foo Show</title><link>http://example.com</link>\
         <description>All about foo</description>",
    );
    if author {
        s.push_str("<itunes:author>Jane Roe</itunes:author>");
    }
    for t in items {
        s.push_str(&item(t));
    }
    s.push_str("</channel></rss>");
    s.into_bytes()
}

fn abc() -> Vec<u8> {
    feed_with(true, &["A", "B", "C"])
}

fn add(podcasts: &mut Vec<Podcast>, alias: &str, lock: bool) -> Result<PodclawSuccess, PodclawError> {
    add_podcast_gui(
        alias.to_string(),
        "http://example.com/feed".to_string(),
        "/tmp/casts".to_string(),
        2,
        lock,
        1_000,
        Some(abc()),
        podcasts,
    )
}

fn with_foo(lock: bool) -> Vec<Podcast> {
    let mut podcasts = Vec::new();
    assert_eq!(add(&mut podcasts, "foo", lock), Ok(PodclawSuccess::AddedPodcast));
    podcasts
}

#[test]
fn new_podcast_is_blank() {
    let p = Podcast::new();
    assert_eq!(p.alias, "");
    assert_eq!(p.cache_time, 0);
    assert_eq!(p.update_interval, 0);
    assert!(!p.is_locked);
}

#[test]
fn add_records_fields() {
    let podcasts = with_foo(false);
    assert_eq!(podcasts.len(), 1);
    let p = &podcasts[0];
    assert_eq!(p.alias, "foo");
    assert_eq!(p.feed_url, "http://example.com/feed");
    assert_eq!(p.download_path, "/tmp/casts");
    assert_eq!(p.update_interval, 7_200);
    assert_eq!(p.cache_time, 1_000);
    assert!(!p.is_locked);
    assert!(p.cache_content.contains("Foo Show"));
    assert!(with_foo(true)[0].is_locked);
}

#[test]
fn find_ignores_case() {
    let mut podcasts = with_foo(false);
    assert_eq!(add(&mut podcasts, "Bar", false), Ok(PodclawSuccess::AddedPodcast));
    assert_eq!(find_podcast(&"FOO".to_string(), &podcasts), Some(0));
    assert_eq!(find_podcast(&"bar".to_string(), &podcasts), Some(1));
    assert_eq!(find_podcast(&"BaR".to_string(), &podcasts), Some(1));
    assert_eq!(find_podcast(&"baz".to_string(), &podcasts), None);
}

#[test]
fn duplicate_alias_in_any_case_is_refused() {
    let mut podcasts = with_foo(false);
    assert_eq!(add(&mut podcasts, "FoO", false), Err(PodclawError::AliasInUse));
    assert_eq!(podcasts.len(), 1);
    assert_eq!(podcasts[0].alias, "foo");
}

#[test]
fn add_errors_leave_collection_alone() {
    let mut podcasts = with_foo(false);
    assert_eq!(add(&mut podcasts, "", false), Err(PodclawError::InvalidAlias));
    let failed = add_podcast_gui(
        "bar".to_string(),
        "x".to_string(),
        "y".to_string(),
        1,
        false,
        5,
        None,
        &mut podcasts,
    );
    assert_eq!(failed, Err(PodclawError::RequestFailed));
    let invalid = add_podcast_gui(
        "bar".to_string(),
        "x".to_string(),
        "y".to_string(),
        1,
        false,
        5,
        Some(b"not a feed".to_vec()),
        &mut podcasts,
    );
    assert_eq!(invalid, Err(PodclawError::InvalidFeed));
    assert_eq!(podcasts.len(), 1);
}

#[test]
fn remove_keeps_order() {
    let mut podcasts = with_foo(false);
    assert_eq!(add(&mut podcasts, "bar", false), Ok(PodclawSuccess::AddedPodcast));
    assert_eq!(add(&mut podcasts, "baz", false), Ok(PodclawSuccess::AddedPodcast));
    remove_podcast_gui(0, &mut podcasts);
    let names: Vec<&str> = podcasts.iter().map(|p| p.alias.as_str()).collect();
    assert_eq!(names, vec!["bar", "baz"]);
}

#[test]
fn repair_needs_confirmation() {
    assert_eq!(repair_storage(false), Err(PodclawError::NoConfirmation));
    let bytes = repair_storage(true).unwrap();
    assert!(get_storage(&bytes).unwrap().is_empty());
}

#[test]
fn storage_round_trip() {
    let mut podcasts = with_foo(true);
    assert_eq!(add(&mut podcasts, "bar", false), Ok(PodclawSuccess::AddedPodcast));
    let bytes = storage_bytes(&podcasts);
    let back = get_storage(&bytes).unwrap();
    assert_eq!(back.len(), 2);
    for (a, b) in podcasts.iter().zip(back.iter()) {
        assert_eq!(a.alias, b.alias);
        assert_eq!(a.feed_url, b.feed_url);
        assert_eq!(a.download_path, b.download_path);
        assert_eq!(a.update_interval, b.update_interval);
        assert_eq!(a.cache_time, b.cache_time);
        assert_eq!(a.cache_content, b.cache_content);
        assert_eq!(a.is_locked, b.is_locked);
    }
    assert_eq!(storage_bytes(&back), bytes);
}

#[test]
fn corrupted_storage_is_reported() {
    assert_eq!(get_storage(&[1, 2, 3]).unwrap_err(), PodclawError::StorageCorrupted);
}

#[test]
fn autocache_on_locked_changes_nothing() {
    let mut podcasts = with_foo(true);
    let before = podcasts[0].cache_content.clone();
    assert!(!wants_fetch(&podcasts[0], 1_000_000, false));
    let r = do_autocache_gui(0, &mut podcasts, 1_000_000, Some(feed_with(true, &["Z"])));
    assert_eq!(r, Err(PodclawError::PodcastLocked));
    assert_eq!(podcasts[0].cache_content, before);
    assert_eq!(podcasts[0].cache_time, 1_000);
}

#[test]
fn autocache_keeps_fresh_cache() {
    let mut podcasts = with_foo(false);
    assert!(!wants_fetch(&podcasts[0], 8_200, false));
    let r = do_autocache_gui(0, &mut podcasts, 8_200, Some(feed_with(true, &["Z"])));
    assert_eq!(r, Ok(PodclawSuccess::CacheCurrent));
    assert_eq!(podcasts[0].cache_time, 1_000);
}

#[test]
fn autocache_refreshes_stale_cache() {
    let mut podcasts = with_foo(false);
    assert!(wants_fetch(&podcasts[0], 8_201, false));
    let r = do_autocache_gui(0, &mut podcasts, 8_201, Some(feed_with(true, &["Z"])));
    assert_eq!(r, Ok(PodclawSuccess::AutoUpdatedPodcast));
    assert_eq!(podcasts[0].cache_time, 8_201);
    let titles = list_podcasts_or_episodes(Some("foo".to_string()), false, &podcasts).unwrap();
    assert_eq!(titles, vec!["Z".to_string()]);
}

#[test]
fn autocache_refreshes_cache_from_the_future() {
    let mut podcasts = with_foo(false);
    assert!(wants_fetch(&podcasts[0], 999, false));
    let r = do_autocache_gui(0, &mut podcasts, 999, Some(abc()));
    assert_eq!(r, Ok(PodclawSuccess::AutoUpdatedPodcast));
    assert_eq!(podcasts[0].cache_time, 999);
}

#[test]
fn autocache_failure_keeps_stale_cache() {
    let mut podcasts = with_foo(false);
    let before = podcasts[0].cache_content.clone();
    assert_eq!(do_autocache_gui(0, &mut podcasts, 90_000, None), Err(PodclawError::RequestFailed));
    let bad = Some(b"<html></html>".to_vec());
    assert_eq!(do_autocache_gui(0, &mut podcasts, 90_000, bad), Err(PodclawError::InvalidFeed));
    assert_eq!(podcasts[0].cache_content, before);
    assert_eq!(podcasts[0].cache_time, 1_000);
}

#[test]
fn update_ignores_age_but_not_lock() {
    let mut podcasts = with_foo(false);
    assert!(wants_fetch(&podcasts[0], 1_001, true));
    let r = update_podcast_gui(0, &mut podcasts, 1_001, Some(feed_with(true, &["Q", "R"])));
    assert_eq!(r, Ok(PodclawSuccess::UpdatedPodcast));
    assert_eq!(podcasts[0].cache_time, 1_001);
    let mut locked = with_foo(true);
    assert!(!wants_fetch(&locked[0], 1_001, true));
    let r = update_podcast_gui(0, &mut locked, 1_001, Some(abc()));
    assert_eq!(r, Err(PodclawError::PodcastLocked));
    assert_eq!(locked[0].cache_time, 1_000);
}

#[test]
fn edit_without_fields_makes_no_changes() {
    let mut podcasts = with_foo(false);
    let r = edit_podcast(0, None, None, None, None, &mut podcasts);
    assert_eq!(r, Ok(PodclawSuccess::NoChanges));
    assert_eq!(podcasts[0].alias, "foo");
    assert_eq!(podcasts[0].update_interval, 7_200);
}

#[test]
fn edit_applies_supplied_fields() {
    let mut podcasts = with_foo(false);
    let r = edit_podcast(0, Some("qux".to_string()), None, Some("/srv".to_string()), Some(3), &mut podcasts);
    assert_eq!(r, Ok(PodclawSuccess::EditedPodcast));
    assert_eq!(podcasts[0].alias, "qux");
    assert_eq!(podcasts[0].feed_url, "http://example.com/feed");
    assert_eq!(podcasts[0].download_path, "/srv");
    assert_eq!(podcasts[0].update_interval, 10_800);
}

#[test]
fn edit_of_locked_is_refused() {
    let mut podcasts = with_foo(true);
    let r = edit_podcast(0, Some("qux".to_string()), None, None, None, &mut podcasts);
    assert_eq!(r, Err(PodclawError::PodcastLocked));
    assert_eq!(podcasts[0].alias, "foo");
}

#[test]
fn lock_toggles_twice() {
    let mut podcasts = with_foo(false);
    assert!(lock_podcast(0, &mut podcasts));
    assert!(podcasts[0].is_locked);
    assert!(!lock_podcast(0, &mut podcasts));
    assert!(!podcasts[0].is_locked);
}

#[test]
fn list_shows_newest_first_by_default() {
    let podcasts = with_foo(false);
    let shown = list_podcasts_or_episodes(Some("foo".to_string()), false, &podcasts).unwrap();
    assert_eq!(shown, vec!["C".to_string(), "B".to_string(), "A".to_string()]);
    let native = list_podcasts_or_episodes(Some("foo".to_string()), true, &podcasts).unwrap();
    assert_eq!(native, vec!["A".to_string(), "B".to_string(), "C".to_string()]);
}

#[test]
fn list_without_alias_gives_aliases() {
    let mut podcasts = with_foo(false);
    assert_eq!(add(&mut podcasts, "bar", false), Ok(PodclawSuccess::AddedPodcast));
    let names = list_podcasts_or_episodes(None, false, &podcasts).unwrap();
    assert_eq!(names, vec!["foo".to_string(), "bar".to_string()]);
    let missing = list_podcasts_or_episodes(Some("nope".to_string()), false, &podcasts);
    assert_eq!(missing.unwrap_err(), PodclawError::PodcastNotFound);
}

#[test]
fn get_on_locked_podcast_still_plans_download() {
    let podcasts = with_foo(true);
    let plan = download_episode_gui(0, 0, false, &podcasts).unwrap();
    assert_eq!(plan.url, "http://example.com/C.mp3");
    assert_eq!(plan.directory, "/tmp/casts");
    assert_eq!(plan.file_name, "[foo - 0] C.mp3");
    let last = download_episode_gui(0, 2, false, &podcasts).unwrap();
    assert_eq!(last.file_name, "[foo - 2] A.mp3");
    let listed = list_podcasts_or_episodes(Some("FOO".to_string()), false, &podcasts).unwrap();
    assert_eq!(listed, vec!["C".to_string(), "B".to_string(), "A".to_string()]);
    let native = download_episode_gui(0, 2, true, &podcasts).unwrap();
    assert_eq!(native.url, "http://example.com/C.mp3");
    assert_eq!(
        download_episode_gui(0, 3, false, &podcasts).unwrap_err(),
        PodclawError::IndexOutOfBounds
    );
}

#[test]
fn download_name_has_full_index() {
    let titles: Vec<String> = (0..12).map(|k| format!("E{}", k)).collect();
    let refs: Vec<&str> = titles.iter().map(|s| s.as_str()).collect();
    let mut podcasts = Vec::new();
    let r = add_podcast_gui(
        "many".to_string(),
        "x".to_string(),
        "d".to_string(),
        1,
        false,
        0,
        Some(feed_with(true, &refs)),
        &mut podcasts,
    );
    assert_eq!(r, Ok(PodclawSuccess::AddedPodcast));
    let plan = download_episode_gui(0, 11, true, &podcasts).unwrap();
    assert_eq!(plan.file_name, "[many - 11] E11.mp3");
}

#[test]
fn inspect_series_and_episode() {
    let podcasts = with_foo(true);
    match inspect_podcast(0, None, false, &podcasts).unwrap() {
        Inspection::Series(d) => {
            assert_eq!(d.title, "Foo Show");
            assert_eq!(d.author, "Jane Roe");
            assert_eq!(d.description, "All about foo");
        }
        Inspection::Episode(_) => panic!("expected the series"),
    }
    match inspect_podcast(0, Some(2), false, &podcasts).unwrap() {
        Inspection::Episode(d) => {
            assert_eq!(d.title, "A");
            assert_eq!(d.index, 2);
            assert_eq!(d.description, "about A");
            assert_eq!(d.link, "http://example.com/A.mp3");
        }
        Inspection::Series(_) => panic!("expected an episode"),
    }
    assert_eq!(
        inspect_podcast(0, Some(3), false, &podcasts).unwrap_err(),
        PodclawError::IndexOutOfBounds
    );
}

#[test]
fn inspect_needs_an_author() {
    let mut podcasts = Vec::new();
    let r = add_podcast_gui(
        "anon".to_string(),
        "x".to_string(),
        "d".to_string(),
        1,
        false,
        0,
        Some(feed_with(false, &["A"])),
        &mut podcasts,
    );
    assert_eq!(r, Ok(PodclawSuccess::AddedPodcast));
    assert_eq!(inspect_podcast(0, None, false, &podcasts).unwrap_err(), PodclawError::InvalidFeed);
}

#[test]
fn unreadable_cache_is_invalid_feed() {
    let mut p = Podcast::new();
    p.alias = "junk".to_string();
    p.cache_content = "garbage".to_string();
    let podcasts = vec![p];
    assert_eq!(inspect_podcast(0, None, false, &podcasts).unwrap_err(), PodclawError::InvalidFeed);
    assert_eq!(download_episode_gui(0, 0, false, &podcasts).unwrap_err(), PodclawError::InvalidFeed);
}

#[test]
fn download_needs_no_description() {
    let mut p = Podcast::new();
    p.alias = "foo".to_string();
    p.download_path = "/d".to_string();
    p.is_locked = true;
    p.cache_content = "<rss><channel><item><title>A</title></item><item><title>B</title></item>\
        <item><title>C</title><enclosure url='http://c'/></item></channel></rss>"
        .to_string();
    let podcasts = vec![p];
    let plan = download_episode_gui(0, 0, false, &podcasts).unwrap();
    assert_eq!(plan.url, "http://c");
    assert_eq!(plan.directory, "/d");
    assert_eq!(plan.file_name, "[foo - 0] C.mp3");
    assert_eq!(download_episode_gui(0, 1, false, &podcasts).unwrap_err(), PodclawError::InvalidFeed);
    assert_eq!(inspect_podcast(0, Some(0), false, &podcasts).unwrap_err(), PodclawError::InvalidFeed);
}
