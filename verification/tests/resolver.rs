use yt::cache::{CacheError, CacheFile, CacheStore, RETENTION_NANOS};
use yt::instance::Instance;
use yt::resolver::{
    advance, after_load, after_save, begin, choose_from, step, ResolveAction, ResolveError,
    ResolveEvent, ResolveState,
};

fn list() -> Vec<String> {
    vec!["https://a.example".to_string(), "https://b.example".to_string(), "https://c.example".to_string()]
}

fn named(name: &str, kind: &str, uri: &str, supports_api: Option<bool>) -> (String, Instance) {
    (name.to_string(), Instance { kind: kind.to_string(), uri: uri.to_string(), supports_api })
}

fn directory() -> Vec<(String, Instance)> {
    vec![
        named("one", "http", "http://no-api.example", Some(false)),
        named("two", "ftp", "ftp://files.example", Some(true)),
        named("three", "https", "https://good.example", Some(true)),
        named("four", "https", "https://fine.example", Some(true)),
    ]
}

fn usable() -> Vec<String> {
    vec!["https://good.example".to_string(), "https://fine.example".to_string()]
}

fn json(list: &[String]) -> Vec<u8> {
    let quoted: Vec<String> = list.iter().map(|s| format!("\"{}\"", s)).collect();
    format!("[{}]", quoted.join(",")).into_bytes()
}

fn saved(list: Vec<String>) -> CacheStore {
    CacheStore { file: Some(CacheFile { age_nanos: 0, content: json(&list) }) }
}

#[test]
fn choose_from_picks_by_the_remainder() {
    assert_eq!(
        choose_from(&list(), 7),
        (ResolveState::Done, ResolveAction::Use("https://b.example".to_string()))
    );
    assert_eq!(
        choose_from(&vec![], 7),
        (ResolveState::Failed, ResolveAction::Fail(ResolveError::NoUsableInstance))
    );
}

#[test]
fn after_load_goes_by_what_was_found() {
    assert_eq!(
        after_load(Ok(Some(list())), 2),
        (ResolveState::Done, ResolveAction::Use("https://c.example".to_string()))
    );
    assert_eq!(
        after_load(Ok(Some(vec![])), 2),
        (ResolveState::Failed, ResolveAction::Fail(ResolveError::NoUsableInstance))
    );
    assert_eq!(after_load(Ok(None), 2), (ResolveState::Fetching, ResolveAction::FetchDirectory));
    assert_eq!(
        after_load(Err(CacheError::Corrupt), 2),
        (ResolveState::Failed, ResolveAction::Fail(ResolveError::CorruptCache))
    );
}

#[test]
fn after_save_goes_by_how_the_save_ended() {
    assert_eq!(
        after_save(usable(), saved(usable()), Ok(())),
        (ResolveState::Saving(usable()), ResolveAction::SaveCache(saved(usable())))
    );
    assert_eq!(
        after_save(usable(), CacheStore::missing(), Err(CacheError::NotEncoded)),
        (ResolveState::Failed, ResolveAction::Fail(ResolveError::CacheNotWritten))
    );
}

#[test]
fn a_run_begins_by_reading_the_cache() {
    assert_eq!(begin(), (ResolveState::Reading, ResolveAction::ReadCache));
}

#[test]
fn a_fresh_cache_is_used_without_a_fetch() {
    let store = CacheStore::found(RETENTION_NANOS, json(&list()));
    assert_eq!(
        step(ResolveState::Reading, ResolveEvent::CacheRead(store.clone()), 0),
        (ResolveState::Done, ResolveAction::Use("https://a.example".to_string()))
    );
    assert_eq!(
        step(ResolveState::Reading, ResolveEvent::CacheRead(store.clone()), 4),
        (ResolveState::Done, ResolveAction::Use("https://b.example".to_string()))
    );
    assert_eq!(
        step(ResolveState::Reading, ResolveEvent::CacheRead(store), 5),
        (ResolveState::Done, ResolveAction::Use("https://c.example".to_string()))
    );
}

#[test]
fn the_same_number_gives_the_same_instance() {
    let store = CacheStore::found(10, json(&list()));
    for random in [0usize, 1, 2, 3, 1000, usize::MAX] {
        let first = step(ResolveState::Reading, ResolveEvent::CacheRead(store.clone()), random);
        let second = step(ResolveState::Reading, ResolveEvent::CacheRead(store.clone()), random);
        assert_eq!(first, second);
        assert_eq!(first.1, ResolveAction::Use(list()[random % 3].clone()));
    }
}

#[test]
fn a_missing_or_old_cache_is_refreshed() {
    assert_eq!(
        step(ResolveState::Reading, ResolveEvent::CacheRead(CacheStore::missing()), 0),
        (ResolveState::Fetching, ResolveAction::FetchDirectory)
    );
    let old = CacheStore::found(RETENTION_NANOS + 1, json(&list()));
    assert_eq!(
        step(ResolveState::Reading, ResolveEvent::CacheRead(old), 0),
        (ResolveState::Fetching, ResolveAction::FetchDirectory)
    );
    let old_and_broken = CacheStore::found(RETENTION_NANOS + 1, b"oops".to_vec());
    assert_eq!(
        step(ResolveState::Reading, ResolveEvent::CacheRead(old_and_broken), 0),
        (ResolveState::Fetching, ResolveAction::FetchDirectory)
    );
}

#[test]
fn a_corrupt_fresh_cache_ends_the_run() {
    let broken = CacheStore::found(1, b"oops".to_vec());
    assert_eq!(
        step(ResolveState::Reading, ResolveEvent::CacheRead(broken), 0),
        (ResolveState::Failed, ResolveAction::Fail(ResolveError::CorruptCache))
    );
}

#[test]
fn an_empty_fresh_cache_ends_the_run() {
    let empty = CacheStore::found(1, b"[]".to_vec());
    assert_eq!(
        step(ResolveState::Reading, ResolveEvent::CacheRead(empty), 3),
        (ResolveState::Failed, ResolveAction::Fail(ResolveError::NoUsableInstance))
    );
}

#[test]
fn a_fetched_directory_is_filtered_and_saved() {
    assert_eq!(
        step(ResolveState::Fetching, ResolveEvent::Directory(directory()), 0),
        (ResolveState::Saving(usable()), ResolveAction::SaveCache(saved(usable())))
    );
    assert_eq!(
        step(ResolveState::Fetching, ResolveEvent::Directory(vec![]), 0),
        (ResolveState::Saving(vec![]), ResolveAction::SaveCache(saved(vec![])))
    );
}

#[test]
fn after_the_save_the_pick_is_made() {
    assert_eq!(
        step(ResolveState::Saving(usable()), ResolveEvent::CacheSaved, 1),
        (ResolveState::Done, ResolveAction::Use("https://fine.example".to_string()))
    );
    assert_eq!(
        step(ResolveState::Saving(usable()), ResolveEvent::CacheSaved, 2),
        (ResolveState::Done, ResolveAction::Use("https://good.example".to_string()))
    );
    assert_eq!(
        step(ResolveState::Saving(vec![]), ResolveEvent::CacheSaved, 2),
        (ResolveState::Failed, ResolveAction::Fail(ResolveError::NoUsableInstance))
    );
}

#[test]
fn failures_of_the_outside_world_end_the_run() {
    assert_eq!(
        step(ResolveState::Fetching, ResolveEvent::DirectoryFailed, 0),
        (ResolveState::Failed, ResolveAction::Fail(ResolveError::DirectoryUnavailable))
    );
    assert_eq!(
        step(ResolveState::Fetching, ResolveEvent::DirectoryUnreadable, 0),
        (ResolveState::Failed, ResolveAction::Fail(ResolveError::DirectoryUnreadable))
    );
    assert_eq!(
        step(ResolveState::Saving(usable()), ResolveEvent::CacheNotSaved, 0),
        (ResolveState::Failed, ResolveAction::Fail(ResolveError::CacheNotWritten))
    );
}

#[test]
fn an_event_out_of_turn_ends_the_run() {
    let out_of_turn = (ResolveState::Failed, ResolveAction::Fail(ResolveError::OutOfTurn));
    assert_eq!(step(ResolveState::Reading, ResolveEvent::CacheSaved, 0), out_of_turn);
    assert_eq!(step(ResolveState::Reading, ResolveEvent::Directory(directory()), 0), out_of_turn);
    assert_eq!(step(ResolveState::Fetching, ResolveEvent::CacheRead(CacheStore::missing()), 0), out_of_turn);
    assert_eq!(step(ResolveState::Saving(usable()), ResolveEvent::DirectoryFailed, 0), out_of_turn);
    assert_eq!(step(ResolveState::Done, ResolveEvent::CacheSaved, 0), out_of_turn);
    assert_eq!(step(ResolveState::Failed, ResolveEvent::CacheRead(CacheStore::missing()), 0), out_of_turn);
}

#[test]
fn a_whole_run_with_a_refresh_picks_a_usable_instance() {
    let (state, action) = begin();
    assert_eq!(action, ResolveAction::ReadCache);
    let (state, action) = advance(state, ResolveEvent::CacheRead(CacheStore::missing()));
    assert_eq!(action, ResolveAction::FetchDirectory);
    let (state, action) = advance(state, ResolveEvent::Directory(directory()));
    assert_eq!(action, ResolveAction::SaveCache(saved(usable())));
    let (state, action) = advance(state, ResolveEvent::CacheSaved);
    assert_eq!(state, ResolveState::Done);
    match action {
        ResolveAction::Use(base) => assert!(usable().contains(&base)),
        other => panic!("no instance was chosen: {:?}", other),
    }
}

#[test]
fn what_was_saved_is_used_by_the_next_run() {
    let (_, action) = step(ResolveState::Fetching, ResolveEvent::Directory(directory()), 0);
    let store = match action {
        ResolveAction::SaveCache(store) => store,
        other => panic!("nothing was saved: {:?}", other),
    };
    let file = store.file.unwrap();
    assert_eq!(file.content, b"[\"https://good.example\",\"https://fine.example\"]".to_vec());
    for age in [0, 1, RETENTION_NANOS] {
        let read = CacheStore::found(age, file.content.clone());
        assert_eq!(
            step(ResolveState::Reading, ResolveEvent::CacheRead(read), 1),
            (ResolveState::Done, ResolveAction::Use("https://fine.example".to_string()))
        );
    }
    let late = CacheStore::found(RETENTION_NANOS + 1, file.content);
    assert_eq!(
        step(ResolveState::Reading, ResolveEvent::CacheRead(late), 1),
        (ResolveState::Fetching, ResolveAction::FetchDirectory)
    );
}

#[test]
fn a_whole_run_on_a_fresh_cache_picks_from_the_cached_list() {
    let (state, _) = begin();
    for _ in 0..20 {
        let store = CacheStore::found(1, json(&list()));
        let (end, action) = advance(state.clone(), ResolveEvent::CacheRead(store));
        assert_eq!(end, ResolveState::Done);
        match action {
            ResolveAction::Use(base) => assert!(list().contains(&base)),
            other => panic!("no instance was chosen: {:?}", other),
        }
    }
}
