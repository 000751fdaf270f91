use aw_watcher_zed::event::DocumentEvent;
use aw_watcher_zed::languages::LanguageResolverCache;
use aw_watcher_zed::payload::HeartbeatPayload;
use aw_watcher_zed::project::ProjectContext;
use aw_watcher_zed::time::Timestamp;
use aw_watcher_zed::watcher::Watcher;
use aw_watcher_zed::watcher::PULSETIME_SECS;
use serde_json::Value;

fn at(secs: i64) -> Timestamp {
    Timestamp::new(secs, 0)
}

#[test]
fn language_of_an_opened_document_is_used_for_its_later_save() {
    let mut watcher = Watcher::new("bucket".to_string(), ProjectContext::absent(), false, at(0));
    assert!(watcher.on_open("a".to_string(), "rust".to_string(), at(10)).is_none());
    assert_eq!(watcher.language_of("a").as_deref(), Some("rust"));

    let saved = watcher.on_save("a".to_string(), at(20)).expect("reported");
    assert_eq!(saved.payload.language.as_deref(), Some("rust"));
    assert_eq!(saved.payload.data().get("language"), Some(&Value::String("rust".to_string())));

    let unopened = watcher.on_save("c".to_string(), at(21)).expect("reported");
    assert_eq!(unopened.payload.language, None);
    assert!(!unopened.payload.data().contains_key("language"));
    assert_eq!(watcher.language_of("c"), None);
}

#[test]
fn language_is_noted_whether_or_not_opens_are_reported() {
    for reports_opens in [false, true] {
        let mut watcher =
            Watcher::new("bucket".to_string(), ProjectContext::absent(), reports_opens, at(0));
        let call = watcher.on_open("a".to_string(), "rust".to_string(), at(10));
        assert_eq!(call.is_some(), reports_opens);
        assert_eq!(watcher.language_of("a").as_deref(), Some("rust"));
        // The open itself moved nothing on.
        assert_eq!(watcher.activity().last_uri(), "");
    }
}

#[test]
fn reopening_a_document_replaces_its_language() {
    let mut watcher = Watcher::new("bucket".to_string(), ProjectContext::absent(), false, at(0));
    watcher.on_open("a".to_string(), "rust".to_string(), at(1));
    watcher.on_open("b".to_string(), "toml".to_string(), at(2));
    watcher.on_open("a".to_string(), "markdown".to_string(), at(3));
    assert_eq!(watcher.language_of("a").as_deref(), Some("markdown"));
    assert_eq!(watcher.language_of("b").as_deref(), Some("toml"));
}

#[test]
fn language_of_the_event_wins_over_the_remembered_one() {
    let mut cache = LanguageResolverCache::new();
    cache.remember("a".to_string(), "rust".to_string());
    let open = DocumentEvent::open("a".to_string(), "python".to_string());
    let save = DocumentEvent::save("a".to_string());
    let unknown = DocumentEvent::change("z".to_string());
    assert_eq!(cache.resolve(&open).as_deref(), Some("python"));
    assert_eq!(cache.resolve(&save).as_deref(), Some("rust"));
    assert_eq!(cache.resolve(&unknown), None);
    assert_eq!(cache.lookup("a").as_deref(), Some("rust"));
    assert_eq!(cache.lookup("z"), None);
}

#[test]
fn new_cache_knows_nothing() {
    let cache = LanguageResolverCache::new();
    assert_eq!(cache.lookup("a"), None);
    assert_eq!(cache.lookup(""), None);
}

#[test]
fn payload_with_everything_known() {
    let mut cache = LanguageResolverCache::new();
    cache.remember("file:///src/main.rs".to_string(), "rust".to_string());
    let project = ProjectContext::at("/home/me/project".to_string());
    let event = DocumentEvent::save("file:///src/main.rs".to_string());
    let now = Timestamp::new(1_700_000_000, 123);
    let payload = HeartbeatPayload::enrich(&event, &cache, &project, now);

    assert_eq!(payload.timestamp, now);
    assert_eq!(payload.duration_nanos, 0);
    assert_eq!(payload.file, "file:///src/main.rs");
    assert_eq!(payload.project.as_deref(), Some("/home/me/project"));
    assert_eq!(payload.language.as_deref(), Some("rust"));

    let data = payload.data();
    assert_eq!(data.len(), 3);
    assert_eq!(data.get("file"), Some(&Value::String("file:///src/main.rs".to_string())));
    assert_eq!(data.get("project"), Some(&Value::String("/home/me/project".to_string())));
    assert_eq!(data.get("language"), Some(&Value::String("rust".to_string())));
}

#[test]
fn payload_with_nothing_known_names_only_the_file() {
    let cache = LanguageResolverCache::new();
    let event = DocumentEvent::change("a".to_string());
    let payload = HeartbeatPayload::enrich(&event, &cache, &ProjectContext::absent(), at(5));

    assert_eq!(payload.project, None);
    assert_eq!(payload.language, None);
    let data = payload.data();
    assert_eq!(data.len(), 1);
    assert_eq!(data.get("file"), Some(&Value::String("a".to_string())));
    assert!(!data.contains_key("project"));
    assert!(!data.contains_key("language"));
}

#[test]
fn payload_data_follows_the_fields() {
    let payload = HeartbeatPayload {
        timestamp: at(1),
        duration_nanos: 0,
        file: "f".to_string(),
        project: Some("p".to_string()),
        language: None,
    };
    let data = payload.data();
    let keys: Vec<&str> = data.keys().map(|key| key.as_str()).collect();
    assert_eq!(keys.len(), 2);
    assert!(keys.contains(&"file"));
    assert!(keys.contains(&"project"));
    assert_eq!(data["file"], Value::String("f".to_string()));
    assert_eq!(data["project"], Value::String("p".to_string()));
}

#[test]
fn call_carries_bucket_payload_and_pulsetime() {
    let project = ProjectContext::at("/work".to_string());
    let mut watcher = Watcher::new("aw-watcher-zed-bucket_host".to_string(), project, false, at(0));
    watcher.on_open("a".to_string(), "go".to_string(), at(1));
    let call = watcher.on_change("a".to_string(), at(2)).expect("reported");
    assert_eq!(call.bucket_id, "aw-watcher-zed-bucket_host");
    assert_eq!(call.pulsetime_secs, PULSETIME_SECS);
    assert_eq!(call.pulsetime_secs, 60);
    assert_eq!(call.payload.timestamp, at(2));
    assert_eq!(call.payload.duration_nanos, 0);
    assert_eq!(call.payload.file, "a");
    assert!(!call.payload.file.is_empty());
    assert_eq!(call.payload.project.as_deref(), Some("/work"));
    assert_eq!(call.payload.language.as_deref(), Some("go"));
    assert_eq!(watcher.bucket_id(), "aw-watcher-zed-bucket_host");
    assert_eq!(watcher.project().folder().map(|folder| folder.as_str()), Some("/work"));
}

#[test]
fn session_keeps_its_project_and_bucket() {
    let project = ProjectContext::at("/work".to_string());
    let mut watcher = Watcher::new("bucket".to_string(), project, false, at(0));
    watcher.on_open("a".to_string(), "go".to_string(), at(1));
    let call = watcher.on_save("a".to_string(), at(2)).expect("reported");
    watcher.settle(&call, &Err("down".to_string()));
    assert_eq!(watcher.bucket_id(), "bucket");
    assert_eq!(watcher.project().folder().map(|folder| folder.as_str()), Some("/work"));
    assert_eq!(watcher.language_of("a").as_deref(), Some("go"));
    assert!(!watcher.reports_opens());
}

#[test]
fn event_constructors_set_kind_and_language() {
    let open = DocumentEvent::open("a".to_string(), "rust".to_string());
    assert_eq!(open.uri, "a");
    assert!(!open.is_write);
    assert_eq!(open.language.as_deref(), Some("rust"));

    let change = DocumentEvent::change("b".to_string());
    assert_eq!(change.uri, "b");
    assert!(!change.is_write);
    assert_eq!(change.language, None);

    let save = DocumentEvent::save("c".to_string());
    assert_eq!(save.uri, "c");
    assert!(save.is_write);
    assert_eq!(save.language, None);
}

#[test]
fn project_is_the_first_workspace_folder() {
    let none: Vec<String> = Vec::new();
    assert_eq!(ProjectContext::from_folders(&none).folder(), None);
    let one = vec!["/one".to_string()];
    assert_eq!(ProjectContext::from_folders(&one).folder().map(|f| f.as_str()), Some("/one"));
    let two = vec!["/one".to_string(), "/two".to_string()];
    assert_eq!(ProjectContext::from_folders(&two).folder().map(|f| f.as_str()), Some("/one"));
}

#[test]
fn failed_folder_query_leaves_the_project_unknown() {
    let failed: Result<Vec<String>, String> = Err("timeout".to_string());
    assert_eq!(ProjectContext::from_reply(&failed).folder(), None);
    let answered: Result<Vec<String>, String> = Ok(vec!["/a".to_string(), "/b".to_string()]);
    assert_eq!(ProjectContext::from_reply(&answered).folder().map(|f| f.as_str()), Some("/a"));
    let empty: Result<Vec<String>, String> = Ok(Vec::new());
    assert_eq!(ProjectContext::from_reply(&empty).folder(), None);
    assert_eq!(ProjectContext::absent().folder(), None);
}

#[test]
fn payload_of_a_session_with_a_failed_folder_query_has_no_project() {
    let failed: Result<Vec<String>, String> = Err("timeout".to_string());
    let watcher =
        Watcher::new("bucket".to_string(), ProjectContext::from_reply(&failed), false, at(0));
    let call = watcher.on_change("a".to_string(), at(1)).expect("reported");
    assert_eq!(call.payload.project, None);
    assert!(!call.payload.data().contains_key("project"));
    assert!(call.payload.data().contains_key("file"));
}
