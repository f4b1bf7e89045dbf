use watcher::EventType;
use watcher::PlatformKind;
use watcher::WatchError;
use watcher::WatchOptions;
use watcher::pipeline::handle_flush;
use watcher::pipeline::handle_stream_error;
use watcher::subscribe;

fn plain_options() -> WatchOptions {
    WatchOptions { ignore: None }
}

fn subscribe_ok(ignore: Option<Vec<String>>) -> watcher::ActiveWatch {
    subscribe(
        &"/r".to_string(),
        true,
        true,
        Some("/r".to_string()),
        &WatchOptions { ignore },
    )
    .unwrap()
}

#[test]
fn subscribe_rejects_empty_path() {
    let r = subscribe(&String::new(), true, true, None, &plain_options());
    match r {
        Err(WatchError::EmptyPath) => {}
        _ => panic!("expected the empty-path error"),
    }
}

#[test]
fn subscribe_rejects_missing_directory() {
    let r = subscribe(&"/gone".to_string(), false, false, None, &plain_options());
    match r {
        Err(WatchError::NotFound { path }) => assert_eq!(path, "/gone"),
        _ => panic!("expected the not-found error"),
    }
}

#[test]
fn subscribe_rejects_non_directory() {
    let r = subscribe(&"/r/file".to_string(), true, false, None, &plain_options());
    match r {
        Err(WatchError::NotADirectory { path }) => assert_eq!(path, "/r/file"),
        _ => panic!("expected the not-a-directory error"),
    }
}

#[test]
fn subscribe_rejects_uncanonicalizable_root() {
    let r = subscribe(&"/r".to_string(), true, true, None, &plain_options());
    match r {
        Err(WatchError::CanonicalizeFailed { path }) => assert_eq!(path, "/r"),
        _ => panic!("expected the canonicalize error"),
    }
}

#[test]
fn event_type_labels() {
    assert_eq!(EventType::Create.type_label(), "create");
    assert_eq!(EventType::Update.type_label(), "update");
    assert_eq!(EventType::Delete.type_label(), "delete");
}

#[test]
fn subscribe_rejects_invalid_glob_synchronously() {
    let r = subscribe(
        &"/r".to_string(),
        true,
        true,
        Some("/r".to_string()),
        &WatchOptions { ignore: Some(vec!["[".to_string()]) },
    );
    match r {
        Err(WatchError::InvalidPattern { pattern, .. }) => assert_eq!(pattern, "["),
        _ => panic!("expected the invalid-pattern error"),
    }
}

#[test]
fn scenario_create_one_file() {
    let mut w = subscribe_ok(None);
    w.engine.note(&"/r/a.txt".to_string(), PlatformKind::CreateFile, 5);
    let running = w.subscription.is_running_now();
    let submitted = handle_flush(&mut w.engine, &w.filter, w.root.as_str(), running, &mut w.bridge);
    assert!(submitted);
    let delivery = w.bridge.next_delivery().unwrap();
    assert!(delivery.error.is_none());
    assert_eq!(delivery.events.len(), 1);
    assert_eq!(delivery.events[0].path, "/r/a.txt");
    assert_eq!(delivery.events[0].event_type, EventType::Create);
    assert!(w.bridge.next_delivery().is_none());
}

#[test]
fn scenario_create_then_delete_delivers_nothing() {
    let mut w = subscribe_ok(None);
    w.engine.note(&"/r/b.txt".to_string(), PlatformKind::CreateFile, 5);
    w.engine.note(&"/r/b.txt".to_string(), PlatformKind::RemoveFile, 6);
    let submitted = handle_flush(&mut w.engine, &w.filter, "/r", true, &mut w.bridge);
    assert!(!submitted);
    assert!(w.bridge.next_delivery().is_none());
}

#[test]
fn scenario_ignored_then_plain_file() {
    let mut w = subscribe_ok(Some(vec!["*.tmp".to_string()]));
    w.engine.note(&"/r/x.tmp".to_string(), PlatformKind::CreateFile, 5);
    let submitted = handle_flush(&mut w.engine, &w.filter, "/r", true, &mut w.bridge);
    assert!(!submitted);
    w.engine.note(&"/r/x.txt".to_string(), PlatformKind::CreateFile, 200);
    let submitted = handle_flush(&mut w.engine, &w.filter, "/r", true, &mut w.bridge);
    assert!(submitted);
    let delivery = w.bridge.next_delivery().unwrap();
    assert_eq!(delivery.events.len(), 1);
    assert_eq!(delivery.events[0].path, "/r/x.txt");
    assert_eq!(delivery.events[0].event_type, EventType::Create);
}

#[test]
fn scenario_fifty_writes_one_batch() {
    let mut w = subscribe_ok(None);
    for i in 0..50u64 {
        w.engine.note(&"/r/f.txt".to_string(), PlatformKind::ModifyData, 10 + i);
    }
    let submitted = handle_flush(&mut w.engine, &w.filter, "/r", true, &mut w.bridge);
    assert!(submitted);
    let delivery = w.bridge.next_delivery().unwrap();
    assert_eq!(delivery.events.len(), 1);
    assert_eq!(delivery.events[0].event_type, EventType::Update);
    assert!(w.bridge.next_delivery().is_none());
}

#[test]
fn scenario_no_delivery_after_unsubscribe() {
    let mut w = subscribe_ok(None);
    let released = w.subscription.unsubscribe();
    assert!(released);
    w.engine.note(&"/r/late.txt".to_string(), PlatformKind::CreateFile, 5);
    let running = w.subscription.is_running_now();
    let submitted = handle_flush(&mut w.engine, &w.filter, "/r", running, &mut w.bridge);
    assert!(!submitted);
    assert!(w.bridge.next_delivery().is_none());
}

#[test]
fn unsubscribe_is_idempotent() {
    let mut w = subscribe_ok(None);
    assert!(w.subscription.unsubscribe());
    assert!(!w.subscription.unsubscribe());
    assert!(!w.subscription.unsubscribe());
}

#[test]
fn stream_error_reaches_consumer_while_running() {
    let mut w = subscribe_ok(None);
    let submitted = handle_stream_error(true, "watch descriptor exhausted".to_string(), &mut w.bridge);
    assert!(submitted);
    let delivery = w.bridge.next_delivery().unwrap();
    assert_eq!(delivery.error.as_deref(), Some("watch descriptor exhausted"));
    assert_eq!(delivery.events.len(), 0);
}

#[test]
fn stream_error_suppressed_after_unsubscribe() {
    let mut w = subscribe_ok(None);
    w.subscription.unsubscribe();
    let submitted = handle_stream_error(false, "late failure".to_string(), &mut w.bridge);
    assert!(!submitted);
    assert!(w.bridge.next_delivery().is_none());
}

#[test]
fn deliveries_drain_in_submission_order() {
    let mut w = subscribe_ok(None);
    w.engine.note(&"/r/a".to_string(), PlatformKind::CreateFile, 1);
    handle_flush(&mut w.engine, &w.filter, "/r", true, &mut w.bridge);
    w.engine.note(&"/r/b".to_string(), PlatformKind::ModifyData, 200);
    handle_flush(&mut w.engine, &w.filter, "/r", true, &mut w.bridge);
    let first = w.bridge.next_delivery().unwrap();
    let second = w.bridge.next_delivery().unwrap();
    assert_eq!(first.events[0].path, "/r/a");
    assert_eq!(second.events[0].path, "/r/b");
    assert!(w.bridge.next_delivery().is_none());
}

#[test]
fn error_messages_name_the_offence() {
    assert_eq!(WatchError::EmptyPath.message(), "Directory path cannot be empty");
    assert_eq!(
        WatchError::NotFound { path: "/gone".to_string() }.message(),
        "Directory does not exist: /gone"
    );
    assert_eq!(
        WatchError::NotADirectory { path: "/r/f".to_string() }.message(),
        "Path is not a directory: /r/f"
    );
}
