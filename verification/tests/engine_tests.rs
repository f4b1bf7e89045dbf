use watcher::Engine;
use watcher::EventType;
use watcher::PlatformKind;
use watcher::build_glob_set;
use watcher::engine::DEBOUNCE_WINDOW_MS;
use watcher::engine::MAX_LATENCY_MS;

fn no_filter() -> watcher::IgnoreFilter {
    build_glob_set(&Vec::new()).unwrap()
}

#[test]
fn single_create_flushes_one_event() {
    let mut engine = Engine::new();
    let filter = no_filter();
    engine.note(&"/r/a.txt".to_string(), PlatformKind::CreateFile, 10);
    assert!(!engine.due(10));
    assert!(engine.due(10 + DEBOUNCE_WINDOW_MS));
    let batch = engine.take_batch(&filter, "/r");
    assert_eq!(batch.len(), 1);
    assert_eq!(batch[0].path, "/r/a.txt");
    assert_eq!(batch[0].event_type, EventType::Create);
}

#[test]
fn identical_notifications_coalesce_to_one() {
    let mut engine = Engine::new();
    let filter = no_filter();
    for i in 0..5u64 {
        engine.note(&"/r/a.txt".to_string(), PlatformKind::CreateFile, 10 + i);
    }
    let batch = engine.take_batch(&filter, "/r");
    assert_eq!(batch.len(), 1);
    assert_eq!(batch[0].event_type, EventType::Create);
}

#[test]
fn create_then_update_stays_create() {
    let mut engine = Engine::new();
    let filter = no_filter();
    engine.note(&"/r/a".to_string(), PlatformKind::CreateFile, 1);
    engine.note(&"/r/a".to_string(), PlatformKind::ModifyData, 2);
    let batch = engine.take_batch(&filter, "/r");
    assert_eq!(batch.len(), 1);
    assert_eq!(batch[0].event_type, EventType::Create);
}

#[test]
fn create_then_delete_cancels() {
    let mut engine = Engine::new();
    let filter = no_filter();
    engine.note(&"/r/b.txt".to_string(), PlatformKind::CreateFile, 1);
    engine.note(&"/r/b.txt".to_string(), PlatformKind::RemoveFile, 2);
    let batch = engine.take_batch(&filter, "/r");
    assert_eq!(batch.len(), 0);
}

#[test]
fn update_then_delete_collapses_to_delete() {
    let mut engine = Engine::new();
    let filter = no_filter();
    engine.note(&"/r/a".to_string(), PlatformKind::ModifyData, 1);
    engine.note(&"/r/a".to_string(), PlatformKind::RemoveFile, 2);
    let batch = engine.take_batch(&filter, "/r");
    assert_eq!(batch.len(), 1);
    assert_eq!(batch[0].event_type, EventType::Delete);
}

#[test]
fn delete_then_create_collapses_to_create() {
    let mut engine = Engine::new();
    let filter = no_filter();
    engine.note(&"/r/a".to_string(), PlatformKind::RemoveFile, 1);
    engine.note(&"/r/a".to_string(), PlatformKind::CreateFile, 2);
    let batch = engine.take_batch(&filter, "/r");
    assert_eq!(batch.len(), 1);
    assert_eq!(batch[0].event_type, EventType::Create);
}

#[test]
fn unclassified_notification_never_enters_pending() {
    let mut engine = Engine::new();
    let filter = no_filter();
    engine.note(&"/r/a".to_string(), PlatformKind::Access, 1);
    engine.note(&"/r/b".to_string(), PlatformKind::CreateFile, 2);
    engine.note(&"/r/b".to_string(), PlatformKind::Access, 3);
    let batch = engine.take_batch(&filter, "/r");
    assert_eq!(batch.len(), 1);
    assert_eq!(batch[0].path, "/r/b");
    assert_eq!(batch[0].event_type, EventType::Create);
}

#[test]
fn many_writes_one_update() {
    let mut engine = Engine::new();
    let filter = no_filter();
    for i in 0..50u64 {
        engine.note(&"/r/f.txt".to_string(), PlatformKind::ModifyData, 10 + i);
    }
    assert!(engine.due(59 + DEBOUNCE_WINDOW_MS));
    let batch = engine.take_batch(&filter, "/r");
    assert_eq!(batch.len(), 1);
    assert_eq!(batch[0].path, "/r/f.txt");
    assert_eq!(batch[0].event_type, EventType::Update);
}

#[test]
fn window_resets_on_activity() {
    let mut engine = Engine::new();
    engine.note(&"/r/a".to_string(), PlatformKind::CreateFile, 0);
    engine.note(&"/r/a".to_string(), PlatformKind::ModifyData, 90);
    assert!(!engine.due(100));
    assert!(engine.due(90 + DEBOUNCE_WINDOW_MS));
}

#[test]
fn latency_ceiling_bounds_continuous_activity() {
    let mut engine = Engine::new();
    let mut t: u64 = 0;
    while t <= MAX_LATENCY_MS {
        engine.note(&"/r/a".to_string(), PlatformKind::ModifyData, t);
        t += 50;
    }
    assert!(engine.due(MAX_LATENCY_MS));
}

#[test]
fn distinct_paths_each_get_an_event() {
    let mut engine = Engine::new();
    let filter = no_filter();
    engine.note(&"/r/a".to_string(), PlatformKind::CreateFile, 1);
    engine.note(&"/r/b".to_string(), PlatformKind::RemoveFile, 2);
    let batch = engine.take_batch(&filter, "/r");
    assert_eq!(batch.len(), 2);
    let mut saw_a = false;
    let mut saw_b = false;
    for ev in &batch {
        if ev.path == "/r/a" {
            assert_eq!(ev.event_type, EventType::Create);
            saw_a = true;
        }
        if ev.path == "/r/b" {
            assert_eq!(ev.event_type, EventType::Delete);
            saw_b = true;
        }
    }
    assert!(saw_a && saw_b);
}

#[test]
fn flush_clears_pending() {
    let mut engine = Engine::new();
    let filter = no_filter();
    engine.note(&"/r/a".to_string(), PlatformKind::CreateFile, 1);
    let first = engine.take_batch(&filter, "/r");
    assert_eq!(first.len(), 1);
    let second = engine.take_batch(&filter, "/r");
    assert_eq!(second.len(), 0);
}

#[test]
fn ignored_paths_filtered_at_flush() {
    let mut engine = Engine::new();
    let filter = build_glob_set(&vec!["*.tmp".to_string()]).unwrap();
    engine.note(&"/r/x.tmp".to_string(), PlatformKind::CreateFile, 1);
    engine.note(&"/r/x.txt".to_string(), PlatformKind::CreateFile, 2);
    let batch = engine.take_batch(&filter, "/r");
    assert_eq!(batch.len(), 1);
    assert_eq!(batch[0].path, "/r/x.txt");
}

#[test]
fn ignored_path_excluded_whatever_its_kind() {
    let filter = build_glob_set(&vec!["*.tmp".to_string()]).unwrap();
    for kind in [PlatformKind::CreateFile, PlatformKind::ModifyData, PlatformKind::RemoveFile] {
        let mut engine = Engine::new();
        engine.note(&"/r/x.tmp".to_string(), kind, 1);
        let batch = engine.take_batch(&filter, "/r");
        assert_eq!(batch.len(), 0);
    }
}
