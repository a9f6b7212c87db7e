use cloudreve_desktop::fs_events::{
    group_fs_events, normalize_event_kind, CreateKind, EventKind, FsEvent, ModifyKind, RemoveKind,
    RenameMode,
};

fn ev(kind: EventKind, paths: Vec<&str>) -> FsEvent {
    FsEvent { kind, paths: paths.into_iter().map(|p| p.to_string()).collect() }
}

#[test]
fn normalize_remove_variants_into_one_bucket() {
    let grouped = group_fs_events(vec![
        ev(EventKind::Remove(RemoveKind::File), vec!["/sync/a.txt"]),
        ev(EventKind::Remove(RemoveKind::Folder), vec!["/sync/b"]),
    ]);
    let key = EventKind::Remove(RemoveKind::Any);
    assert_eq!(grouped.len(), 1);
    assert_eq!(grouped.get(&key).unwrap().len(), 2);
}

#[test]
fn rename_both_keeps_distinct_modify_name_kind() {
    let grouped = group_fs_events(vec![ev(
        EventKind::Modify(ModifyKind::Name(RenameMode::Both)),
        vec!["/sync/old", "/sync/new"],
    )]);
    let key = EventKind::Modify(ModifyKind::Name(RenameMode::Both));
    assert_eq!(grouped.len(), 1);
    assert_eq!(grouped.get(&key).unwrap().len(), 1);
}

#[test]
fn modify_non_rename_collapses_to_modify_any() {
    let grouped = group_fs_events(vec![ev(
        EventKind::Modify(ModifyKind::Data),
        vec!["/sync/f.bin"],
    )]);
    let key = EventKind::Modify(ModifyKind::Any);
    assert_eq!(grouped.len(), 1);
    assert_eq!(grouped.get(&key).unwrap().len(), 1);
}

#[test]
fn create_events_share_create_any_bucket() {
    let grouped = group_fs_events(vec![
        ev(EventKind::Create(CreateKind::File), vec!["/sync/n.txt"]),
        ev(EventKind::Create(CreateKind::Folder), vec!["/sync/sub"]),
    ]);
    let key = EventKind::Create(CreateKind::Any);
    assert_eq!(grouped.get(&key).unwrap().len(), 2);
}

#[test]
fn normalizing_is_idempotent_and_keeps_order_within_bucket() {
    let k = normalize_event_kind(&EventKind::Modify(ModifyKind::Name(RenameMode::From)));
    assert_eq!(k, EventKind::Modify(ModifyKind::Any));
    assert_eq!(normalize_event_kind(&k), k);
    let grouped = group_fs_events(vec![
        ev(EventKind::Create(CreateKind::File), vec!["/1"]),
        ev(EventKind::Remove(RemoveKind::File), vec!["/2"]),
        ev(EventKind::Create(CreateKind::Other), vec!["/3"]),
    ]);
    assert_eq!(grouped.len(), 2);
    let creates = grouped.get(&EventKind::Create(CreateKind::Any)).unwrap();
    assert_eq!(creates[0].paths, vec!["/1".to_string()]);
    assert_eq!(creates[1].paths, vec!["/3".to_string()]);
    assert!(grouped.get(&EventKind::Other).is_none());
}
