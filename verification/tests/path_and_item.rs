use queue_store::item::{QueueItem, QueueItemStatus};

#[test]
fn no_separator_path_splits_to_key_only() {
    let item = QueueItem::new_at("solo".to_string(), "v".to_string(), QueueItemStatus::Pending, 0, 7);
    assert_eq!(item.get_prefix(), &None);
    assert_eq!(item.get_key(), "solo");
    assert_eq!(item.get_path(), "solo");
}

#[test]
fn empty_path_splits_to_empty_key() {
    let item = QueueItem::new_at("".to_string(), "v".to_string(), QueueItemStatus::Pending, 0, 7);
    assert_eq!(item.get_prefix(), &None);
    assert_eq!(item.get_key(), "");
    assert_eq!(item.get_path(), "");
}

#[test]
fn single_separator_splits_and_round_trips() {
    let item = QueueItem::new_at("p:k".to_string(), "v".to_string(), QueueItemStatus::Pending, 0, 7);
    assert_eq!(item.get_prefix(), &Some("p".to_string()));
    assert_eq!(item.get_key(), "k");
    assert_eq!(item.get_path(), "p:k");
}

#[test]
fn multiple_separators_split_on_the_last() {
    let item = QueueItem::new_at("a:b:c".to_string(), "v".to_string(), QueueItemStatus::Pending, 0, 7);
    assert_eq!(item.get_prefix(), &Some("a:b".to_string()));
    assert_eq!(item.get_key(), "c");
    assert_eq!(item.get_path(), "a:b:c");
}

#[test]
fn separator_edge_cases_round_trip() {
    let only_sep = QueueItem::new_at(":".to_string(), "v".to_string(), QueueItemStatus::Pending, 0, 0);
    assert_eq!(only_sep.get_prefix(), &Some("".to_string()));
    assert_eq!(only_sep.get_key(), "");
    assert_eq!(only_sep.get_path(), ":");

    let trailing = QueueItem::new_at("a:".to_string(), "v".to_string(), QueueItemStatus::Pending, 0, 0);
    assert_eq!(trailing.get_prefix(), &Some("a".to_string()));
    assert_eq!(trailing.get_key(), "");
    assert_eq!(trailing.get_path(), "a:");

    let leading = QueueItem::new_at(":k".to_string(), "v".to_string(), QueueItemStatus::Pending, 0, 0);
    assert_eq!(leading.get_prefix(), &Some("".to_string()));
    assert_eq!(leading.get_key(), "k");
    assert_eq!(leading.get_path(), ":k");
}

#[test]
fn construction_fills_the_fields() {
    let item = QueueItem::new_at(
        "ns:job1".to_string(),
        "payload".to_string(),
        QueueItemStatus::Active,
        42,
        1234,
    );
    assert_eq!(item.get_value(), "payload");
    assert_eq!(item.get_status(), &QueueItemStatus::Active);
    assert_eq!(item.get_priority(), 42);
    assert_eq!(item.get_created(), 1234);
    assert_eq!(item.get_extra(), &None);
    assert_eq!(item.get_heartbeat(), &None);
}

#[test]
fn new_uses_the_wall_clock() {
    let item = QueueItem::new("a:b".to_string(), "v".to_string(), QueueItemStatus::Pending, 1);
    assert_eq!(item.get_key(), "b");
    assert_eq!(item.get_prefix(), &Some("a".to_string()));
    assert!(item.get_created() > 0);
}

#[test]
fn status_default_is_pending() {
    assert_eq!(QueueItem::status_default(), QueueItemStatus::Pending);
}

#[test]
fn heartbeat_updates_advance_and_change_nothing_else() {
    let base = QueueItem::new_at("ns:j".to_string(), "v".to_string(), QueueItemStatus::Active, 0, 100);
    let first = base.update_heartbeat_at(150);
    let second = first.update_heartbeat_at(260);
    assert_eq!(base.get_heartbeat(), &None);
    assert_eq!(first.get_heartbeat(), &Some(150));
    assert_eq!(second.get_heartbeat(), &Some(260));
    assert!(first.get_heartbeat().unwrap() >= base.get_created());
    assert!(second.get_heartbeat().unwrap() > first.get_heartbeat().unwrap());
    assert_eq!(second.get_created(), 100);
    assert_eq!(second.get_key(), "j");
    assert_eq!(second.get_value(), "v");
    assert_eq!(second.get_status(), &QueueItemStatus::Active);
}

#[test]
fn heartbeat_from_the_wall_clock_is_set() {
    let base = QueueItem::new("j".to_string(), "v".to_string(), QueueItemStatus::Active, 0);
    let refreshed = base.update_heartbeat();
    assert!(refreshed.get_heartbeat().is_some());
    assert_eq!(base.get_heartbeat(), &None);
}
