use queue_store::index::{QueueItemIndex, QueueItemIndexKey};
use queue_store::item::{QueueError, QueueItem, QueueItemStatus};
use queue_store::projection::InfoSchemaQueueDef;
use queue_store::store::QueueStore;

fn sample(path: &str, status: QueueItemStatus) -> QueueItem {
    QueueItem::new_at(path.to_string(), "v".to_string(), status, 0, 9)
}

#[test]
fn typed_keys_extract_path_status_and_prefix() {
    let row = sample("ns:job1", QueueItemStatus::Active);
    assert_eq!(
        QueueItemIndex::ByPath.typed_key_by(&row),
        QueueItemIndexKey::ByPath("ns:job1".to_string())
    );
    assert_eq!(
        QueueItemIndex::ByStatus.typed_key_by(&row),
        QueueItemIndexKey::ByStatus(QueueItemStatus::Active)
    );
    assert_eq!(
        QueueItemIndex::ByPrefix.typed_key_by(&row),
        QueueItemIndexKey::ByPrefix("ns".to_string())
    );
}

#[test]
fn prefixless_row_indexes_under_the_empty_prefix() {
    let row = sample("solo", QueueItemStatus::Pending);
    assert_eq!(
        QueueItemIndex::ByPrefix.typed_key_by(&row),
        QueueItemIndexKey::ByPrefix("".to_string())
    );
}

#[test]
fn string_keys_encode_as_raw_utf8() {
    let bytes = QueueItemIndex::ByPath
        .key_to_bytes(&QueueItemIndexKey::ByPath("ns:job1".to_string()));
    assert_eq!(bytes, b"ns:job1".to_vec());
    let bytes = QueueItemIndex::ByPrefix
        .key_to_bytes(&QueueItemIndexKey::ByPrefix("caf\u{e9}".to_string()));
    assert_eq!(bytes, "caf\u{e9}".as_bytes().to_vec());
}

#[test]
fn status_encoding_is_injective_and_ordered() {
    let idx = QueueItemIndex::ByStatus;
    let p = idx.key_to_bytes(&QueueItemIndexKey::ByStatus(QueueItemStatus::Pending));
    let a = idx.key_to_bytes(&QueueItemIndexKey::ByStatus(QueueItemStatus::Active));
    let f = idx.key_to_bytes(&QueueItemIndexKey::ByStatus(QueueItemStatus::Finished));
    assert_eq!(p, vec![0u8]);
    assert_eq!(a, vec![1u8]);
    assert_eq!(f, vec![2u8]);
    assert!(p < a && a < f);
    assert!(p != a && a != f && p != f);
}

#[test]
fn index_flags_and_identities() {
    assert!(QueueItemIndex::ByPath.is_unique());
    assert!(!QueueItemIndex::ByStatus.is_unique());
    assert!(!QueueItemIndex::ByPrefix.is_unique());
    assert_eq!(QueueItemIndex::ByPath.get_id(), 1);
    assert_eq!(QueueItemIndex::ByStatus.get_id(), 2);
    assert_eq!(QueueItemIndex::ByPrefix.get_id(), 3);
    for idx in [QueueItemIndex::ByPath, QueueItemIndex::ByStatus, QueueItemIndex::ByPrefix] {
        assert_eq!(idx.version(), 1);
        assert!(!idx.is_ttl());
    }
}

#[test]
fn duplicate_paths_are_rejected_by_the_unique_index() {
    let mut store = QueueStore::new();
    let first = store.put(sample("ns:job1", QueueItemStatus::Pending));
    assert_eq!(first, Ok(0));
    let second = store.put(sample("other", QueueItemStatus::Pending));
    assert_eq!(second, Ok(1));
    let dup = store.put(sample("ns:job1", QueueItemStatus::Active));
    assert!(matches!(dup, Err(QueueError::UniqueViolation(p)) if p == "ns:job1"));
    assert_eq!(store.get_all().len(), 2);
}

#[test]
fn scan_by_status_returns_matching_rows_in_order() {
    let mut store = QueueStore::new();
    store.put(sample("a", QueueItemStatus::Pending)).unwrap();
    store.put(sample("b", QueueItemStatus::Active)).unwrap();
    store.put(sample("c", QueueItemStatus::Pending)).unwrap();
    let pending = store.scan_by_status(QueueItemStatus::Pending);
    let keys: Vec<&str> = pending.iter().map(|(_, r)| r.get_key().as_str()).collect();
    assert_eq!(keys, vec!["a", "c"]);
    assert_eq!(pending[0].0, 0);
    assert_eq!(pending[1].0, 2);
    assert!(store.scan_by_status(QueueItemStatus::Finished).is_empty());
}

#[test]
fn projection_renders_status_and_prefix() {
    assert_eq!(InfoSchemaQueueDef::status_text(&QueueItemStatus::Pending), "Pending");
    assert_eq!(InfoSchemaQueueDef::status_text(&QueueItemStatus::Active), "Active");
    assert_eq!(InfoSchemaQueueDef::status_text(&QueueItemStatus::Finished), "Finished");
    assert_eq!(
        InfoSchemaQueueDef::prefix_text(&sample("ns:job1", QueueItemStatus::Pending)),
        "ns"
    );
    assert_eq!(
        InfoSchemaQueueDef::prefix_text(&sample("solo", QueueItemStatus::Pending)),
        ""
    );
}
