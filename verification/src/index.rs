//! The three secondary indexes over queue items, each reducible to an
//! ordered byte key for the storage engine.
//!
//! ByPath is unique and prevents duplicate enqueue of one logical path;
//! ByStatus groups items by lifecycle stage, its single-byte codes ascending
//! in lifecycle order so a bounded range scan is contiguous; ByPrefix groups
//! items sharing a namespace. The set is closed: adding an index is a
//! deliberate change here, not an open extension point.

use vstd::prelude::*;

use vstd::slice::slice_to_vec;
use vstd::utf8::encode_utf8;

use crate::item::{QueueItem, QueueItemStatus};
use crate::path_codec::path_join;

verus! {

/// The typed key one index extracts from one queue item.
#[derive(Debug, PartialEq, Eq, Hash)]
pub enum QueueItemIndexKey {
    ByPath(String),
    ByStatus(QueueItemStatus),
    ByPrefix(String),
}

/// The closed set of secondary indexes over queue items.
#[derive(Clone, Copy, Debug, PartialEq, Eq, Structural)]
pub enum QueueItemIndex {
    ByPath,
    ByStatus,
    ByPrefix,
}

/// The single-byte code of a status, ascending in lifecycle order.
pub open spec fn status_code(s: QueueItemStatus) -> u8 {
    match s {
        QueueItemStatus::Pending => 0,
        QueueItemStatus::Active => 1,
        QueueItemStatus::Finished => 2,
    }
}

/// The prefix a ByPrefix key carries: the item's prefix, or the empty string
/// when it is absent.
pub open spec fn prefix_or_empty(prefix: Option<Seq<char>>) -> Seq<char> {
    match prefix {
        Some(p) => p,
        None => Seq::empty(),
    }
}

/// The byte encoding of a typed key: raw UTF-8 for the two string keys, the
/// single status code for ByStatus.
pub open spec fn key_bytes(key: QueueItemIndexKey) -> Seq<u8> {
    match key {
        QueueItemIndexKey::ByPath(s) => encode_utf8(s@),
        QueueItemIndexKey::ByStatus(st) => seq![status_code(st)],
        QueueItemIndexKey::ByPrefix(s) => encode_utf8(s@),
    }
}

impl QueueItemIndex {
    /// The typed key this index extracts from `row`: its reconstructed path,
    /// its status, or its prefix (empty when absent).
    pub fn typed_key_by(&self, row: &QueueItem) -> (r: QueueItemIndexKey)
        ensures
            match self {
                QueueItemIndex::ByPath => r matches QueueItemIndexKey::ByPath(s) && s@
                    == path_join(row@.prefix, row@.key),
                QueueItemIndex::ByStatus => r == QueueItemIndexKey::ByStatus(row@.status),
                QueueItemIndex::ByPrefix => r matches QueueItemIndexKey::ByPrefix(s) && s@
                    == prefix_or_empty(row@.prefix),
            },
    {
        match self {
            QueueItemIndex::ByPath => QueueItemIndexKey::ByPath(row.get_path()),
            QueueItemIndex::ByStatus => QueueItemIndexKey::ByStatus(*row.get_status()),
            QueueItemIndex::ByPrefix => QueueItemIndexKey::ByPrefix(
                match row.get_prefix() {
                    Some(p) => p.clone(),
                    None => String::new(),
                },
            ),
        }
    }

    /// The ordered byte encoding of a typed key.
    pub fn key_to_bytes(&self, key: &QueueItemIndexKey) -> (r: Vec<u8>)
        ensures
            r@ == key_bytes(*key),
    {
        match key {
            QueueItemIndexKey::ByPath(s) => slice_to_vec(s.as_str().as_bytes()),
            QueueItemIndexKey::ByPrefix(s) => slice_to_vec(s.as_str().as_bytes()),
            QueueItemIndexKey::ByStatus(st) => {
                let mut r: Vec<u8> = Vec::new();
                match st {
                    QueueItemStatus::Pending => r.push(0u8),
                    QueueItemStatus::Active => r.push(1u8),
                    QueueItemStatus::Finished => r.push(2u8),
                }
                proof {
                    assert(r@ =~= seq![status_code(*st)]);
                }
                r
            },
        }
    }

    /// Whether the index rejects a second item with an equal key.
    pub fn is_unique(&self) -> (r: bool)
        ensures
            r == (*self is ByPath),
    {
        match self {
            QueueItemIndex::ByPath => true,
            QueueItemIndex::ByStatus => false,
            QueueItemIndex::ByPrefix => false,
        }
    }

    /// The schema-evolution tag of the index's encoding.
    pub fn version(&self) -> (r: u32)
        ensures
            r == 1u32,
    {
        match self {
            QueueItemIndex::ByPath => 1,
            QueueItemIndex::ByStatus => 1,
            QueueItemIndex::ByPrefix => 1,
        }
    }

    /// Whether the index carries an expiry semantic: none here does.
    pub fn is_ttl(&self) -> (r: bool)
        ensures
            r == false,
    {
        false
    }

    /// The stable numeric identity the storage engine persists.
    pub fn get_id(&self) -> (r: u32)
        ensures
            match self {
                QueueItemIndex::ByPath => r == 1u32,
                QueueItemIndex::ByStatus => r == 2u32,
                QueueItemIndex::ByPrefix => r == 3u32,
            },
    {
        match self {
            QueueItemIndex::ByPath => 1,
            QueueItemIndex::ByStatus => 2,
            QueueItemIndex::ByPrefix => 3,
        }
    }
}

/// The byte encoding of the two string-keyed indexes is injective: equal
/// byte keys can only come from equal paths or prefixes, which is what lets
/// the storage engine enforce ByPath uniqueness on the bytes alone.
pub proof fn lemma_string_encoding_injective(a: Seq<char>, b: Seq<char>)
    ensures
        encode_utf8(a) == encode_utf8(b) ==> a == b,
{
    vstd::utf8::encode_utf8_decode_utf8(a);
    vstd::utf8::encode_utf8_decode_utf8(b);
}

/// The ByStatus byte encoding is injective, and ordered in lifecycle order:
/// Pending before Active before Finished, as unsigned byte values.
pub proof fn lemma_status_encoding_injective_ordered(a: QueueItemStatus, b: QueueItemStatus)
    ensures
        a != b ==> status_code(a) != status_code(b),
        key_bytes(QueueItemIndexKey::ByStatus(a)) == key_bytes(QueueItemIndexKey::ByStatus(b))
            ==> a == b,
        status_code(QueueItemStatus::Pending) < status_code(QueueItemStatus::Active)
            < status_code(QueueItemStatus::Finished),
{
    if key_bytes(QueueItemIndexKey::ByStatus(a)) == key_bytes(QueueItemIndexKey::ByStatus(b)) {
        assert(seq![status_code(a)][0] == seq![status_code(b)][0]);
    }
}

} // verus!
