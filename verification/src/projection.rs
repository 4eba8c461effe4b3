//! The read-only projection of queue rows into output columns.
//!
//! The adapter that serves introspection queries reads every stored row and
//! renders each field into a column value. The renderings that carry any
//! rule live here: the status as its variant's name, and the prefix as the
//! empty string when it is absent. The remaining columns hand a field
//! through unchanged.

use vstd::prelude::*;

use crate::index::prefix_or_empty;
use crate::item::{QueueItem, QueueItemStatus};

verus! {

/// The string rendering of a status variant.
pub open spec fn status_text_view(s: QueueItemStatus) -> Seq<char> {
    match s {
        QueueItemStatus::Pending => "Pending"@,
        QueueItemStatus::Active => "Active"@,
        QueueItemStatus::Finished => "Finished"@,
    }
}

/// The definition of the queue projection: which columns it serves and how a
/// row's fields are rendered into them.
pub struct InfoSchemaQueueDef;

impl InfoSchemaQueueDef {
    /// The status column's value: the variant's name.
    pub fn status_text(status: &QueueItemStatus) -> (r: String)
        ensures
            r@ == status_text_view(*status),
    {
        match status {
            QueueItemStatus::Pending => String::from_str("Pending"),
            QueueItemStatus::Active => String::from_str("Active"),
            QueueItemStatus::Finished => String::from_str("Finished"),
        }
    }

    /// The prefix column's value: the item's prefix, or the empty string
    /// when it is absent.
    pub fn prefix_text(item: &QueueItem) -> (r: String)
        ensures
            r@ == prefix_or_empty(item@.prefix),
    {
        match item.get_prefix() {
            Some(p) => p.clone(),
            None => String::new(),
        }
    }
}

} // verus!
