//! The queue item: a durable, immutable record of one unit of deferred work.
//!
//! Every "update" (heartbeat refresh, extra-field merge) yields a new value;
//! nothing mutates a constructed item in place. Timestamps are carried as
//! nanoseconds since the epoch.

use vstd::prelude::*;

use crate::json::{
    json_parsed, json_text, json_wf, merge, merge_view, parse_json, to_text, JsonView,
};
use crate::path_codec::{
    lemma_path_round_trip, path_join, path_key, path_prefix, split_path,
};

verus! {

/// Lifecycle stage of a queue item, in ascending lifecycle order.
#[derive(Clone, Copy, Debug, PartialEq, Eq, Hash, Structural)]
pub enum QueueItemStatus {
    Pending,
    Active,
    Finished,
}

/// An error this library surfaces to its callers.
#[derive(Debug, PartialEq, Eq)]
pub enum QueueError {
    /// A string that had to be JSON did not parse; carries the parser's words.
    DataFormat(String),
    /// A write would duplicate the path of a stored item; carries the path.
    UniqueViolation(String),
}

/// A queue item as the contracts see it.
pub struct QueueItemView {
    pub prefix: Option<Seq<char>>,
    pub key: Seq<char>,
    pub value: Seq<char>,
    pub status: QueueItemStatus,
    pub priority: int,
    pub extra: Option<Seq<char>>,
    pub created: int,
    pub heartbeat: Option<int>,
}

/// An optional timestamp, as the contracts see it.
pub open spec fn opt_time_view(o: Option<i64>) -> Option<int> {
    match o {
        Some(t) => Some(t as int),
        None => None,
    }
}

/// One unit of deferred or distributed work.
pub struct QueueItem {
    prefix: Option<String>,
    key: String,
    value: String,
    status: QueueItemStatus,
    priority: i64,
    extra: Option<String>,
    created: i64,
    heartbeat: Option<i64>,
}

impl View for QueueItem {
    type V = QueueItemView;

    closed spec fn view(&self) -> QueueItemView {
        QueueItemView {
            prefix: self.prefix.deep_view(),
            key: self.key@,
            value: self.value@,
            status: self.status,
            priority: self.priority as int,
            extra: self.extra.deep_view(),
            created: self.created as int,
            heartbeat: opt_time_view(self.heartbeat),
        }
    }
}

/// The item a construction from the given inputs yields: the path decomposed
/// into prefix and key, no extra, no heartbeat.
pub open spec fn constructed_view(
    path: Seq<char>,
    value: Seq<char>,
    status: QueueItemStatus,
    priority: int,
    created: int,
) -> QueueItemView {
    QueueItemView {
        prefix: path_prefix(path),
        key: path_key(path),
        value: value,
        status: status,
        priority: priority,
        extra: Option::None,
        created: created,
        heartbeat: Option::None,
    }
}

/// `v` with its extra field replaced.
pub open spec fn with_extra(v: QueueItemView, extra: Option<Seq<char>>) -> QueueItemView {
    QueueItemView { extra, ..v }
}

/// `v` with its heartbeat set.
pub open spec fn with_heartbeat(v: QueueItemView, heartbeat: int) -> QueueItemView {
    QueueItemView { heartbeat: Some(heartbeat), ..v }
}

/// The extra text a merge of the two parsed values yields: the merged value's
/// canonical text, or absent when the merge clears the field.
pub open spec fn merged_extra_text(prev: JsonView, next: JsonView) -> Option<Seq<char>> {
    match merge_view(prev, next) {
        Some(v) => Some(json_text(v)),
        None => None,
    }
}

/// Relies on chrono's `Utc::now`, read as nanoseconds since the epoch with
/// `timestamp_nanos_opt`; 0 stands in for a time out of that range. Nothing
/// is promised of the value: it is the wall clock.
#[verifier::external_body]
fn now_timestamp_nanos() -> i64 {
    chrono::Utc::now().timestamp_nanos_opt().unwrap_or(0)
}

impl Clone for QueueItem {
    /// An exact copy, field for field.
    fn clone(&self) -> (r: Self)
        ensures
            r == *self,
    {
        QueueItem {
            prefix: match &self.prefix {
                Some(p) => Some(p.clone()),
                None => None,
            },
            key: self.key.clone(),
            value: self.value.clone(),
            status: self.status,
            priority: self.priority,
            extra: match &self.extra {
                Some(e) => Some(e.clone()),
                None => None,
            },
            created: self.created,
            heartbeat: self.heartbeat,
        }
    }
}

impl QueueItem {
    /// Construct an item from a path, payload, status and priority, created
    /// at the given time. The path is split on its last separator into
    /// prefix and key; extra and heartbeat start absent.
    pub fn new_at(
        path: String,
        value: String,
        status: QueueItemStatus,
        priority: i64,
        created: i64,
    ) -> (r: QueueItem)
        ensures
            r@ == constructed_view(path@, value@, status, priority as int, created as int),
    {
        let (prefix, key) = split_path(path.as_str());
        QueueItem {
            prefix,
            key,
            value,
            status,
            priority,
            extra: None,
            created,
            heartbeat: None,
        }
    }

    /// Construct an item created at the current wall-clock time.
    pub fn new(path: String, value: String, status: QueueItemStatus, priority: i64) -> (r:
        QueueItem)
        ensures
            r@ == constructed_view(path@, value@, status, priority as int, r@.created),
    {
        let created = now_timestamp_nanos();
        Self::new_at(path, value, status, priority, created)
    }

    /// The unique-within-prefix identifier.
    pub fn get_key(&self) -> (r: &String)
        ensures
            r@ == self@.key,
    {
        &self.key
    }

    /// The namespace prefix, absent when the path had no separator.
    pub fn get_prefix(&self) -> (r: &Option<String>)
        ensures
            r.deep_view() == self@.prefix,
    {
        &self.prefix
    }

    /// The reconstructed path: `prefix + ":" + key` when the prefix is
    /// present, the key alone otherwise.
    pub fn get_path(&self) -> (r: String)
        ensures
            r@ == path_join(self@.prefix, self@.key),
    {
        match &self.prefix {
            Some(p) => {
                let r = p.clone().concat(":").concat(self.key.as_str());
                proof {
                    reveal_strlit(":");
                    assert(":"@ =~= seq![':']);
                }
                r
            },
            None => self.key.clone(),
        }
    }

    /// The task payload.
    pub fn get_value(&self) -> (r: &String)
        ensures
            r@ == self@.value,
    {
        &self.value
    }

    /// The accumulated metadata, absent until a merge sets it.
    pub fn get_extra(&self) -> (r: &Option<String>)
        ensures
            r.deep_view() == self@.extra,
    {
        &self.extra
    }

    /// The lifecycle stage.
    pub fn get_status(&self) -> (r: &QueueItemStatus)
        ensures
            *r == self@.status,
    {
        &self.status
    }

    /// The ordering hint for claim order.
    pub fn get_priority(&self) -> (r: i64)
        ensures
            r as int == self@.priority,
    {
        self.priority
    }

    /// The last liveness signal, absent until a heartbeat refresh sets it.
    pub fn get_heartbeat(&self) -> (r: &Option<i64>)
        ensures
            opt_time_view(*r) == self@.heartbeat,
    {
        &self.heartbeat
    }

    /// The construction time, immutable from then on.
    pub fn get_created(&self) -> (r: i64)
        ensures
            r as int == self@.created,
    {
        self.created
    }

    /// The status a freshly constructed item receives when none is supplied.
    pub fn status_default() -> (r: QueueItemStatus)
        ensures
            r == QueueItemStatus::Pending,
    {
        QueueItemStatus::Pending
    }

    /// A copy of this item with its heartbeat set to the given time; every
    /// other field is unchanged.
    pub fn update_heartbeat_at(&self, heartbeat: i64) -> (r: QueueItem)
        ensures
            r@ == with_heartbeat(self@, heartbeat as int),
    {
        let mut n = self.clone();
        n.heartbeat = Some(heartbeat);
        n
    }

    /// A copy of this item with its heartbeat set to the current wall-clock
    /// time; every other field is unchanged.
    pub fn update_heartbeat(&self) -> (r: QueueItem)
        ensures
            r@.heartbeat is Some,
            r@ == with_heartbeat(self@, r@.heartbeat.unwrap()),
    {
        let now = now_timestamp_nanos();
        self.update_heartbeat_at(now)
    }

    /// A copy of this item with `payload` merged into its extra field.
    ///
    /// With no prior extra, the payload is stored as given, unparsed. With a
    /// prior extra, both texts are parsed as JSON — a data-format error names
    /// whichever fails — and the merged value's canonical text becomes the
    /// new extra, or the field is cleared when the merge yields no value.
    /// Every other field is unchanged, and an error leaves nothing changed.
    pub fn merge_extra(&self, payload: String) -> (r: Result<QueueItem, QueueError>)
        ensures
            self@.extra is None ==> (r matches Ok(n) && n@ == with_extra(
                self@,
                Some(payload@),
            )),
            self@.extra matches Some(prev) ==> {
                &&& (r is Ok <==> json_wf(prev) && json_wf(payload@))
                &&& (r matches Ok(n) ==> n@ == with_extra(
                    self@,
                    merged_extra_text(json_parsed(prev), json_parsed(payload@)),
                ))
                &&& (r matches Err(e) ==> e is DataFormat)
            },
    {
        match &self.extra {
            None => {
                let mut n = self.clone();
                n.extra = Some(payload);
                Ok(n)
            },
            Some(extra) => {
                let prev = match parse_json(extra.as_str()) {
                    Ok(v) => v,
                    Err(msg) => {
                        return Err(QueueError::DataFormat(msg));
                    },
                };
                let next = match parse_json(payload.as_str()) {
                    Ok(v) => v,
                    Err(msg) => {
                        return Err(QueueError::DataFormat(msg));
                    },
                };
                let mut n = self.clone();
                n.extra = match merge(prev, next) {
                    Some(v) => Some(to_text(&v)),
                    None => None,
                };
                Ok(n)
            },
        }
    }
}

/// Decomposing a path at construction and reconstructing it gives the
/// original path back, for every path and every other input.
pub proof fn lemma_constructed_path_round_trip(
    path: Seq<char>,
    value: Seq<char>,
    status: QueueItemStatus,
    priority: int,
    created: int,
)
    ensures
        ({
            let v = constructed_view(path, value, status, priority, created);
            path_join(v.prefix, v.key) == path
        }),
{
    lemma_path_round_trip(path);
}

/// Two heartbeat refreshes at observably advancing times yield strictly
/// increasing heartbeats, and the first is at or after the creation time.
pub proof fn lemma_heartbeat_monotonic(v: QueueItemView, t1: int, t2: int)
    requires
        v.created <= t1,
        t1 < t2,
    ensures
        ({
            let first = with_heartbeat(v, t1);
            let second = with_heartbeat(first, t2);
            &&& first.heartbeat == Some(t1)
            &&& second.heartbeat == Some(t2)
            &&& first.heartbeat.unwrap() >= v.created
            &&& second.heartbeat.unwrap() > first.heartbeat.unwrap()
            &&& second.created == v.created
        }),
{
}

} // verus!
