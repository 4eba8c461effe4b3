//! An in-memory storage double honoring the contract the real storage
//! engine must provide: persist a row under a fresh row identifier while
//! rejecting any write whose reconstructed path duplicates a stored one, and
//! hand the rows back for scans.

use vstd::prelude::*;

use crate::item::{QueueError, QueueItem, QueueItemStatus, QueueItemView};
use crate::path_codec::path_join;

verus! {

/// The reconstructed path of an item.
pub open spec fn item_path(v: QueueItemView) -> Seq<char> {
    path_join(v.prefix, v.key)
}

/// Whether some stored row's reconstructed path equals `path`.
pub open spec fn has_path(rows: Seq<(u64, QueueItemView)>, path: Seq<char>) -> bool {
    exists|i: int| 0 <= i < rows.len() && item_path((#[trigger] rows[i]).1) == path
}

/// The rows as the contracts see them: each row identifier with its item.
pub open spec fn rows_seq_view(rows: Seq<(u64, QueueItem)>) -> Seq<(u64, QueueItemView)> {
    Seq::new(rows.len(), |i: int| (rows[i].0, rows[i].1@))
}

/// The rows of `rows` whose status is `st`, in order.
pub open spec fn rows_with_status(
    rows: Seq<(u64, QueueItemView)>,
    st: QueueItemStatus,
) -> Seq<(u64, QueueItemView)>
    decreases rows.len(),
{
    if rows.len() == 0 {
        Seq::empty()
    } else {
        let rest = rows_with_status(rows.drop_last(), st);
        if rows.last().1.status == st {
            rest.push(rows.last())
        } else {
            rest
        }
    }
}

/// An in-memory queue store: rows in insertion order, each under the row
/// identifier it was assigned.
pub struct QueueStore {
    rows: Vec<(u64, QueueItem)>,
}

impl QueueStore {
    /// The stored rows as the contracts see them.
    pub closed spec fn rows_view(&self) -> Seq<(u64, QueueItemView)> {
        rows_seq_view(self.rows@)
    }

    /// Row identifiers are the insertion positions, and no two stored rows
    /// reconstruct to the same path.
    pub open spec fn inv(&self) -> bool {
        &&& forall|i: int|
            0 <= i < self.rows_view().len() ==> (#[trigger] self.rows_view()[i]).0 == i as u64
        &&& forall|i: int, j: int|
            0 <= i < j < self.rows_view().len() ==> item_path(
                (#[trigger] self.rows_view()[i]).1,
            ) != item_path((#[trigger] self.rows_view()[j]).1)
    }

    /// An empty store.
    pub fn new() -> (r: QueueStore)
        ensures
            r.rows_view() == Seq::<(u64, QueueItemView)>::empty(),
            r.inv(),
    {
        let r = QueueStore { rows: Vec::new() };
        proof {
            assert(r.rows_view() =~= Seq::<(u64, QueueItemView)>::empty());
        }
        r
    }

    /// Persist `row` under a fresh row identifier. The write is rejected,
    /// and the store left unchanged, exactly when a stored row already
    /// reconstructs to the same path.
    pub fn put(&mut self, row: QueueItem) -> (r: Result<u64, QueueError>)
        requires
            old(self).inv(),
        ensures
            final(self).inv(),
            r is Err <==> has_path(old(self).rows_view(), item_path(row@)),
            r matches Err(e) ==> e is UniqueViolation && final(self).rows_view() == old(self).rows_view(),
            r matches Ok(id) ==> id as int == old(self).rows_view().len() && final(self).rows_view() =~= old(self).rows_view().push((id, row@)),
    {
        let path = row.get_path();
        let n = self.rows.len();
        let mut i: usize = 0;
        while i < n
            invariant
                i <= n,
                n == self.rows_view().len(),
                self.inv(),
                self.rows_view() == old(self).rows_view(),
                path@ == item_path(row@),
                forall|j: int|
                    0 <= j < i ==> item_path((#[trigger] self.rows_view()[j]).1) != path@,
            decreases n - i,
        {
            proof {
                assert(self.rows_view()[i as int] == (self.rows@[i as int].0, self.rows@[
                    i as int].1@));
            }
            if self.rows[i].1.get_path() == path {
                assert(has_path(self.rows_view(), item_path(row@)));
                return Err(QueueError::UniqueViolation(path));
            }
            i = i + 1;
        }
        proof {
            if has_path(self.rows_view(), item_path(row@)) {
                let w = choose|k: int|
                    0 <= k < self.rows_view().len() && item_path(self.rows_view()[k].1)
                        == item_path(row@);
                assert(item_path(self.rows_view()[w].1) != path@);
            }
        }
        let id = n as u64;
        let ghost prev = self.rows_view();
        self.rows.push((id, row));
        proof {
            assert(self.rows_view() =~= prev.push((id, row@)));
        }
        Ok(id)
    }

    /// Every stored row, in insertion order.
    pub fn get_all(&self) -> (r: &Vec<(u64, QueueItem)>)
        ensures
            rows_seq_view(r@) == self.rows_view(),
    {
        &self.rows
    }

    /// The stored rows whose status is `status`, in insertion order.
    pub fn scan_by_status(&self, status: QueueItemStatus) -> (r: Vec<(u64, QueueItem)>)
        ensures
            rows_seq_view(r@) == rows_with_status(self.rows_view(), status),
    {
        let mut out: Vec<(u64, QueueItem)> = Vec::new();
        let n = self.rows.len();
        let mut i: usize = 0;
        proof {
            assert(rows_seq_view(out@) =~= rows_with_status(
                self.rows_view().take(0),
                status,
            ));
        }
        while i < n
            invariant
                i <= n,
                n == self.rows_view().len(),
                rows_seq_view(out@) == rows_with_status(self.rows_view().take(i as int), status),
            decreases n - i,
        {
            proof {
                assert(self.rows_view()[i as int] == (self.rows@[i as int].0, self.rows@[
                    i as int].1@));
            }
            let ghost prev = out@;
            if *self.rows[i].1.get_status() == status {
                let entry = (self.rows[i].0, self.rows[i].1.clone());
                out.push(entry);
                proof {
                    assert(rows_seq_view(out@) =~= rows_seq_view(prev).push(
                        self.rows_view()[i as int],
                    ));
                }
            }
            proof {
                let t = self.rows_view().take(i + 1 as int);
                assert(t.drop_last() =~= self.rows_view().take(i as int));
                assert(t.last() == self.rows_view()[i as int]);
            }
            i = i + 1;
        }
        proof {
            assert(self.rows_view().take(n as int) =~= self.rows_view());
        }
        out
    }
}

} // verus!
