//! The storage gauges: item count and total stored bytes.
//!
//! Both values are recomputed from scratch on every observation by scanning
//! the storage directory; no running counter is kept, so the gauges cannot
//! drift from the filesystem after crashes or external modification. A scan
//! that could not enumerate the directory yields the `Unavailable` sentinel
//! rather than an error, so an observation never fails outright; an entry
//! whose metadata could not be read is silently left out of the size total.

use vstd::prelude::*;

use crate::store::ContentStore;
use crate::store::StoredItem;
use crate::store::sum_sizes;

verus! {

/// The outcome of one enumeration of the storage directory: either the
/// directory could not be read at all, or one element per entry, holding
/// the entry's size in bytes where its metadata was readable.
pub enum DirScan {
    Unreadable,
    Entries(Vec<Option<u64>>),
}

/// A gauge observation: a number, or the sentinel for a storage root that
/// could not be enumerated.
#[derive(Clone, Copy, Debug, PartialEq, Eq, Structural)]
pub enum GaugeValue {
    Unavailable,
    Value(u64),
}

/// The sum of the known entry sizes; entries with unreadable metadata
/// contribute nothing.
pub open spec fn sum_known(s: Seq<Option<u64>>) -> int
    decreases s.len(),
{
    if s.len() == 0 {
        0
    } else {
        sum_known(s.drop_last()) + (match s.last() {
            Some(n) => n as int,
            None => 0int,
        })
    }
}

/// A size total never goes below zero.
proof fn lemma_sum_known_nonneg(s: Seq<Option<u64>>)
    ensures
        sum_known(s) >= 0,
    decreases s.len(),
{
    if s.len() > 0 {
        lemma_sum_known_nonneg(s.drop_last());
    }
}

/// A nonnegative total clamped into `u64`.
pub open spec fn clamp_u64(n: int) -> u64 {
    if n >= u64::MAX {
        u64::MAX
    } else if n <= 0 {
        0u64
    } else {
        n as u64
    }
}

/// What the stored-item-count gauge reports for a scan.
pub open spec fn spec_stored_item_count(scan: DirScan) -> GaugeValue {
    match scan {
        DirScan::Unreadable => GaugeValue::Unavailable,
        DirScan::Entries(v) => GaugeValue::Value(v@.len() as u64),
    }
}

/// What the total-stored-bytes gauge reports for a scan.
pub open spec fn spec_total_stored_bytes(scan: DirScan) -> GaugeValue {
    match scan {
        DirScan::Unreadable => GaugeValue::Unavailable,
        DirScan::Entries(v) => GaugeValue::Value(clamp_u64(sum_known(v@))),
    }
}

/// The count of entries in the storage directory, or the sentinel when the
/// directory could not be enumerated.
pub fn stored_item_count(scan: &DirScan) -> (r: GaugeValue)
    ensures
        r == spec_stored_item_count(*scan),
{
    match scan {
        DirScan::Unreadable => GaugeValue::Unavailable,
        DirScan::Entries(v) => GaugeValue::Value(v.len() as u64),
    }
}

/// The sum of the on-disk sizes of all entries whose metadata was readable,
/// or the sentinel when the directory could not be enumerated. The sum
/// saturates at `u64::MAX`.
pub fn total_stored_bytes(scan: &DirScan) -> (r: GaugeValue)
    ensures
        r == spec_total_stored_bytes(*scan),
{
    match scan {
        DirScan::Unreadable => GaugeValue::Unavailable,
        DirScan::Entries(v) => {
            let n = v.len();
            let mut total: u64 = 0;
            let mut i: usize = 0;
            while i < n
                invariant
                    i <= n,
                    n == v@.len(),
                    total == clamp_u64(sum_known(v@.take(i as int))),
                decreases n - i,
            {
                proof {
                    assert(v@.take(i + 1).drop_last() =~= v@.take(i as int));
                    assert(v@.take(i + 1).last() == v@[i as int]);
                    lemma_sum_known_nonneg(v@.take(i as int));
                }
                match v[i] {
                    Some(sz) => {
                        if u64::MAX - total < sz {
                            total = u64::MAX;
                        } else {
                            total = total + sz;
                        }
                    },
                    None => {},
                }
                i = i + 1;
            }
            proof {
                assert(v@.take(n as int) =~= v@);
            }
            GaugeValue::Value(total)
        },
    }
}

/// Enumerates the store as a scan of its directory: one element per stored
/// item, holding the item's size.
pub fn scan_store(store: &ContentStore) -> (r: DirScan)
    ensures
        r matches DirScan::Entries(v) && v@.len() == store.entries@.len() && forall|i: int|
            0 <= i < v@.len() ==> v@[i] == Some(store.entries@[i].content@.len() as u64),
{
    let n = store.entries.len();
    let mut v: Vec<Option<u64>> = Vec::new();
    let mut i: usize = 0;
    while i < n
        invariant
            i <= n,
            n == store.entries@.len(),
            v@.len() == i,
            forall|j: int| 0 <= j < i ==> v@[j] == Some(store.entries@[j].content@.len() as u64),
        decreases n - i,
    {
        v.push(Some(store.entries[i].content.len() as u64));
        i = i + 1;
    }
    DirScan::Entries(v)
}

/// The gauges computed from a faithful scan of the store report exactly the
/// store's item count and its total stored bytes: the size total of the
/// scan equals the size total of the entries.
pub proof fn lemma_gauges_reflect_store(s: Seq<StoredItem>, v: Seq<Option<u64>>)
    requires
        v.len() == s.len(),
        forall|i: int| 0 <= i < v.len() ==> v[i] == Some(s[i].content@.len() as u64),
        forall|i: int| 0 <= i < s.len() ==> s[i].content@.len() <= u64::MAX,
    ensures
        sum_known(v) == sum_sizes(s),
    decreases s.len(),
{
    if s.len() > 0 {
        assert(forall|i: int|
            0 <= i < v.drop_last().len() ==> v.drop_last()[i] == v[i]);
        assert(forall|i: int|
            0 <= i < s.drop_last().len() ==> s.drop_last()[i] == s[i]);
        lemma_gauges_reflect_store(s.drop_last(), v.drop_last());
    }
}

/// The two pull-based gauges of the service, dispatched by name through a
/// fixed table rather than through function values.
#[derive(Clone, Copy, Debug, PartialEq, Eq, Structural)]
pub enum Metric {
    StoredFiles,
    TotalFileSize,
}

impl Metric {
    /// The gauge's registered name.
    pub open spec fn spec_name(self) -> Seq<char> {
        match self {
            Metric::StoredFiles => "pastebin_stored_files"@,
            Metric::TotalFileSize => "pastebin_total_file_size"@,
        }
    }

    /// The gauge's human-readable description.
    pub open spec fn spec_help(self) -> Seq<char> {
        match self {
            Metric::StoredFiles => "Amount of files currently stored in the pastebin"@,
            Metric::TotalFileSize => "Total size of stored files, in bytes"@,
        }
    }

    /// What the gauge reports for a scan.
    pub open spec fn spec_value(self, scan: DirScan) -> GaugeValue {
        match self {
            Metric::StoredFiles => spec_stored_item_count(scan),
            Metric::TotalFileSize => spec_total_stored_bytes(scan),
        }
    }

    pub fn name(&self) -> (r: &'static str)
        ensures
            r@ == self.spec_name(),
    {
        match self {
            Metric::StoredFiles => "pastebin_stored_files",
            Metric::TotalFileSize => "pastebin_total_file_size",
        }
    }

    pub fn help(&self) -> (r: &'static str)
        ensures
            r@ == self.spec_help(),
    {
        match self {
            Metric::StoredFiles => "Amount of files currently stored in the pastebin",
            Metric::TotalFileSize => "Total size of stored files, in bytes",
        }
    }

    pub fn value(&self, scan: &DirScan) -> (r: GaugeValue)
        ensures
            r == self.spec_value(*scan),
    {
        match self {
            Metric::StoredFiles => stored_item_count(scan),
            Metric::TotalFileSize => total_stored_bytes(scan),
        }
    }

    /// The full table of gauges, in registration order.
    pub fn all() -> (r: Vec<Metric>)
        ensures
            r@.len() == 2,
            r@[0] == Metric::StoredFiles,
            r@[1] == Metric::TotalFileSize,
    {
        let mut v: Vec<Metric> = Vec::new();
        v.push(Metric::StoredFiles);
        v.push(Metric::TotalFileSize);
        v
    }
}

} // verus!
