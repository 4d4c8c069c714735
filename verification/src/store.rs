//! The content store: the association between identifiers and byte blobs.
//!
//! The store models a flat directory with one file per identifier, the file
//! name equal to the identifier and the file contents equal to the uploaded
//! bytes. File presence is the sole existence signal: there is no metadata
//! record beside the entries themselves. The store enforces the configured
//! upload size limit before anything is written, and it keeps at most one
//! entry per identifier; a later upload to the same identifier replaces the
//! earlier content.

use vstd::prelude::*;

use crate::container::open_of;
use crate::container::seal;
use crate::id::check_id;
use crate::id::generate;
use crate::id::valid_id;
use crate::mime::opt_str_view;
use crate::mime::resolve_content_type;
use crate::mime::resolved_type;

verus! {

/// The error taxonomy of the storage core.
#[derive(Clone, Copy, Debug, PartialEq, Eq, Structural)]
pub enum StoreError {
    /// The requested identifier has no corresponding stored item.
    NotFound,
    /// The upload body exceeds the configured cap; nothing was persisted.
    SizeLimitExceeded,
    /// An underlying storage failure (permissions, disk, paths).
    IoFailure,
    /// An encrypted container failed authentication on open; wrong secret
    /// and corrupted data are deliberately not distinguished.
    BadSecretOrCorrupt,
}

/// One stored item: an identifier and the byte blob filed under it.
pub struct StoredItem {
    pub id: String,
    pub content: Vec<u8>,
}

/// The content at the given key among the entries, later entries taking
/// precedence (a well-formed store has no duplicate keys).
pub open spec fn lookup(s: Seq<StoredItem>, k: Seq<char>) -> Option<Seq<u8>>
    decreases s.len(),
{
    if s.len() == 0 {
        None
    } else if s.last().id@ == k {
        Some(s.last().content@)
    } else {
        lookup(s.drop_last(), k)
    }
}

/// The sum of the content sizes of all entries.
pub open spec fn sum_sizes(s: Seq<StoredItem>) -> int
    decreases s.len(),
{
    if s.len() == 0 {
        0
    } else {
        sum_sizes(s.drop_last()) + s.last().content@.len()
    }
}

/// No two entries share an identifier.
pub open spec fn distinct_ids(s: Seq<StoredItem>) -> bool {
    forall|i: int, j: int| 0 <= i < j < s.len() ==> s[i].id@ != s[j].id@
}

/// In a store without duplicate keys, the entry at position `i` is what
/// lookup of its identifier finds.
proof fn lemma_lookup_present(s: Seq<StoredItem>, i: int)
    requires
        distinct_ids(s),
        0 <= i < s.len(),
    ensures
        lookup(s, s[i].id@) == Some(s[i].content@),
    decreases s.len(),
{
    if i < s.len() - 1 {
        assert(s.drop_last()[i] == s[i]);
        lemma_lookup_present(s.drop_last(), i);
    }
}

/// A key held by no entry is not found.
proof fn lemma_lookup_absent(s: Seq<StoredItem>, k: Seq<char>)
    requires
        forall|i: int| 0 <= i < s.len() ==> s[i].id@ != k,
    ensures
        lookup(s, k) is None,
    decreases s.len(),
{
    if s.len() > 0 {
        lemma_lookup_absent(s.drop_last(), k);
    }
}

/// Appending an entry adds exactly its key to what lookup finds.
proof fn lemma_lookup_push(s: Seq<StoredItem>, item: StoredItem, k: Seq<char>)
    ensures
        lookup(s.push(item), k) == (if k == item.id@ {
            Some(item.content@)
        } else {
            lookup(s, k)
        }),
{
    assert(s.push(item).drop_last() =~= s);
    assert(s.push(item).last() == item);
}

/// Replacing the entry at position `i` by one with the same identifier
/// changes lookup only at that identifier.
proof fn lemma_lookup_update(s: Seq<StoredItem>, i: int, item: StoredItem, k: Seq<char>)
    requires
        distinct_ids(s),
        0 <= i < s.len(),
        item.id@ == s[i].id@,
    ensures
        lookup(s.update(i, item), k) == (if k == s[i].id@ {
            Some(item.content@)
        } else {
            lookup(s, k)
        }),
    decreases s.len(),
{
    let t = s.update(i, item);
    if i == s.len() - 1 {
        assert(t.last() == item);
        assert(t.drop_last() =~= s.drop_last());
    } else {
        assert(t.last() == s.last());
        assert(t.drop_last() =~= s.drop_last().update(i, item));
        assert(s.drop_last()[i] == s[i]);
        lemma_lookup_update(s.drop_last(), i, item, k);
    }
}

/// Removing the entry at position `i` removes exactly its key from what
/// lookup finds.
proof fn lemma_lookup_remove(s: Seq<StoredItem>, i: int, k: Seq<char>)
    requires
        distinct_ids(s),
        0 <= i < s.len(),
    ensures
        lookup(s.remove(i), k) == (if k == s[i].id@ {
            None
        } else {
            lookup(s, k)
        }),
    decreases s.len(),
{
    let t = s.remove(i);
    if i == s.len() - 1 {
        assert(t =~= s.drop_last());
        if k == s[i].id@ {
            lemma_lookup_absent(s.drop_last(), k);
        }
    } else {
        assert(t.last() == s.last());
        assert(t.drop_last() =~= s.drop_last().remove(i));
        assert(s.drop_last()[i] == s[i]);
        lemma_lookup_remove(s.drop_last(), i, k);
    }
}

/// Replacing the entry at position `i` changes the size total by the
/// difference of the two contents.
proof fn lemma_sum_update(s: Seq<StoredItem>, i: int, item: StoredItem)
    requires
        0 <= i < s.len(),
    ensures
        sum_sizes(s.update(i, item)) == sum_sizes(s) - s[i].content@.len() + item.content@.len(),
    decreases s.len(),
{
    let t = s.update(i, item);
    if i == s.len() - 1 {
        assert(t.last() == item);
        assert(t.drop_last() =~= s.drop_last());
    } else {
        assert(t.last() == s.last());
        assert(t.drop_last() =~= s.drop_last().update(i, item));
        assert(s.drop_last()[i] == s[i]);
        lemma_sum_update(s.drop_last(), i, item);
    }
}

/// Removing the entry at position `i` lowers the size total by its content
/// size.
proof fn lemma_sum_remove(s: Seq<StoredItem>, i: int)
    requires
        0 <= i < s.len(),
    ensures
        sum_sizes(s.remove(i)) == sum_sizes(s) - s[i].content@.len(),
    decreases s.len(),
{
    let t = s.remove(i);
    if i == s.len() - 1 {
        assert(t =~= s.drop_last());
    } else {
        assert(t.last() == s.last());
        assert(t.drop_last() =~= s.drop_last().remove(i));
        assert(s.drop_last()[i] == s[i]);
        lemma_sum_remove(s.drop_last(), i);
    }
}

/// The filesystem path a stored item lives at: the storage root directory,
/// a separator, and the identifier itself as the file name, with no
/// extension. Pure concatenation; callers must have validated the
/// identifier, whose alphabet then keeps the path inside the root.
pub fn path_for(root: &str, id: &str) -> (r: String)
    ensures
        r@ == root@ + "/"@ + id@,
{
    let mut s: String = root.to_owned();
    s.append("/");
    s.append(id);
    s
}

/// The identifier-to-content store, configured once with the identifier
/// length and the upload size limit.
pub struct ContentStore {
    pub id_length: usize,
    pub size_limit: usize,
    pub entries: Vec<StoredItem>,
}

impl ContentStore {
    /// The mathematical content of the store: the map from identifier to
    /// stored bytes.
    pub open spec fn contents(self) -> Map<Seq<char>, Seq<u8>> {
        Map::new(
            |k: Seq<char>| lookup(self.entries@, k) is Some,
            |k: Seq<char>| lookup(self.entries@, k)->Some_0,
        )
    }

    /// How many items are stored.
    pub open spec fn item_count(self) -> nat {
        self.entries@.len()
    }

    /// The total size, in bytes, of all stored items.
    pub open spec fn total_bytes(self) -> int {
        sum_sizes(self.entries@)
    }

    /// Well-formedness: every entry is keyed by a valid identifier of the
    /// configured length, and no two entries share an identifier.
    pub open spec fn wf(self) -> bool {
        &&& forall|i: int|
            0 <= i < self.entries@.len() ==> valid_id(
                #[trigger] self.entries@[i].id@,
                self.id_length as nat,
            )
        &&& distinct_ids(self.entries@)
    }

    /// An empty store with the given configuration.
    pub fn new(id_length: usize, size_limit: usize) -> (s: Self)
        ensures
            s.wf(),
            s.id_length == id_length,
            s.size_limit == size_limit,
            s.contents() == Map::<Seq<char>, Seq<u8>>::empty(),
            s.item_count() == 0,
            s.total_bytes() == 0,
    {
        let s = ContentStore { id_length, size_limit, entries: Vec::new() };
        proof {
            assert(s.contents() =~= Map::<Seq<char>, Seq<u8>>::empty());
        }
        s
    }

    /// The position of the entry keyed by the given identifier, if any.
    fn find_index(&self, id: &str) -> (r: Option<usize>)
        ensures
            match r {
                Some(i) => i < self.entries@.len() && self.entries@[i as int].id@ == id@,
                None => forall|i: int|
                    0 <= i < self.entries@.len() ==> self.entries@[i].id@ != id@,
            },
    {
        let id_string: String = id.to_owned();
        let n = self.entries.len();
        let mut i: usize = 0;
        while i < n
            invariant
                i <= n,
                n == self.entries@.len(),
                id_string@ == id@,
                forall|j: int| 0 <= j < i ==> self.entries@[j].id@ != id@,
            decreases n - i,
        {
            if self.entries[i].id == id_string {
                return Some(i);
            }
            i = i + 1;
        }
        None
    }

    /// Writes `bytes` under the given identifier: the file is created if
    /// absent and replaced if present. The size limit is enforced before
    /// anything is written; an oversized upload is rejected with
    /// `SizeLimitExceeded` and leaves the store unchanged.
    pub fn create_or_replace(&mut self, id: &str, bytes: Vec<u8>) -> (r: Result<(), StoreError>)
        requires
            old(self).wf(),
            valid_id(id@, old(self).id_length as nat),
        ensures
            final(self).wf(),
            final(self).id_length == old(self).id_length,
            final(self).size_limit == old(self).size_limit,
            bytes@.len() <= old(self).size_limit ==> ({
                &&& r is Ok
                &&& final(self).contents() == old(self).contents().insert(id@, bytes@)
                &&& final(self).item_count() == old(self).item_count() + (
                if old(self).contents().contains_key(id@) {
                    0int
                } else {
                    1int
                })
                &&& final(self).total_bytes() == old(self).total_bytes() + bytes@.len() - (
                if old(self).contents().contains_key(id@) {
                    old(self).contents()[id@].len() as int
                } else {
                    0int
                })
            }),
            bytes@.len() > old(self).size_limit ==> ({
                &&& r == Err::<(), StoreError>(StoreError::SizeLimitExceeded)
                &&& *final(self) == *old(self)
            }),
    {
        if bytes.len() > self.size_limit {
            return Err(StoreError::SizeLimitExceeded);
        }
        let ghost s0 = self.entries@;
        let item = StoredItem { id: id.to_owned(), content: bytes };
        match self.find_index(id) {
            Some(i) => {
                proof {
                    lemma_lookup_present(s0, i as int);
                    lemma_sum_update(s0, i as int, item);
                }
                self.entries.set(i, item);
                proof {
                    assert forall|k: Seq<char>|
                        lookup(self.entries@, k) == (if k == id@ {
                            Some(item.content@)
                        } else {
                            lookup(s0, k)
                        }) by {
                        lemma_lookup_update(s0, i as int, item, k);
                    }
                    assert(self.contents() =~= old(self).contents().insert(id@, item.content@));
                }
            },
            None => {
                proof {
                    lemma_lookup_absent(s0, id@);
                }
                self.entries.push(item);
                proof {
                    assert(self.entries@ == s0.push(item));
                    assert(s0.push(item).drop_last() =~= s0);
                    assert forall|k: Seq<char>|
                        lookup(self.entries@, k) == (if k == id@ {
                            Some(item.content@)
                        } else {
                            lookup(s0, k)
                        }) by {
                        lemma_lookup_push(s0, item, k);
                    }
                    assert(self.contents() =~= old(self).contents().insert(id@, item.content@));
                }
            },
        }
        Ok(())
    }

    /// An upload: draws a fresh random identifier of the configured length
    /// and files the bytes under it. There is no collision check; by the
    /// accepted design, a colliding identifier silently replaces the
    /// earlier content. An oversized body is rejected before any identifier
    /// is drawn and leaves the store unchanged.
    pub fn upload(&mut self, bytes: Vec<u8>) -> (r: Result<String, StoreError>)
        requires
            old(self).wf(),
        ensures
            final(self).wf(),
            final(self).id_length == old(self).id_length,
            final(self).size_limit == old(self).size_limit,
            match r {
                Ok(id) => ({
                    &&& bytes@.len() <= old(self).size_limit
                    &&& valid_id(id@, old(self).id_length as nat)
                    &&& final(self).contents() == old(self).contents().insert(id@, bytes@)
                    &&& final(self).item_count() == old(self).item_count() + (
                    if old(self).contents().contains_key(id@) {
                        0int
                    } else {
                        1int
                    })
                    &&& final(self).total_bytes() == old(self).total_bytes() + bytes@.len() - (
                    if old(self).contents().contains_key(id@) {
                        old(self).contents()[id@].len() as int
                    } else {
                        0int
                    })
                }),
                Err(e) => ({
                    &&& e == StoreError::SizeLimitExceeded
                    &&& bytes@.len() > old(self).size_limit
                    &&& *final(self) == *old(self)
                }),
            },
    {
        if bytes.len() > self.size_limit {
            return Err(StoreError::SizeLimitExceeded);
        }
        let id = generate(self.id_length);
        match self.create_or_replace(id.as_str(), bytes) {
            Ok(()) => Ok(id),
            Err(e) => Err(e),
        }
    }

    /// Returns the full stored content under the given identifier, or
    /// `NotFound` when there is none. Reading never mutates the store.
    pub fn read(&self, id: &str) -> (r: Result<Vec<u8>, StoreError>)
        requires
            self.wf(),
        ensures
            match r {
                Ok(c) => self.contents().contains_key(id@) && c@ == self.contents()[id@],
                Err(e) => e == StoreError::NotFound && !self.contents().contains_key(id@),
            },
    {
        match self.find_index(id) {
            Some(i) => {
                proof {
                    lemma_lookup_present(self.entries@, i as int);
                }
                let c = self.entries[i].content.clone();
                proof {
                    assert(c@ =~= self.entries@[i as int].content@);
                }
                Ok(c)
            },
            None => {
                proof {
                    lemma_lookup_absent(self.entries@, id@);
                }
                Err(StoreError::NotFound)
            },
        }
    }

    /// The security-sensitive upload path: wraps the body in the encrypted
    /// container under the deployment secret and files the container under
    /// a fresh random identifier. The size limit applies to the container,
    /// which is what is written. Retrieval does not transparently decrypt:
    /// a caller reads the container back and opens it out-of-band with the
    /// secret, which is this service's documented policy.
    pub fn upload_sealed(&mut self, bytes: &[u8], secret: &str) -> (r: Result<
        String,
        StoreError,
    >)
        requires
            old(self).wf(),
        ensures
            final(self).wf(),
            final(self).id_length == old(self).id_length,
            final(self).size_limit == old(self).size_limit,
            match r {
                Ok(id) => ({
                    &&& valid_id(id@, old(self).id_length as nat)
                    &&& final(self).item_count() == old(self).item_count() + (
                    if old(self).contents().contains_key(id@) {
                        0int
                    } else {
                        1int
                    })
                    &&& exists|c: Seq<u8>| ({
                        &&& open_of(c, secret@) == Some(bytes@)
                        &&& c.len() <= old(self).size_limit
                        &&& final(self).contents() == old(self).contents().insert(id@, c)
                    })
                }),
                Err(e) => ({
                    &&& (e == StoreError::SizeLimitExceeded || e == StoreError::IoFailure)
                    &&& *final(self) == *old(self)
                }),
            },
    {
        let container = match seal(bytes, secret) {
            Ok(c) => c,
            Err(e) => { return Err(e) },
        };
        if container.len() > self.size_limit {
            return Err(StoreError::SizeLimitExceeded);
        }
        let id = generate(self.id_length);
        let ghost c = container@;
        match self.create_or_replace(id.as_str(), container) {
            Ok(()) => {
                proof {
                    assert(open_of(c, secret@) == Some(bytes@));
                }
                Ok(id)
            },
            Err(e) => Err(e),
        }
    }

    /// Answers a retrieval: the stored content under the identifier taken
    /// from the untrusted request path, together with the resolved content
    /// type. The identifier is validated against the expected alphabet and
    /// length before any lookup, so a crafted identifier cannot escape the
    /// storage root; an invalid or unknown identifier is answered with
    /// `None`. Retrieval never mutates the store.
    pub fn retrieve(&self, id: &str, mime_override: Option<&str>) -> (r: Option<
        (String, Vec<u8>),
    >)
        requires
            self.wf(),
        ensures
            match r {
                Some(p) => ({
                    &&& self.contents().contains_key(id@)
                    &&& p.1@ == self.contents()[id@]
                    &&& p.0@ == resolved_type(opt_str_view(mime_override), self.contents()[id@])
                }),
                None => !self.contents().contains_key(id@),
            },
    {
        if !check_id(id, self.id_length) {
            proof {
                assert forall|i: int|
                    0 <= i < self.entries@.len() implies self.entries@[i].id@ != id@ by {
                    assert(valid_id(self.entries@[i].id@, self.id_length as nat));
                }
                lemma_lookup_absent(self.entries@, id@);
            }
            return None;
        }
        match self.read(id) {
            Ok(content) => {
                let content_type = resolve_content_type(mime_override, content.as_slice());
                Some((content_type, content))
            },
            Err(_) => None,
        }
    }

    /// Removes the stored item under the given identifier, or reports
    /// `NotFound` when there is none; the error leaves the store unchanged.
    pub fn delete(&mut self, id: &str) -> (r: Result<(), StoreError>)
        requires
            old(self).wf(),
        ensures
            final(self).wf(),
            final(self).id_length == old(self).id_length,
            final(self).size_limit == old(self).size_limit,
            match r {
                Ok(()) => ({
                    &&& old(self).contents().contains_key(id@)
                    &&& final(self).contents() == old(self).contents().remove(id@)
                    &&& final(self).item_count() + 1 == old(self).item_count()
                    &&& final(self).total_bytes() == old(self).total_bytes() - old(
                        self,
                    ).contents()[id@].len()
                }),
                Err(e) => ({
                    &&& e == StoreError::NotFound
                    &&& !old(self).contents().contains_key(id@)
                    &&& *final(self) == *old(self)
                }),
            },
    {
        let ghost s0 = self.entries@;
        match self.find_index(id) {
            Some(i) => {
                proof {
                    lemma_lookup_present(s0, i as int);
                    lemma_sum_remove(s0, i as int);
                }
                self.entries.remove(i);
                proof {
                    assert forall|k: Seq<char>|
                        lookup(self.entries@, k) == (if k == id@ {
                            None::<Seq<u8>>
                        } else {
                            lookup(s0, k)
                        }) by {
                        lemma_lookup_remove(s0, i as int, k);
                    }
                    assert forall|a: int, b: int|
                        0 <= a < b < self.entries@.len() implies self.entries@[a].id@
                        != self.entries@[b].id@ by {
                        assert(self.entries@[a] == if a < i { s0[a] } else { s0[a + 1] });
                        assert(self.entries@[b] == if b < i { s0[b] } else { s0[b + 1] });
                    }
                    assert(self.contents() =~= old(self).contents().remove(id@));
                }
                Ok(())
            },
            None => {
                proof {
                    lemma_lookup_absent(s0, id@);
                }
                Err(StoreError::NotFound)
            },
        }
    }
}

} // verus!
