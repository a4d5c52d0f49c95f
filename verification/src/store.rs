//! A reference model of the store's visible semantics.
//!
//! The remote store keeps at most one document per (identifier,
//! partition key) pair.  This module states, as a verified in-memory
//! model, exactly the outcomes the client's error taxonomy mirrors: a
//! create of an existing pair conflicts (409, already-exists), a read,
//! replace or delete of a missing pair is not found (404), an upsert
//! always succeeds, and a read after a create yields the created body
//! unchanged.

use vstd::prelude::*;

use crate::errors::{CosmosError, ErrorKind};
use crate::json::DocValue;
use crate::keys::{KeyModel, PartitionKey};

verus! {

/// One stored document: its identifier, its partition key, and its
/// body.
pub struct StoredItem {
    pub id: String,
    pub key: PartitionKey,
    pub body: DocValue,
}

/// `e` is addressed by the identifier `id` under the key `k`.
pub open spec fn addresses(e: StoredItem, id: Seq<char>, k: KeyModel) -> bool {
    e.id@ == id && e.key@ == k
}

/// The position of the first item addressed by (`id`, `k`), if any.
pub open spec fn spec_find(s: Seq<StoredItem>, id: Seq<char>, k: KeyModel) -> Option<int>
    decreases s.len(),
{
    if s.len() == 0 {
        None
    } else if addresses(s[0], id, k) {
        Some(0)
    } else {
        match spec_find(s.drop_first(), id, k) {
            Some(i) => Some(i + 1),
            None => None,
        }
    }
}

/// What a found position means: it is in range, it addresses the pair,
/// and no earlier position does; a miss means no position does.
pub proof fn lemma_find_props(s: Seq<StoredItem>, id: Seq<char>, k: KeyModel)
    ensures
        match spec_find(s, id, k) {
            Some(i) => 0 <= i < s.len() && addresses(s[i], id, k) && forall|j: int|
                0 <= j < i ==> !addresses(s[j], id, k),
            None => forall|j: int| 0 <= j < s.len() ==> !addresses(s[j], id, k),
        },
    decreases s.len(),
{
    if s.len() > 0 && !addresses(s[0], id, k) {
        lemma_find_props(s.drop_first(), id, k);
        match spec_find(s.drop_first(), id, k) {
            Some(i) => {
                assert(s.drop_first()[i] == s[i + 1]);
                assert forall|j: int| 0 <= j < i + 1 implies !addresses(s[j], id, k) by {
                    if j > 0 {
                        assert(s.drop_first()[j - 1] == s[j]);
                    }
                }
            },
            None => {
                assert forall|j: int| 0 <= j < s.len() implies !addresses(s[j], id, k) by {
                    if j > 0 {
                        assert(s.drop_first()[j - 1] == s[j]);
                    }
                }
            },
        }
    }
}

/// No two positions hold the same (identifier, partition key) pair.
pub open spec fn distinct_addresses(s: Seq<StoredItem>) -> bool {
    forall|i: int, j: int|
        0 <= i < j < s.len() ==> !(#[trigger] s[i].id@ == #[trigger] s[j].id@ && s[i].key@
            == s[j].key@)
}

/// Pushing an item whose pair is absent keeps the pairs distinct.
proof fn lemma_distinct_push(s: Seq<StoredItem>, e: StoredItem)
    requires
        distinct_addresses(s),
        forall|j: int| 0 <= j < s.len() ==> !addresses(s[j], e.id@, e.key@),
    ensures
        distinct_addresses(s.push(e)),
{
    assert forall|p: int, q: int| 0 <= p < q < s.push(e).len() implies !(#[trigger] s.push(
        e,
    )[p].id@ == #[trigger] s.push(e)[q].id@ && s.push(e)[p].key@ == s.push(e)[q].key@) by {
        if q < s.len() {
            assert(s.push(e)[p] == s[p]);
            assert(s.push(e)[q] == s[q]);
        } else {
            assert(s.push(e)[p] == s[p]);
            assert(s.push(e)[q] == e);
            assert(!addresses(s[p], e.id@, e.key@));
        }
    }
}

/// Updating a position with an item of the same pair keeps the pairs
/// distinct.
proof fn lemma_distinct_update(s: Seq<StoredItem>, i: int, e: StoredItem)
    requires
        distinct_addresses(s),
        0 <= i < s.len(),
        e.id@ == s[i].id@,
        e.key@ == s[i].key@,
    ensures
        distinct_addresses(s.update(i, e)),
{
    assert forall|p: int, q: int| 0 <= p < q < s.update(i, e).len() implies !(#[trigger] s.update(
        i,
        e,
    )[p].id@ == #[trigger] s.update(i, e)[q].id@ && s.update(i, e)[p].key@ == s.update(
        i,
        e,
    )[q].key@) by {
        assert(s.update(i, e)[p].id@ == s[p].id@ && s.update(i, e)[p].key@ == s[p].key@);
        assert(s.update(i, e)[q].id@ == s[q].id@ && s.update(i, e)[q].key@ == s[q].key@);
    }
}

/// Removing a position keeps the pairs distinct.
proof fn lemma_distinct_remove(s: Seq<StoredItem>, i: int)
    requires
        distinct_addresses(s),
        0 <= i < s.len(),
    ensures
        distinct_addresses(s.remove(i)),
{
    assert forall|p: int, q: int| 0 <= p < q < s.remove(i).len() implies !(#[trigger] s.remove(
        i,
    )[p].id@ == #[trigger] s.remove(i)[q].id@ && s.remove(i)[p].key@ == s.remove(i)[q].key@) by {
        let p0: int = if p < i { p } else { p + 1 };
        let q0: int = if q < i { q } else { q + 1 };
        assert(s.remove(i)[p] == s[p0]);
        assert(s.remove(i)[q] == s[q0]);
    }
}

/// Law: after a create, a read of the same identifier and partition
/// key finds exactly the created item — the store hands the created
/// body back unchanged.
pub proof fn lemma_create_then_read(s: Seq<StoredItem>, e: StoredItem)
    requires
        spec_find(s, e.id@, e.key@) is None,
    ensures
        spec_find(s.push(e), e.id@, e.key@) == Some(s.len() as int),
        s.push(e)[s.len() as int] == e,
    decreases s.len(),
{
    if s.len() == 0 {
        assert(s.push(e)[0] == e);
    } else {
        assert(!addresses(s[0], e.id@, e.key@));
        assert(s.push(e)[0] == s[0]);
        assert(s.push(e).drop_first() =~= s.drop_first().push(e));
        lemma_create_then_read(s.drop_first(), e);
    }
}

/// The in-memory model of one container's contents.
pub struct StoreModel {
    items: Vec<StoredItem>,
}

impl StoreModel {
    /// The stored items, in insertion order.
    pub closed spec fn spec_items(&self) -> Seq<StoredItem> {
        self.items@
    }

    /// At most one item per (identifier, partition key) pair.
    pub open spec fn wf(&self) -> bool {
        distinct_addresses(self.spec_items())
    }

    /// An empty container.
    pub fn new() -> (s: StoreModel)
        ensures
            s.wf(),
            s.spec_items() == Seq::<StoredItem>::empty(),
    {
        StoreModel { items: Vec::new() }
    }

    /// The position of the item addressed by (`id`, `key`), if any.
    fn find_index(&self, id: &str, key: &PartitionKey) -> (r: Option<usize>)
        ensures
            match r {
                Some(i) => spec_find(self.spec_items(), id@, key@) == Some(i as int),
                None => spec_find(self.spec_items(), id@, key@) is None,
            },
    {
        let id_owned: String = id.to_owned();
        let n = self.items.len();
        let mut i: usize = 0;
        proof {
            assert(self.items@.skip(0) =~= self.items@);
        }
        while i < n
            invariant
                i <= n,
                n == self.items@.len(),
                id_owned@ == id@,
                spec_find(self.items@, id@, key@) == (match spec_find(
                    self.items@.skip(i as int),
                    id@,
                    key@,
                ) {
                    Some(j) => Some(i + j),
                    None => None::<int>,
                }),
            decreases n - i,
        {
            proof {
                assert(self.items@.skip(i as int)[0] == self.items@[i as int]);
            }
            if self.items[i].id.eq(&id_owned) && self.items[i].key.key_eq(key) {
                return Some(i);
            }
            proof {
                assert(self.items@.skip(i as int).drop_first() =~= self.items@.skip(i + 1));
            }
            i = i + 1;
        }
        proof {
            assert(self.items@.skip(n as int) =~= Seq::<StoredItem>::empty());
        }
        None
    }

    /// Create a document.  A pair that already exists conflicts: the
    /// outcome is classified as already-exists with status 409, and the
    /// store is unchanged.
    pub fn create(&mut self, id: String, key: PartitionKey, body: DocValue) -> (r: Result<
        (),
        CosmosError,
    >)
        requires
            old(self).wf(),
        ensures
            final(self).wf(),
            match r {
                Ok(u) => spec_find(old(self).spec_items(), id@, key@) is None && final(self).spec_items() == old(self).spec_items().push((StoredItem { id, key, body })),
                Err(e) => spec_find(old(self).spec_items(), id@, key@) is Some && *final(self) == *old(self) && e.kind == ErrorKind::AlreadyExists && e.status == Some(409u16)
                    && e.message@ == "Entity with the specified id already exists in the system"@,
            },
    {
        match self.find_index(id.as_str(), &key) {
            Some(_) => Err(
                CosmosError {
                    kind: ErrorKind::AlreadyExists,
                    status: Some(409),
                    message: "Entity with the specified id already exists in the system".to_owned(),
                },
            ),
            None => {
                proof {
                    lemma_find_props(self.items@, id@, key@);
                }
                let ghost old_items = self.items@;
                self.items.push(StoredItem { id, key, body });
                proof {
                    lemma_distinct_push(old_items, self.items@.last());
                }
                Ok(())
            },
        }
    }

    /// Read the document addressed by (`id`, `key`).  A missing pair
    /// is classified as not-found with status 404.
    pub fn read(&self, id: &str, key: &PartitionKey) -> (r: Result<&DocValue, CosmosError>)
        ensures
            match r {
                Ok(b) => spec_find(self.spec_items(), id@, key@) matches Some(i) && *b
                    == self.spec_items()[i].body,
                Err(e) => spec_find(self.spec_items(), id@, key@) is None && e.kind
                    == ErrorKind::NotFound && e.status == Some(404u16) && e.message@
                    == "Entity with the specified id does not exist in the system"@,
            },
    {
        match self.find_index(id, key) {
            Some(i) => {
                proof {
                    lemma_find_props(self.items@, id@, key@);
                }
                Ok(&self.items[i].body)
            },
            None => Err(
                CosmosError {
                    kind: ErrorKind::NotFound,
                    status: Some(404),
                    message: "Entity with the specified id does not exist in the system".to_owned(),
                },
            ),
        }
    }

    /// Replace the document addressed by (`id`, `key`) with a new
    /// body.  A missing pair is classified as not-found with status
    /// 404, and the store is unchanged.
    pub fn replace(&mut self, id: String, key: PartitionKey, body: DocValue) -> (r: Result<
        (),
        CosmosError,
    >)
        requires
            old(self).wf(),
        ensures
            final(self).wf(),
            match r {
                Ok(u) => spec_find(old(self).spec_items(), id@, key@) matches Some(i) && final(self).spec_items() == old(self).spec_items().update(i, (StoredItem { id, key, body })),
                Err(e) => spec_find(old(self).spec_items(), id@, key@) is None && *final(self) == *old(self) && e.kind == ErrorKind::NotFound && e.status == Some(404u16)
                    && e.message@ == "Entity with the specified id does not exist in the system"@,
            },
    {
        match self.find_index(id.as_str(), &key) {
            Some(i) => {
                proof {
                    lemma_find_props(self.items@, id@, key@);
                }
                let ghost old_items = self.items@;
                self.items.set(i, StoredItem { id, key, body });
                proof {
                    lemma_distinct_update(old_items, i as int, self.items@[i as int]);
                }
                Ok(())
            },
            None => Err(
                CosmosError {
                    kind: ErrorKind::NotFound,
                    status: Some(404),
                    message: "Entity with the specified id does not exist in the system".to_owned(),
                },
            ),
        }
    }

    /// Create or replace the document addressed by (`id`, `key`):
    /// an upsert never conflicts.
    pub fn upsert(&mut self, id: String, key: PartitionKey, body: DocValue)
        requires
            old(self).wf(),
        ensures
            final(self).wf(),
            match spec_find(old(self).spec_items(), id@, key@) {
                Some(i) => final(self).spec_items() == old(self).spec_items().update(
                    i,
                    (StoredItem { id, key, body }),
                ),
                None => final(self).spec_items() == old(self).spec_items().push(
                    (StoredItem { id, key, body }),
                ),
            },
    {
        match self.find_index(id.as_str(), &key) {
            Some(i) => {
                proof {
                    lemma_find_props(self.items@, id@, key@);
                }
                let ghost old_items = self.items@;
                self.items.set(i, StoredItem { id, key, body });
                proof {
                    lemma_distinct_update(old_items, i as int, self.items@[i as int]);
                }
            },
            None => {
                proof {
                    lemma_find_props(self.items@, id@, key@);
                }
                let ghost old_items = self.items@;
                self.items.push(StoredItem { id, key, body });
                proof {
                    lemma_distinct_push(old_items, self.items@.last());
                }
            },
        }
    }

    /// Delete the document addressed by (`id`, `key`).  A delete of a
    /// nonexistent pair is classified as not-found with status 404,
    /// and the store is unchanged.
    pub fn delete(&mut self, id: &str, key: &PartitionKey) -> (r: Result<(), CosmosError>)
        requires
            old(self).wf(),
        ensures
            final(self).wf(),
            match r {
                Ok(u) => spec_find(old(self).spec_items(), id@, key@) matches Some(i) && final(self).spec_items() == old(self).spec_items().remove(i),
                Err(e) => spec_find(old(self).spec_items(), id@, key@) is None && *final(self) == *old(self) && e.kind == ErrorKind::NotFound && e.status == Some(404u16)
                    && e.message@ == "Entity with the specified id does not exist in the system"@,
            },
    {
        match self.find_index(id, key) {
            Some(i) => {
                proof {
                    lemma_find_props(self.items@, id@, key@);
                }
                let ghost old_items = self.items@;
                self.items.remove(i);
                proof {
                    lemma_distinct_remove(old_items, i as int);
                }
                Ok(())
            },
            None => Err(
                CosmosError {
                    kind: ErrorKind::NotFound,
                    status: Some(404),
                    message: "Entity with the specified id does not exist in the system".to_owned(),
                },
            ),
        }
    }

    /// How many documents the container holds.
    pub fn len(&self) -> (r: usize)
        ensures
            r == self.spec_items().len(),
    {
        self.items.len()
    }
}

} // verus!
