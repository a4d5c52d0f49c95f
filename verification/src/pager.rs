//! The pager: aggregation of a paged query result behind a
//! continuation-token protocol.
//!
//! A query is answered page by page; each page carries items and,
//! while more pages remain, an opaque continuation cursor.  The pager
//! accumulates every page, in page order, until a page arrives without
//! a cursor; only then may the aggregate be taken.  The cursor is held
//! only for the duration of the run and never interpreted.  A run that
//! fails mid-stream is simply dropped: its partial aggregate is
//! discarded with it.

use vstd::prelude::*;

use crate::errors::{CosmosError, ErrorKind};
use crate::json::DocValue;
use crate::keys::PartitionKey;

verus! {

/// A planned query: the text and the mandatory partition key of a
/// single-partition query.  Building one performs no network work.
#[derive(Debug)]
pub struct QueryRequest {
    pub query: String,
    pub partition_key: PartitionKey,
}

/// Plan a query.  A partition key is required: without one the plan —
/// and with it every network request — is refused up front.
pub fn plan_query(query: String, partition_key: Option<PartitionKey>) -> (r: Result<
    QueryRequest,
    CosmosError,
>)
    ensures
        match r {
            Ok(q) => partition_key matches Some(k) && q.partition_key == k && q.query == query,
            Err(e) => partition_key is None && e.kind == ErrorKind::ValueError && e.message@
                == "partition_key is required for queries. For cross-partition queries, this will be supported in a future update."@,
        },
{
    match partition_key {
        Some(k) => Ok(QueryRequest { query, partition_key: k }),
        None => Err(
            CosmosError::new(
                ErrorKind::ValueError,
                "partition_key is required for queries. For cross-partition queries, this will be supported in a future update.".to_owned(),
            ),
        ),
    }
}

/// The pager's state over one run of a query: the items collected so
/// far, the cursor of the page that is still owed (if any), and the
/// page history as a ghost record.
pub struct QueryPager {
    items: Vec<DocValue>,
    continuation: Option<String>,
    exhausted: bool,
    pages: Ghost<Seq<Seq<DocValue>>>,
}

impl QueryPager {
    /// The pages fed so far, in arrival order.
    pub closed spec fn pages(&self) -> Seq<Seq<DocValue>> {
        self.pages@
    }

    /// Everything collected so far.
    pub closed spec fn collected(&self) -> Seq<DocValue> {
        self.items@
    }

    /// The service has signalled exhaustion: the last page carried no
    /// cursor.
    pub closed spec fn is_exhausted(&self) -> bool {
        self.exhausted
    }

    /// The cursor the next page request must carry, when one is owed.
    pub closed spec fn cursor(&self) -> Option<Seq<char>> {
        match self.continuation {
            Some(c) => Some(c@),
            None => None,
        }
    }

    /// The collection is exactly the page history flattened in page
    /// order, and a cursor is held exactly while pages are owed.
    pub closed spec fn wf(&self) -> bool {
        &&& self.items@ == self.pages@.flatten()
        &&& (self.exhausted ==> self.continuation is None)
    }

    /// A fresh run: nothing collected, no cursor, not exhausted.
    pub fn new() -> (p: QueryPager)
        ensures
            p.wf(),
            p.pages() == Seq::<Seq<DocValue>>::empty(),
            p.collected() == Seq::<DocValue>::empty(),
            !p.is_exhausted(),
            p.cursor() is None,
    {
        let p = QueryPager {
            items: Vec::new(),
            continuation: None,
            exhausted: false,
            pages: Ghost(Seq::empty()),
        };
        proof {
            assert(Seq::<Seq<DocValue>>::empty().flatten() =~= Seq::<DocValue>::empty());
        }
        p
    }

    /// Feed the next page: its items are appended after everything
    /// collected so far, and the run is exhausted exactly when the page
    /// carried no continuation cursor.
    pub fn feed_page(&mut self, mut page: Vec<DocValue>, next_cursor: Option<String>)
        requires
            old(self).wf(),
            !old(self).is_exhausted(),
        ensures
            final(self).wf(),
            final(self).pages() == old(self).pages().push(page@),
            final(self).collected() == old(self).collected() + page@,
            final(self).is_exhausted() == (next_cursor is None),
            final(self).cursor() == (match next_cursor {
                Some(c) => Some(c@),
                None => None::<Seq<char>>,
            }),
    {
        let ghost page_view = page@;
        self.items.append(&mut page);
        self.exhausted = next_cursor.is_none();
        self.continuation = next_cursor;
        proof {
            self.pages@ = self.pages@.push(page_view);
            old(self).pages@.lemma_flatten_push(page_view);
        }
    }

    /// Whether the service has signalled exhaustion.
    pub fn exhausted(&self) -> (r: bool)
        ensures
            r == self.is_exhausted(),
    {
        self.exhausted
    }

    /// The cursor the next page request must carry, when one is owed.
    pub fn continuation(&self) -> (r: &Option<String>)
        ensures
            self.cursor() == (match r {
                Some(c) => Some(c@),
                None => None::<Seq<char>>,
            }),
    {
        &self.continuation
    }

    /// Take the aggregate of an exhausted run: all pages, flattened in
    /// page order.
    pub fn into_items(self) -> (r: Vec<DocValue>)
        requires
            self.wf(),
            self.is_exhausted(),
        ensures
            r@ == self.pages().flatten(),
    {
        let QueryPager { items, .. } = self;
        items
    }
}

/// Law: a run whose pages were all empty aggregates to the empty
/// sequence — a pager over an empty result set returns no items.
pub proof fn lemma_empty_pages_aggregate_empty(pages: Seq<Seq<DocValue>>)
    requires
        forall|i: int| 0 <= i < pages.len() ==> #[trigger] pages[i].len() == 0,
    ensures
        pages.flatten().len() == 0,
    decreases pages.len(),
{
    if pages.len() == 0 {
        assert(pages.flatten() =~= Seq::<DocValue>::empty());
    } else {
        assert(pages[0].len() == 0);
        assert(pages.flatten() == pages.first().add(pages.drop_first().flatten()));
        assert(forall|i: int|
            0 <= i < pages.drop_first().len() ==> #[trigger] pages.drop_first()[i].len() == 0);
        lemma_empty_pages_aggregate_empty(pages.drop_first());
        assert(pages.flatten() =~= pages.drop_first().flatten());
    }
}

} // verus!
