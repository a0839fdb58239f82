use vstd::prelude::*;
use crate::classifier::{failure_error, failure_model};
use crate::error::Error;
use crate::json::{field, find_member, Json};
use crate::lifecycle::Reply;
use crate::text::same_text;

verus! {

/// Number of documents sent in one bulk request.
pub const CHUNK_SIZE: usize = 10;

/// Whether an item of a bulk response reports a created document.
pub open spec fn item_created(item: Json) -> bool {
    match field(item, "index"@) {
        Some(op) => match field(op, "result"@) {
            Some(Json::Str(s)) => s@ == "created"@,
            _ => false,
        },
        None => false,
    }
}

/// Number of items that report a created document.
pub open spec fn count_created(items: Seq<Json>) -> nat
    decreases items.len(),
{
    if items.len() == 0 {
        0
    } else {
        count_created(items.drop_last()) + if item_created(items.last()) {
            1nat
        } else {
            0nat
        }
    }
}

/// Number of created documents that a bulk response reports for the `sent`
/// operations of its request: items past the `sent`-th answer nothing that
/// was sent, and a response without an item array reports none.
pub open spec fn created_in(json: Json, sent: nat) -> nat {
    match field(json, "items"@) {
        Some(Json::Array(items)) => count_created(
            items@.take(if sent <= items@.len() { sent as int } else { items@.len() as int }),
        ),
        _ => 0,
    }
}

/// When a bulk response has one item per operation sent, the count is that
/// of all its items whose result is `created`, and at most the number sent.
pub proof fn lemma_created_in_full_reply(json: Json, items: Vec<Json>)
    requires
        field(json, "items"@) == Some(Json::Array(items)),
    ensures
        created_in(json, items@.len()) == count_created(items@),
        count_created(items@) <= items@.len(),
{
    assert(items@.take(items@.len() as int) =~= items@);
    lemma_count_created_bound(items@);
}

proof fn lemma_count_created_bound(items: Seq<Json>)
    ensures
        count_created(items) <= items.len(),
    decreases items.len(),
{
    if items.len() > 0 {
        lemma_count_created_bound(items.drop_last());
    }
}

/// Whether an item of a bulk response reports a created document.
pub fn is_created(item: &Json) -> (r: bool)
    ensures
        r == item_created(*item),
{
    if let Json::Object(entries) = item {
        if let Some(op) = find_member(entries, "index") {
            if let Json::Object(op_entries) = op {
                if let Some(Json::Str(s)) = find_member(op_entries, "result") {
                    return same_text(s.as_str(), "created");
                }
            }
        }
    }
    false
}

/// Counts the created documents that a bulk response reports for `sent` operations.
pub fn created_items(json: &Json, sent: usize) -> (r: usize)
    ensures
        r == created_in(*json, sent as nat),
        r <= sent,
{
    if let Json::Object(entries) = json {
        if let Some(Json::Array(items)) = find_member(entries, "items") {
            let n: usize = if sent <= items.len() {
                sent
            } else {
                items.len()
            };
            let mut count: usize = 0;
            let mut i: usize = 0;
            while i < n
                invariant
                    n <= items@.len(),
                    n <= sent,
                    i <= n,
                    count == count_created(items@.take(i as int)),
                    count <= i,
                decreases n - i,
            {
                assert(items@.take(i + 1).drop_last() =~= items@.take(i as int));
                if is_created(&items[i]) {
                    count = count + 1;
                }
                i = i + 1;
            }
            return count;
        }
    }
    0
}

/// Running tally of a bulk ingestion: requests sent, documents sent in them,
/// and documents that the backend reported as created.
#[derive(Debug)]
pub struct BulkTally {
    pub requests: usize,
    pub documents: usize,
    pub created: usize,
    /// Whether every batch so far was full, so that another may follow.
    pub accepting: bool,
}

impl BulkTally {
    /// Every batch but the last is full, and no more documents are reported
    /// as created than were sent.
    pub open spec fn wf(&self) -> bool {
        &&& self.created <= self.documents
        &&& self.requests <= self.documents
        &&& self.accepting ==> self.documents == CHUNK_SIZE * self.requests
        &&& !self.accepting ==> {
            &&& self.requests >= 1
            &&& CHUNK_SIZE * (self.requests - 1) < self.documents < CHUNK_SIZE * self.requests
        }
    }

    /// A tally before the first batch.
    pub fn new() -> (r: BulkTally)
        ensures
            r.wf(),
            r.requests == 0,
            r.documents == 0,
            r.created == 0,
            r.accepting,
    {
        BulkTally { requests: 0, documents: 0, created: 0, accepting: true }
    }

    /// Records the reply to the bulk request of a batch of `batch_len`
    /// documents. A failed batch adds nothing to the created count and hands
    /// back its classified error; the tally goes on either way.
    pub fn record(&mut self, batch_len: usize, reply: Reply) -> (r: Option<Error>)
        requires
            old(self).wf(),
            old(self).accepting,
            1 <= batch_len <= CHUNK_SIZE,
            old(self).documents + batch_len <= usize::MAX,
        ensures
            final(self).wf(),
            final(self).requests == old(self).requests + 1,
            final(self).documents == old(self).documents + batch_len,
            final(self).accepting == (batch_len == CHUNK_SIZE),
            match reply {
                Reply::Success(json) => {
                    &&& final(self).created == old(self).created + created_in(json, batch_len as nat)
                    &&& r is None
                },
                Reply::Failure(exception) => {
                    &&& final(self).created == old(self).created
                    &&& r matches Some(e) && e@ == failure_model(exception)
                },
            },
    {
        self.requests = self.requests + 1;
        self.documents = self.documents + batch_len;
        self.accepting = batch_len == CHUNK_SIZE;
        match reply {
            Reply::Success(json) => {
                let n = created_items(&json, batch_len);
                self.created = self.created + n;
                None
            },
            Reply::Failure(exception) => Some(failure_error(exception)),
        }
    }

    /// The number of documents reported as created so far.
    pub fn count(&self) -> (r: usize)
        ensures
            r == self.created,
    {
        self.created
    }
}

/// Over any run of batches, the tally has sent one request per started
/// batch of ten documents, and counts no more created documents than were
/// sent.
pub proof fn lemma_bulk_requests(t: BulkTally)
    requires
        t.wf(),
    ensures
        t.requests == (t.documents + CHUNK_SIZE - 1) / CHUNK_SIZE as int,
        t.created <= t.documents,
{
}

} // verus!
