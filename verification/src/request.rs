//! A unit of work: a job payload plus the per-job context map that
//! middleware and backends attach bookkeeping to (a retry count, a trace
//! id). A backend creates a request when it adapts a raw item; the request
//! is consumed exactly once by a worker, and only context enrichment by
//! middleware touches it after handoff.

use vstd::prelude::*;

verus! {

/// Per-job key-to-value attachments. Later insertions for the same key
/// shadow earlier ones, so the map behaves as "last write wins".
pub struct ContextMap {
    entries: Vec<(u64, u64)>,
}

/// The value attached under `key`, taking the latest insertion.
pub open spec fn lookup(entries: Seq<(u64, u64)>, key: u64) -> Option<u64>
    decreases entries.len(),
{
    if entries.len() == 0 {
        None::<u64>
    } else if entries.last().0 == key {
        Some(entries.last().1)
    } else {
        lookup(entries.drop_last(), key)
    }
}

impl ContextMap {
    /// The attachment entries in insertion order.
    pub closed spec fn view(self) -> Seq<(u64, u64)> {
        self.entries@
    }

    /// A context with no attachments.
    pub fn empty() -> (c: ContextMap)
        ensures
            c@ == Seq::<(u64, u64)>::empty(),
    {
        ContextMap { entries: Vec::new() }
    }

    /// Attach `value` under `key`, shadowing any earlier attachment for the
    /// same key and leaving every other key unchanged.
    pub fn insert(&mut self, key: u64, value: u64)
        ensures
            final(self)@ == old(self)@.push((key, value)),
            lookup(final(self)@, key) == Some(value),
            forall|k: u64| k != key ==> lookup(final(self)@, k) == lookup(old(self)@, k),
    {
        proof {
            lemma_lookup_push(self@, key, value);
        }
        self.entries.push((key, value));
    }

    /// The value attached under `key`, if any.
    pub fn get(&self, key: u64) -> (r: Option<u64>)
        ensures
            r == lookup(self@, key),
    {
        let n = self.entries.len();
        let mut i: usize = n;
        proof {
            assert(self@.take(n as int) =~= self@);
        }
        while i > 0
            invariant
                i <= n,
                n == self@.len(),
                lookup(self@, key) == lookup(self@.take(i as int), key),
            decreases i,
        {
            i = i - 1;
            let (k, v) = self.entries[i];
            proof {
                assert(self@.take(i + 1).last() == self@[i as int]);
                assert(self@.take(i + 1).drop_last() =~= self@.take(i as int));
            }
            if k == key {
                return Some(v);
            }
        }
        assert(self@.take(0).len() == 0);
        None
    }
}

/// Attaching a pair makes its key map to its value and leaves every other
/// key's attachment as it was.
proof fn lemma_lookup_push(entries: Seq<(u64, u64)>, key: u64, value: u64)
    ensures
        lookup(entries.push((key, value)), key) == Some(value),
        forall|k: u64| k != key ==> lookup(entries.push((key, value)), k) == lookup(entries, k),
{
    assert(entries.push((key, value)).drop_last() =~= entries);
}

/// A job to execute: the payload handed to the handler plus the context map.
pub struct Request<T> {
    /// The job payload.
    pub args: T,
    /// Per-job attachments set by middleware and backends.
    pub context: ContextMap,
}

impl<T> Request<T> {
    /// Package a raw payload as a request with an empty context, the form in
    /// which a backend surfaces an adapted item.
    pub fn new(args: T) -> (r: Request<T>)
        ensures
            r.args == args,
            r.context@ == Seq::<(u64, u64)>::empty(),
    {
        Request { args, context: ContextMap::empty() }
    }
}

} // verus!
