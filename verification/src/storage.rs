//! The contract's persistent storage: the stream-id counter and the streams
//! keyed by id (see [`DataKey`](crate::stream::DataKey)).

use vstd::prelude::*;
use std::collections::BTreeMap;

use crate::errors::StreamError;
use crate::stream::Stream;

verus! {

broadcast use vstd::std_specs::btree::group_btree_axioms;

/// Persistent storage of the contract: the next stream id to hand out
/// (absent until the first stream is created) and every stream by id.
pub struct StreamStore {
    next_id: Option<u64>,
    streams: BTreeMap<u64, Stream>,
}

impl StreamStore {
    /// The stored `NextStreamId` entry.
    pub closed spec fn counter(&self) -> Option<u64> {
        self.next_id
    }

    /// The stored streams, by id.
    pub closed spec fn contents(&self) -> Map<u64, Stream> {
        self.streams@
    }

    /// Storage with no entries.
    pub fn new() -> (s: StreamStore)
        ensures
            s.counter() is None,
            s.contents() == Map::<u64, Stream>::empty(),
    {
        StreamStore { next_id: None, streams: BTreeMap::new() }
    }
}

/// `id + 1`, saturating at `u64::MAX`.
pub open spec fn successor_id(id: u64) -> u64 {
    if id == u64::MAX { id } else { (id + 1) as u64 }
}

/// The id that the counter entry `stored` hands out (1 while no entry
/// exists) and the counter value stored after it (saturating).
pub open spec fn allocation(stored: Option<u64>) -> (u64, u64) {
    let id = match stored {
        Some(n) => n,
        None => 1u64,
    };
    (id, successor_id(id))
}

/// Given the stored counter entry, returns the id to hand out and the
/// counter value to store back.
pub fn allocate_stream_id(stored: Option<u64>) -> (r: (u64, u64))
    ensures
        r == allocation(stored),
{
    let id: u64 = match stored {
        Some(n) => n,
        None => 1,
    };
    (id, id.saturating_add(1))
}

/// Hands out the next stream id (1-based) and stores the incremented counter.
pub fn next_stream_id(store: &mut StreamStore) -> (id: u64)
    ensures
        id == allocation(old(store).counter()).0,
        final(store).counter() == Some(allocation(old(store).counter()).1),
        final(store).contents() == old(store).contents(),
{
    let (id, next) = allocate_stream_id(store.next_id);
    store.next_id = Some(next);
    id
}

/// Loads a stream, or returns [`StreamError::StreamNotFound`].
pub fn get_stream(store: &StreamStore, id: u64) -> (r: Result<Stream, StreamError>)
    ensures
        r == (if store.contents().contains_key(id) {
            Ok::<Stream, StreamError>(store.contents()[id])
        } else {
            Err::<Stream, StreamError>(StreamError::StreamNotFound)
        }),
{
    broadcast use vstd::laws_cmp::group_laws_cmp;
    match store.streams.get(&id) {
        Some(s) => Ok(*s),
        None => Err(StreamError::StreamNotFound),
    }
}

/// Persists a stream under its id.
pub fn put_stream(store: &mut StreamStore, stream: &Stream)
    ensures
        final(store).contents() == old(store).contents().insert(stream.id, *stream),
        final(store).counter() == old(store).counter(),
{
    broadcast use vstd::laws_cmp::group_laws_cmp;
    store.streams.insert(stream.id, *stream);
}

} // verus!
