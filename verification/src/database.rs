//! The category type that partitions the key space, and the interface that
//! every storage backend offers.

use vstd::prelude::*;

use crate::error::DatabaseError;

verus! {

/// Logical partition of the stored data. Every category is mapped to a
/// namespace of the underlying storage (a column of the engine, or a key
/// prefix of the in-memory backend); the mapping is total and stable.
#[derive(Debug, Clone, Copy, PartialEq, Eq, Structural)]
pub enum DataCategory {
    /// State data.
    State,
    /// Block headers.
    Headers,
    /// Block bodies.
    Bodies,
    /// Extras: block hash, receipt, and so on.
    Extra,
    /// Traces.
    Trace,
    /// Empty accounts bloom filter.
    AccountBloom,
    /// Kept for compatibility.
    Other,
}

/// The interface that every storage backend offers.
///
/// A backend exposes its visible contents through the abstract `entry`
/// function: the value a reader observes under a category and a key, or
/// absence. Each state-changing operation is pinned down by a spec
/// predicate that the backend defines over its own model, so that a caller
/// holding a concrete backend knows exactly what each call did.
pub trait Database: Sized + Send + Sync {
    /// The backend's internal invariant.
    spec fn wf(&self) -> bool;

    /// The value a reader observes under `category` and `key`.
    spec fn entry(&self, category: Option<DataCategory>, key: Seq<u8>) -> Option<Seq<u8>>;

    /// Whether a read operation may report an error.
    spec fn reads_fail(&self) -> bool;

    /// Whether a write operation may report an error other than the
    /// mismatched-batch rejection.
    spec fn writes_fail(&self) -> bool;

    /// What a successful `insert` did to the state.
    spec fn insert_post(
        self,
        post: Self,
        category: Option<DataCategory>,
        key: Seq<u8>,
        value: Seq<u8>,
    ) -> bool;

    /// What a successful `insert_batch` did to the state.
    spec fn insert_batch_post(
        self,
        post: Self,
        category: Option<DataCategory>,
        keys: Seq<Seq<u8>>,
        values: Seq<Seq<u8>>,
    ) -> bool;

    /// What a successful `remove` did to the state.
    spec fn remove_post(self, post: Self, category: Option<DataCategory>, key: Seq<u8>) -> bool;

    /// What a successful `remove_batch` did to the state.
    spec fn remove_batch_post(
        self,
        post: Self,
        category: Option<DataCategory>,
        keys: Seq<Seq<u8>>,
    ) -> bool;

    /// What `restore` did to the state and what it reported.
    spec fn restore_post(self, post: Self, new_db: Seq<char>, r: Result<
        (),
        DatabaseError,
    >) -> bool;

    /// What `iterator` reported.
    spec fn iterator_post(&self, category: Option<DataCategory>, r: Option<
        Vec<(Vec<u8>, Vec<u8>)>,
    >) -> bool;

    /// What `close` did to the state.
    spec fn close_post(self, post: Self) -> bool;

    /// Reads the value stored under `category` and `key`. A missing key is
    /// reported as an absent value, not as an error.
    fn get(&self, category: Option<DataCategory>, key: &[u8]) -> (r: Result<
        Option<Vec<u8>>,
        DatabaseError,
    >)
        requires
            self.wf(),
        ensures
            r matches Ok(v) ==> v.deep_view() == self.entry(category, key@),
            !self.reads_fail() ==> r is Ok,
    ;

    /// Reads many keys at once; the result is order-preserving and has one
    /// slot per requested key, each independently present or absent.
    fn get_batch(&self, category: Option<DataCategory>, keys: &[Vec<u8>]) -> (r: Result<
        Vec<Option<Vec<u8>>>,
        DatabaseError,
    >)
        requires
            self.wf(),
        ensures
            r matches Ok(vals) ==> vals@.len() == keys@.len() && forall|i: int|
                0 <= i < keys@.len() ==> (#[trigger] vals@[i]).deep_view() == self.entry(
                    category,
                    keys@[i]@,
                ),
            !self.reads_fail() ==> r is Ok,
    ;

    /// Stores `value` under `category` and `key`, replacing any previous
    /// value.
    fn insert(&mut self, category: Option<DataCategory>, key: Vec<u8>, value: Vec<u8>) -> (r:
        Result<(), DatabaseError>)
        requires
            old(self).wf(),
        ensures
            final(self).wf(),
            r is Ok ==> old(self).insert_post(*final(self), category, key@, value@),
            r is Err ==> *final(self) == *old(self),
            !old(self).writes_fail() ==> r is Ok,
    ;

    /// Stores every pair `keys[i] -> values[i]` as one atomic batch. A batch
    /// whose key and value counts differ is rejected as `InvalidData` before
    /// anything is written.
    fn insert_batch(
        &mut self,
        category: Option<DataCategory>,
        keys: Vec<Vec<u8>>,
        values: Vec<Vec<u8>>,
    ) -> (r: Result<(), DatabaseError>)
        requires
            old(self).wf(),
        ensures
            final(self).wf(),
            keys@.len() != values@.len() ==> r == Err::<(), DatabaseError>(
                DatabaseError::InvalidData,
            ),
            r == Err::<(), DatabaseError>(DatabaseError::InvalidData) ==> keys@.len()
                != values@.len(),
            r is Err ==> *final(self) == *old(self),
            r is Ok ==> keys@.len() == values@.len() && old(self).insert_batch_post(
                *final(self),
                category,
                keys.deep_view(),
                values.deep_view(),
            ),
            !old(self).writes_fail() && keys@.len() == values@.len() ==> r is Ok,
    ;

    /// Tells whether a value is stored under `category` and `key`, without
    /// materializing it.
    fn contains(&self, category: Option<DataCategory>, key: &[u8]) -> (r: Result<
        bool,
        DatabaseError,
    >)
        requires
            self.wf(),
        ensures
            r matches Ok(b) ==> b == self.entry(category, key@) is Some,
            !self.reads_fail() ==> r is Ok,
    ;

    /// Removes the value stored under `category` and `key`; removing an
    /// absent key is a no-op, not an error.
    fn remove(&mut self, category: Option<DataCategory>, key: &[u8]) -> (r: Result<
        (),
        DatabaseError,
    >)
        requires
            old(self).wf(),
        ensures
            final(self).wf(),
            r is Ok ==> old(self).remove_post(*final(self), category, key@),
            r is Err ==> *final(self) == *old(self),
            !old(self).writes_fail() ==> r is Ok,
    ;

    /// Removes every key of the batch as one atomic step.
    fn remove_batch(&mut self, category: Option<DataCategory>, keys: &[Vec<u8>]) -> (r: Result<
        (),
        DatabaseError,
    >)
        requires
            old(self).wf(),
        ensures
            final(self).wf(),
            r is Ok ==> old(self).remove_batch_post(*final(self), category, keys.deep_view()),
            r is Err ==> *final(self) == *old(self),
            !old(self).writes_fail() ==> r is Ok,
    ;

    /// Replaces the whole dataset with the one found at `new_db`.
    fn restore(&mut self, new_db: &str) -> (r: Result<(), DatabaseError>)
        requires
            old(self).wf(),
        ensures
            final(self).wf(),
            old(self).restore_post(*final(self), new_db@, r),
    ;

    /// Produces the stored pairs of the category in ascending lexicographic
    /// key order, or nothing where the backend cannot iterate.
    fn iterator(&self, category: Option<DataCategory>) -> (r: Option<Vec<(Vec<u8>, Vec<u8>)>>)
        requires
            self.wf(),
        ensures
            self.iterator_post(category, r),
    ;

    /// Releases the backing storage; closing an already-closed store is a
    /// no-op.
    fn close(&mut self)
        requires
            old(self).wf(),
        ensures
            final(self).wf(),
            old(self).close_post(*final(self)),
    ;
}

} // verus!
