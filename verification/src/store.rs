//! The decision core of the persistent store: the open/closed lifecycle,
//! the resolution of a category to an engine column, the validation of
//! batches, and the mapping of engine replies onto the error taxonomy.
//!
//! The engine itself lives outside this crate; an embedding performs the
//! engine calls and consults this core for every decision, so that the
//! semantics of each operation are fixed here.

use vstd::prelude::*;

use crate::columns::{map_columns, spec_map_columns};
use crate::config::Config;
use crate::database::DataCategory;
use crate::error::DatabaseError;

verus! {

/// How a read (`get`, `get_batch`, `contains`, `iterator`) must proceed.
pub enum ReadPlan {
    /// The store is closed: the read observes an empty store and reports
    /// absence without touching the engine.
    Absent,
    /// The store is open: query the engine, on the named column when one is
    /// given, else on the default space.
    Query { column: Option<&'static str> },
}

/// How a write (`insert`, `remove`, or a validated batch) must proceed.
pub enum WritePlan {
    /// The store is closed: the write is a silent no-op.
    Skip,
    /// The store is open: apply the write through the engine, on the named
    /// column when one is given, else on the default space.
    Apply { column: Option<&'static str> },
}

/// Whether `column` names exactly the engine column that backs `category`.
pub open spec fn column_matches(
    category: Option<DataCategory>,
    column: Option<&'static str>,
) -> bool {
    match (category, column) {
        (Some(c), Some(name)) => name@ == spec_map_columns(c),
        (None, None) => true,
        _ => false,
    }
}

/// The lifecycle state of a persistent store: its path, its configuration,
/// and whether the engine handle is live. Closing releases the handle state
/// and is idempotent; while closed, every read observes an empty store and
/// every write is a silent no-op, until the handle is reacquired.
pub struct StoreCore {
    open: bool,
    path: String,
    config: Config,
}

impl StoreCore {
    /// Whether the engine handle is live.
    pub closed spec fn is_open(&self) -> bool {
        self.open
    }

    /// The canonical path of the store's directory.
    pub closed spec fn spec_path(&self) -> Seq<char> {
        self.path@
    }

    /// The configuration the store was opened with.
    pub closed spec fn spec_config(&self) -> Config {
        self.config
    }

    /// The core of a store whose engine was just opened at `path` with
    /// `config`.
    pub fn new_open(path: String, config: Config) -> (core: StoreCore)
        ensures
            core.is_open(),
            core.spec_path() == path@,
            core.spec_config() == config,
    {
        StoreCore { open: true, path, config }
    }

    /// Whether the store is open.
    pub fn opened(&self) -> (r: bool)
        ensures
            r == self.is_open(),
    {
        self.open
    }

    /// The canonical path of the store's directory.
    pub fn path(&self) -> (r: &str)
        ensures
            r@ == self.spec_path(),
    {
        self.path.as_str()
    }

    /// The configuration the store was opened with.
    pub fn config(&self) -> (r: &Config)
        ensures
            *r == self.spec_config(),
    {
        &self.config
    }

    /// Releases the handle state; closing an already-closed store is a
    /// no-op. Afterwards every read observes an empty store and every write
    /// is a silent no-op.
    pub fn close(&mut self)
        ensures
            !final(self).is_open(),
            final(self).spec_path() == old(self).spec_path(),
            final(self).spec_config() == old(self).spec_config(),
    {
        self.open = false;
    }

    /// Marks the handle live again, after the engine was reopened at the
    /// store's path with its original configuration.
    pub fn reopened(&mut self)
        ensures
            final(self).is_open(),
            final(self).spec_path() == old(self).spec_path(),
            final(self).spec_config() == old(self).spec_config(),
    {
        self.open = true;
    }

    /// Decides how a read under `category` proceeds: a closed store answers
    /// absence by itself, an open store queries the engine on the column
    /// that backs the category.
    pub fn plan_read(&self, category: Option<DataCategory>) -> (r: ReadPlan)
        ensures
            self.is_open() <==> r is Query,
            r matches ReadPlan::Query { column } ==> column_matches(category, column),
    {
        if !self.open {
            ReadPlan::Absent
        } else {
            match category {
                Some(c) => ReadPlan::Query { column: Some(map_columns(c)) },
                None => ReadPlan::Query { column: None },
            }
        }
    }

    /// Decides how a single-key write under `category` proceeds: a closed
    /// store skips it silently, an open store applies it through the engine
    /// on the column that backs the category.
    pub fn plan_write(&self, category: Option<DataCategory>) -> (r: WritePlan)
        ensures
            self.is_open() <==> r is Apply,
            r matches WritePlan::Apply { column } ==> column_matches(category, column),
    {
        if !self.open {
            WritePlan::Skip
        } else {
            match category {
                Some(c) => WritePlan::Apply { column: Some(map_columns(c)) },
                None => WritePlan::Apply { column: None },
            }
        }
    }

    /// Validates an insert batch and decides how it proceeds. A batch whose
    /// key and value counts differ is rejected as `InvalidData` before
    /// anything is written, whether the store is open or closed.
    pub fn plan_insert_batch(
        &self,
        category: Option<DataCategory>,
        keys: &Vec<Vec<u8>>,
        values: &Vec<Vec<u8>>,
    ) -> (r: Result<WritePlan, DatabaseError>)
        ensures
            keys@.len() != values@.len() ==> (r matches Err(e) && e is InvalidData),
            keys@.len() == values@.len() ==> (r matches Ok(p) && (self.is_open() <==> p is Apply)
                && (p matches WritePlan::Apply { column } ==> column_matches(category, column))),
    {
        if keys.len() != values.len() {
            Err(DatabaseError::InvalidData)
        } else {
            Ok(self.plan_write(category))
        }
    }
}

/// What the engine reported back for one operation.
pub enum EngineReply<T> {
    /// The operation succeeded with this result.
    Done(T),
    /// The column that should back the requested category does not exist.
    MissingColumn,
    /// The engine failed with this detail.
    Failed(String),
}

/// Maps an engine reply onto the error taxonomy: success passes through, a
/// missing column is the caller's category mismatch (`NotFound`), and an
/// engine failure is wrapped as `Internal` with its detail preserved.
pub fn interpret_reply<T>(reply: EngineReply<T>) -> (r: Result<T, DatabaseError>)
    ensures
        reply matches EngineReply::Done(v) ==> r == Ok::<T, DatabaseError>(v),
        reply is MissingColumn ==> r == Err::<T, DatabaseError>(DatabaseError::NotFound),
        reply matches EngineReply::Failed(d) ==> r == Err::<T, DatabaseError>(
            DatabaseError::Internal(d),
        ),
{
    match reply {
        EngineReply::Done(v) => Ok(v),
        EngineReply::MissingColumn => Err(DatabaseError::NotFound),
        EngineReply::Failed(d) => Err(DatabaseError::Internal(d)),
    }
}

} // verus!
