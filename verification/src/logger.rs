pub use crate::verbosity::Verbosity;

use crate::error::AppendError;
use crate::error::LockFailure;
use crate::error::LookupError;
use crate::error::RangeError;
use crate::model::PoolView;
use crate::pool::LogEntry;
use crate::pool::LogPool;
use crate::render::dump;
use crate::render::listing;
use std::sync::Arc;
use std::sync::Mutex;
use vstd::prelude::*;

verus! {

/// A handle to a pool that many callers share.
///
/// The handle keeps the threshold and the capacity it was made with: they
/// never change, so they are read without the lock, and a contract can
/// speak of them. The entries and the counter sit behind a lock, and every
/// operation holds the lock from its first read to its last write, so no
/// caller sees a pool that is half changed. Between two operations of one
/// caller another caller may have appended: of what is read through the
/// lock a contract says only that it comes from some pool that satisfies
/// [`PoolView::wf`]. What each operation does to a pool that is known is
/// stated on [`LogPool`].
///
/// A clone of a handle refers to the same pool.
#[derive(Clone)]
pub struct MLogger {
    verbosity: Verbosity,
    max_size: usize,
    pool: Arc<Mutex<LogPool>>,
}

impl MLogger {
    /// The level up to which appended entries are echoed.
    pub closed spec fn spec_threshold(&self) -> Verbosity {
        self.verbosity
    }

    /// The most entries the pool behind the handle was made to retain.
    pub closed spec fn spec_capacity(&self) -> usize {
        self.max_size
    }

    /// A handle to a new pool with the threshold `Debug`, under which every
    /// entry is echoed, and room for 1000 entries.
    pub fn init_default() -> (logger: MLogger)
        ensures
            logger.threshold() == Verbosity::Debug,
            logger.capacity() == 1000,
    {
        MLogger::init(Verbosity::Debug, 1000)
    }

    /// A handle to a new pool with the given threshold and capacity.
    pub fn init(verbosity: Verbosity, max_size: usize) -> (logger: MLogger)
        ensures
            logger.threshold() == verbosity,
            logger.capacity() == max_size,
    {
        MLogger {
            verbosity,
            max_size,
            pool: Arc::new(Mutex::new(LogPool::initialize(verbosity, max_size))),
        }
    }

    /// The level up to which appended entries are echoed.
    #[verifier::when_used_as_spec(spec_threshold)]
    pub fn threshold(&self) -> (threshold: Verbosity)
        ensures
            threshold == self.spec_threshold(),
    {
        self.verbosity
    }

    /// The most entries the pool behind the handle was made to retain.
    #[verifier::when_used_as_spec(spec_capacity)]
    pub fn capacity(&self) -> (capacity: usize)
        ensures
            capacity == self.spec_capacity(),
    {
        self.max_size
    }

    /// Appends an entry and says whether it is to be echoed to the console:
    /// it is if its level is at most the handle's threshold.
    ///
    /// Fails, and changes nothing, if the lock is poisoned or if the pool has
    /// given out every id.
    pub fn log(&self, log: &str, verbosity: Verbosity) -> (r: Result<bool, AppendError>)
        ensures
            match r {
                Ok(echo) => echo == verbosity.within(self.threshold()),
                Err(AppendError::IdsExhausted) => exists|p: PoolView| #[trigger]
                    p.wf() && p.counter == u32::MAX,
                Err(AppendError::LockFailure) => true,
            },
    {
        match self.pool.lock() {
            Ok(mut guard) => match guard.try_append(log, verbosity) {
                Ok(_) => Ok(verbosity.is_within(self.verbosity)),
                Err(e) => Err(e),
            },
            Err(_) => Err(AppendError::LockFailure),
        }
    }

    /// The entry at `index`, counted from the most recent.
    pub fn get_entry(&self, index: usize) -> (r: Result<LogEntry, LookupError>)
        ensures
            match r {
                Ok(entry) => exists|p: PoolView| #[trigger]
                    p.wf() && index < p.entries.len() && entry.deep_view() == p.entries[index as int],
                Err(LookupError::IndexOutOfBounds) => exists|p: PoolView| #[trigger]
                    p.wf() && index >= p.entries.len(),
                Err(LookupError::LockFailure) => true,
            },
    {
        match self.pool.lock() {
            Ok(guard) => guard.get_entry(index),
            Err(_) => Err(LookupError::LockFailure),
        }
    }

    /// The number of retained entries.
    pub fn get_size(&self) -> (r: Result<usize, LockFailure>)
        ensures
            r matches Ok(size) ==> exists|p: PoolView| #[trigger]
                p.wf() && size == p.entries.len() && size <= p.capacity,
    {
        match self.pool.lock() {
            Ok(guard) => Ok(guard.get_size()),
            Err(_) => Err(LockFailure),
        }
    }

    /// The retained entries whose level is at most `filter`, the most
    /// recent first.
    pub fn get_log(&self, filter: Verbosity) -> (r: Result<Vec<LogEntry>, LockFailure>)
        ensures
            r matches Ok(log) ==> exists|p: PoolView| #[trigger]
                p.wf() && log.deep_view() == p.retained(filter),
    {
        match self.pool.lock() {
            Ok(guard) => Ok(guard.get_log(filter)),
            Err(_) => Err(LockFailure),
        }
    }

    /// The entries at positions `start_index..end_index`, counted from the
    /// most recent, whose level is at most `filter`.
    pub fn get_entries(&self, start_index: usize, end_index: usize, filter: Verbosity) -> (r:
        Result<Vec<LogEntry>, RangeError>)
        ensures
            start_index > end_index ==> r is Err,
            match r {
                Ok(entries) => exists|p: PoolView| #[trigger]
                    p.wf() && start_index <= end_index <= p.entries.len() && entries.deep_view()
                        == p.window(start_index as int, end_index as int, filter),
                Err(RangeError::InvalidRange) => exists|p: PoolView| #[trigger]
                    p.wf() && !(start_index <= end_index <= p.entries.len()),
                Err(RangeError::LockFailure) => true,
            },
    {
        match self.pool.lock() {
            Ok(guard) => guard.get_entries(start_index, end_index, filter),
            Err(_) => Err(RangeError::LockFailure),
        }
    }

    /// The lines that a dump of the pool writes, one for each retained
    /// entry, the most recent first.
    pub fn print_log(&self) -> (r: Result<Vec<String>, LockFailure>)
        ensures
            r matches Ok(lines) ==> exists|p: PoolView| #[trigger]
                p.wf() && lines.deep_view() == dump(p.entries),
    {
        match self.pool.lock() {
            Ok(guard) => Ok(guard.log_lines()),
            Err(_) => Err(LockFailure),
        }
    }

    /// The lines that a listing of one level writes, one for each retained
    /// entry whose level is exactly `predicator`, the most recent first.
    pub fn print_log_level(&self, predicator: Verbosity) -> (r: Result<Vec<String>, LockFailure>)
        ensures
            r matches Ok(lines) ==> exists|p: PoolView| #[trigger]
                p.wf() && lines.deep_view() == listing(p.tagged(predicator)),
    {
        match self.pool.lock() {
            Ok(guard) => Ok(guard.level_lines(predicator)),
            Err(_) => Err(LockFailure),
        }
    }
}

} // verus!
