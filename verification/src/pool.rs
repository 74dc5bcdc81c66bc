use crate::error::AppendError;
use crate::error::LookupError;
use crate::error::RangeError;
use crate::model::at_most;
use crate::model::exactly;
use crate::model::lemma_filter_none;
use crate::model::lemma_filter_step;
use crate::model::PoolView;
use crate::render::dump;
use crate::render::listing;
use crate::render::render_level_line;
use crate::render::render_log_line;
use crate::verbosity::Verbosity;
use std::collections::VecDeque;
use vstd::prelude::*;

verus! {

/// A log entry: its id, its message and its level.
pub type LogEntry = (u32, String, Verbosity);

/// A bounded pool of log entries, the most recent first, owned by one
/// caller.
pub struct LogPool {
    verbosity: Verbosity,
    max_size: usize,
    pool: VecDeque<LogEntry>,
    counter: u32,
}

impl View for LogPool {
    type V = PoolView;

    closed spec fn view(&self) -> PoolView {
        PoolView {
            threshold: self.verbosity,
            capacity: self.max_size as nat,
            counter: self.counter as nat,
            entries: self.pool.deep_view(),
        }
    }
}

impl LogPool {
    #[verifier::type_invariant]
    spec fn inv(self) -> bool {
        self@.wf()
    }

    /// A pool with the given threshold and capacity, holding nothing.
    pub fn initialize(threshold: Verbosity, capacity: usize) -> (pool: LogPool)
        ensures
            pool@ == PoolView::initial(threshold, capacity as nat),
            pool@.wf(),
    {
        let pool = LogPool { verbosity: threshold, max_size: capacity, pool: VecDeque::new(), counter: 0 };
        assert(pool.pool.deep_view() =~= Seq::empty());
        pool
    }

    /// A pool with the threshold `Debug`, under which every entry is
    /// echoed, and room for 1000 entries.
    pub fn initialize_default() -> (pool: LogPool)
        ensures
            pool@ == PoolView::initial(Verbosity::Debug, 1000),
            pool@.wf(),
    {
        LogPool::initialize(Verbosity::Debug, 1000)
    }

    /// The id that the next entry will take, which is the number of entries
    /// appended so far.
    pub fn next_id(&self) -> (id: u32)
        ensures
            id == self@.counter,
            self@.wf(),
    {
        proof {
            use_type_invariant(self);
        }
        self.counter
    }

    /// The number of retained entries.
    pub fn get_size(&self) -> (size: usize)
        ensures
            size == self@.entries.len(),
            size <= self@.capacity,
            self@.wf(),
    {
        proof {
            use_type_invariant(self);
        }
        self.pool.len()
    }

    /// The entry at `index`, counted from the most recent.
    pub fn get_entry(&self, index: usize) -> (r: Result<LogEntry, LookupError>)
        ensures
            match r {
                Ok(entry) => index < self@.entries.len() && entry.deep_view()
                    == self@.entries[index as int],
                Err(e) => index >= self@.entries.len() && e == LookupError::IndexOutOfBounds,
            },
            self@.wf(),
    {
        proof {
            use_type_invariant(self);
        }
        if index < self.pool.len() {
            let entry = &self.pool[index];
            Ok((entry.0, entry.1.clone(), entry.2))
        } else {
            Err(LookupError::IndexOutOfBounds)
        }
    }

    /// The entries at positions `start..end` whose level is at most
    /// `filter`, the most recent first.
    fn collect(&self, start: usize, end: usize, filter: Verbosity) -> (out: Vec<LogEntry>)
        requires
            start <= end <= self@.entries.len(),
        ensures
            out.deep_view() == self@.window(start as int, end as int, filter),
    {
        let mut out: Vec<LogEntry> = Vec::new();
        let mut i: usize = start;
        let ghost all = self.pool.deep_view();
        proof {
            lemma_filter_none(all, start as int, at_most(filter));
            assert(out.deep_view() =~= Seq::empty());
        }
        while i < end
            invariant
                start <= i <= end <= self.pool.len(),
                all == self.pool.deep_view(),
                out.deep_view() == all.subrange(start as int, i as int).filter(at_most(filter)),
            decreases end - i,
        {
            let entry = &self.pool[i];
            let ghost found = out.deep_view();
            proof {
                lemma_filter_step(all, start as int, i as int, at_most(filter));
            }
            if entry.2.is_within(filter) {
                out.push((entry.0, entry.1.clone(), entry.2));
                assert(out.deep_view() =~= found.push(all[i as int]));
            }
            i = i + 1;
        }
        out
    }

    /// The retained entries whose level is at most `filter`, the most
    /// recent first.
    pub fn get_log(&self, filter: Verbosity) -> (log: Vec<LogEntry>)
        ensures
            log.deep_view() == self@.retained(filter),
            self@.wf(),
    {
        proof {
            use_type_invariant(self);
        }
        let size = self.pool.len();
        assert(self@.entries.subrange(0, size as int) =~= self@.entries);
        self.collect(0, size, filter)
    }

    /// The entries at positions `start..end`, counted from the most recent,
    /// whose level is at most `filter`.
    pub fn get_entries(&self, start: usize, end: usize, filter: Verbosity) -> (r: Result<
        Vec<LogEntry>,
        RangeError,
    >)
        ensures
            match r {
                Ok(entries) => start <= end <= self@.entries.len() && entries.deep_view()
                    == self@.window(start as int, end as int, filter),
                Err(e) => !(start <= end <= self@.entries.len()) && e == RangeError::InvalidRange,
            },
            self@.wf(),
    {
        proof {
            use_type_invariant(self);
        }
        if start <= end && end <= self.pool.len() {
            Ok(self.collect(start, end, filter))
        } else {
            Err(RangeError::InvalidRange)
        }
    }

    /// One line for each retained entry, the most recent first, in the form
    /// `id:<id> <level> <message>`.
    pub fn log_lines(&self) -> (lines: Vec<String>)
        ensures
            lines.deep_view() == dump(self@.entries),
            self@.wf(),
    {
        proof {
            use_type_invariant(self);
        }
        let mut lines: Vec<String> = Vec::new();
        let mut i: usize = 0;
        let ghost all = self.pool.deep_view();
        assert(lines.deep_view() =~= dump(all.take(0)));
        while i < self.pool.len()
            invariant
                i <= self.pool.len(),
                all == self.pool.deep_view(),
                lines.deep_view() == dump(all.take(i as int)),
            decreases self.pool.len() - i,
        {
            let ghost written = lines.deep_view();
            lines.push(render_log_line(&self.pool[i]));
            assert(lines.deep_view() =~= written.push(crate::render::log_line(all[i as int])));
            assert(lines.deep_view() =~= dump(all.take(i + 1)));
            i = i + 1;
        }
        assert(all.take(i as int) =~= all);
        lines
    }

    /// One line for each retained entry whose level is exactly `level`, the
    /// most recent first, in the form `<id> <level> <message>`.
    pub fn level_lines(&self, level: Verbosity) -> (lines: Vec<String>)
        ensures
            lines.deep_view() == listing(self@.tagged(level)),
            self@.wf(),
    {
        proof {
            use_type_invariant(self);
        }
        let mut lines: Vec<String> = Vec::new();
        let mut i: usize = 0;
        let ghost all = self.pool.deep_view();
        proof {
            lemma_filter_none(all, 0, exactly(level));
            assert(lines.deep_view() =~= listing(Seq::empty()));
        }
        while i < self.pool.len()
            invariant
                i <= self.pool.len(),
                all == self.pool.deep_view(),
                lines.deep_view() == listing(all.subrange(0, i as int).filter(exactly(level))),
            decreases self.pool.len() - i,
        {
            let entry = &self.pool[i];
            let ghost written = lines.deep_view();
            proof {
                lemma_filter_step(all, 0, i as int, exactly(level));
            }
            if entry.2 == level {
                lines.push(render_level_line(entry));
                assert(lines.deep_view() =~= written.push(
                    crate::render::level_line(all[i as int]),
                ));
                assert(lines.deep_view() =~= listing(
                    all.subrange(0, i as int).filter(exactly(level)).push(all[i as int]),
                ));
            }
            i = i + 1;
        }
        assert(all.subrange(0, i as int) =~= all);
        lines
    }

    /// Adds an entry at the most recent position and says whether it is to
    /// be echoed.
    pub fn append(&mut self, message: &str, level: Verbosity) -> (echo: bool)
        requires
            old(self)@.counter < u32::MAX,
        ensures
            final(self)@ == old(self)@.append(message@, level),
            echo == old(self)@.echoes(level),
            old(self)@.wf(),
            final(self)@.wf(),
    {
        proof {
            use_type_invariant(&*self);
        }
        let echo = level.is_within(self.verbosity);
        let text = message.to_owned();
        // The entries and the counter change together, so the pool is taken
        // apart and put together again: what stands in its place meanwhile
        // is an empty pool, which is well formed too.
        let mut held = LogPool::initialize(self.verbosity, self.max_size);
        std::mem::swap(self, &mut held);
        let LogPool { verbosity, max_size, mut pool, counter } = held;
        let ghost before = pool.deep_view();
        let entry: LogEntry = (counter, text, level);
        let ghost pushed = seq![entry.deep_view()] + before;
        pool.push_front(entry);
        assert(pool.deep_view() =~= pushed);
        if pool.len() > max_size {
            pool.pop_back();
            assert(pool.deep_view() =~= pushed.drop_last());
        }
        *self = LogPool { verbosity, max_size, pool, counter: counter + 1 };
        echo
    }

    /// Adds an entry as [`LogPool::append`] does, unless the pool has given
    /// out every id: then it fails and the pool stays as it is.
    pub fn try_append(&mut self, message: &str, level: Verbosity) -> (r: Result<bool, AppendError>)
        ensures
            match r {
                Ok(echo) => {
                    &&& old(self)@.counter < u32::MAX
                    &&& final(self)@ == old(self)@.append(message@, level)
                    &&& echo == old(self)@.echoes(level)
                },
                Err(e) => {
                    &&& old(self)@.counter == u32::MAX
                    &&& final(self)@ == old(self)@
                    &&& e == AppendError::IdsExhausted
                },
            },
            old(self)@.wf(),
            final(self)@.wf(),
    {
        if self.next_id() == u32::MAX {
            Err(AppendError::IdsExhausted)
        } else {
            Ok(self.append(message, level))
        }
    }
}

} // verus!
