use crate::verbosity::Verbosity;
use vstd::prelude::*;

verus! {

/// A log entry as a mathematical value: its id, its message and its level.
pub type EntryModel = (u32, Seq<char>, Verbosity);

/// A pool as a mathematical value.
pub struct PoolView {
    /// Entries at or below this level are echoed when they are appended.
    pub threshold: Verbosity,
    /// The most entries the pool retains.
    pub capacity: nat,
    /// The number of entries appended so far, which is the next id.
    pub counter: nat,
    /// The retained entries, the most recent first.
    pub entries: Seq<EntryModel>,
}

/// The test that a query with the bound `filter` applies to an entry: its
/// level is at most `filter`.
pub open spec fn at_most(filter: Verbosity) -> spec_fn(EntryModel) -> bool {
    |e: EntryModel| e.2.within(filter)
}

/// The test that a query for the level `level` applies to an entry: its
/// level is exactly `level`.
pub open spec fn exactly(level: Verbosity) -> spec_fn(EntryModel) -> bool {
    |e: EntryModel| e.2 == level
}

impl PoolView {
    /// The pool right after it is created.
    pub open spec fn initial(threshold: Verbosity, capacity: nat) -> PoolView {
        PoolView { threshold, capacity, counter: 0, entries: Seq::empty() }
    }

    /// What holds of every pool: it retains the most recent entries, as many
    /// as were appended or as the capacity allows, and the entry at
    /// position `i` carries the id `counter - 1 - i`.
    pub open spec fn wf(self) -> bool {
        &&& self.counter <= u32::MAX
        &&& self.entries.len() == if self.counter <= self.capacity {
            self.counter
        } else {
            self.capacity
        }
        &&& forall|i: int|
            0 <= i < self.entries.len() ==> (#[trigger] self.entries[i]).0 == self.counter - 1 - i
    }

    /// Whether an entry of this level is echoed to the console when it is
    /// appended.
    pub open spec fn echoes(self, level: Verbosity) -> bool {
        level.within(self.threshold)
    }

    /// The pool after one more entry: the entry takes the next id and the
    /// most recent position, the oldest entry leaves if the pool is over its
    /// capacity, and the counter advances by one either way.
    pub open spec fn append(self, message: Seq<char>, level: Verbosity) -> PoolView {
        let pushed = seq![(self.counter as u32, message, level)] + self.entries;
        PoolView {
            counter: self.counter + 1,
            entries: if pushed.len() > self.capacity {
                pushed.drop_last()
            } else {
                pushed
            },
            ..self
        }
    }

    /// The pool after a run of entries, appended in order.
    pub open spec fn append_all(self, items: Seq<(Seq<char>, Verbosity)>) -> PoolView
        decreases items.len(),
    {
        if items.len() == 0 {
            self
        } else {
            self.append_all(items.drop_last()).append(items.last().0, items.last().1)
        }
    }

    /// The retained entries whose level is at most `filter`, in order.
    pub open spec fn retained(self, filter: Verbosity) -> Seq<EntryModel> {
        self.entries.filter(at_most(filter))
    }

    /// The entries at positions `start..end` whose level is at most
    /// `filter`, in order.
    pub open spec fn window(self, start: int, end: int, filter: Verbosity) -> Seq<EntryModel> {
        self.entries.subrange(start, end).filter(at_most(filter))
    }

    /// The retained entries whose level is exactly `level`, in order.
    pub open spec fn tagged(self, level: Verbosity) -> Seq<EntryModel> {
        self.entries.filter(exactly(level))
    }
}

/// Filtering one more position of a sequence either adds the element at
/// that position or changes nothing.
pub proof fn lemma_filter_step<A>(s: Seq<A>, start: int, i: int, pred: spec_fn(A) -> bool)
    requires
        0 <= start <= i < s.len(),
    ensures
        s.subrange(start, i + 1).filter(pred) == if pred(s[i]) {
            s.subrange(start, i).filter(pred).push(s[i])
        } else {
            s.subrange(start, i).filter(pred)
        },
{
    reveal(Seq::filter);
    let t = s.subrange(start, i + 1);
    assert(t.drop_last() =~= s.subrange(start, i));
    assert(t.last() == s[i]);
}

/// Filtering no position of a sequence gives nothing.
pub proof fn lemma_filter_none<A>(s: Seq<A>, start: int, pred: spec_fn(A) -> bool)
    requires
        0 <= start <= s.len(),
    ensures
        s.subrange(start, start).filter(pred) == Seq::<A>::empty(),
{
    reveal(Seq::filter);
    assert(s.subrange(start, start) =~= Seq::<A>::empty());
}

} // verus!
