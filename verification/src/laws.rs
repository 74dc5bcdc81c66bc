//! What follows from the model of a pool, for every pool and every run of
//! entries.
use crate::model::at_most;
use crate::model::exactly;
use crate::model::EntryModel;
use crate::model::PoolView;
use crate::pool::LogEntry;
use crate::pool::LogPool;
use crate::verbosity::Verbosity;
use vstd::prelude::*;

verus! {

/// The most recent entries of a run, as a pool of the given capacity
/// retains them: as many as the capacity allows, the last of the run first,
/// each with its position in the run as its id.
pub open spec fn most_recent(items: Seq<(Seq<char>, Verbosity)>, capacity: nat) -> Seq<EntryModel> {
    let n = items.len();
    Seq::new(
        if n <= capacity {
            n
        } else {
            capacity
        },
        |i: int| ((n - 1 - i) as u32, items[n - 1 - i].0, items[n - 1 - i].1),
    )
}

/// A new pool is well formed and holds nothing.
pub proof fn lemma_initial_wf(threshold: Verbosity, capacity: nat)
    ensures
        PoolView::initial(threshold, capacity).wf(),
        PoolView::initial(threshold, capacity).entries.len() == 0,
        PoolView::initial(threshold, capacity).counter == 0,
{
}

/// In a well-formed pool the ids fall by one from each position to the
/// next, so no two entries share an id, and every id is below the counter:
/// an id that was given is not given again.
pub proof fn law_ids_are_unique(p: PoolView, i: int, j: int)
    requires
        p.wf(),
        0 <= i < j < p.entries.len(),
    ensures
        p.entries[i].0 == p.entries[j].0 + (j - i),
        p.entries[i].0 != p.entries[j].0,
        p.entries[i].0 < p.counter,
        p.entries.len() <= p.capacity,
{
}

/// One more entry keeps a pool well formed. The counter advances by one
/// whether or not an entry had to leave, the threshold and the capacity
/// stay, the new entry stands first with the old counter as its id unless
/// the capacity is zero, and the entries behind it are the ones that were
/// there, in their order, without the oldest if the pool was full.
pub proof fn lemma_append_wf(p: PoolView, message: Seq<char>, level: Verbosity)
    requires
        p.wf(),
        p.counter < u32::MAX,
    ensures
        p.append(message, level).wf(),
        p.append(message, level).counter == p.counter + 1,
        p.append(message, level).threshold == p.threshold,
        p.append(message, level).capacity == p.capacity,
        p.append(message, level).entries.len() <= p.capacity,
        p.capacity > 0 ==> p.append(message, level).entries[0] == (
            p.counter as u32,
            message,
            level,
        ),
        forall|i: int|
            0 < i < p.append(message, level).entries.len() ==> #[trigger] p.append(
                message,
                level,
            ).entries[i] == p.entries[i - 1],
{
}

/// A run of entries keeps a pool well formed, and the counter advances by
/// the length of the run.
pub proof fn lemma_append_all_wf(p: PoolView, items: Seq<(Seq<char>, Verbosity)>)
    requires
        p.wf(),
        p.counter + items.len() <= u32::MAX,
    ensures
        p.append_all(items).wf(),
        p.append_all(items).counter == p.counter + items.len(),
        p.append_all(items).threshold == p.threshold,
        p.append_all(items).capacity == p.capacity,
    decreases items.len(),
{
    if items.len() > 0 {
        lemma_append_all_wf(p, items.drop_last());
        lemma_append_wf(p.append_all(items.drop_last()), items.last().0, items.last().1);
    }
}

/// After any run of entries, a new pool holds exactly the most recent ones.
pub proof fn lemma_append_all_from_initial(
    threshold: Verbosity,
    capacity: nat,
    items: Seq<(Seq<char>, Verbosity)>,
)
    requires
        items.len() <= u32::MAX,
    ensures
        PoolView::initial(threshold, capacity).append_all(items) == (PoolView {
            threshold,
            capacity,
            counter: items.len(),
            entries: most_recent(items, capacity),
        }),
    decreases items.len(),
{
    let start = PoolView::initial(threshold, capacity);
    if items.len() == 0 {
        assert(start.entries =~= most_recent(items, capacity));
    } else {
        let earlier = items.drop_last();
        lemma_append_all_from_initial(threshold, capacity, earlier);
        let before = start.append_all(earlier);
        let after = before.append(items.last().0, items.last().1);
        assert(after.entries =~= most_recent(items, capacity));
    }
}

/// However many entries are appended, to whatever pool, the pool never
/// holds more than its capacity.
pub proof fn law_size_never_exceeds_capacity(p: PoolView, items: Seq<(Seq<char>, Verbosity)>)
    requires
        p.wf(),
        p.counter + items.len() <= u32::MAX,
    ensures
        p.append_all(items).entries.len() <= p.capacity,
{
    lemma_append_all_wf(p, items);
}

/// After `n` entries a new pool has counted `n`, and the `n`-th entry, if
/// the pool retains any, stands first and carries the id `n - 1`, however
/// many entries had to leave.
pub proof fn law_ids_count_appends(
    threshold: Verbosity,
    capacity: nat,
    items: Seq<(Seq<char>, Verbosity)>,
)
    requires
        0 < items.len() <= u32::MAX,
    ensures
        PoolView::initial(threshold, capacity).append_all(items).counter == items.len(),
        capacity > 0 ==> PoolView::initial(threshold, capacity).append_all(items).entries[0] == (
            (items.len() - 1) as u32,
            items.last().0,
            items.last().1,
        ),
{
    lemma_append_all_from_initial(threshold, capacity, items);
}

/// Entries leave oldest first. After a run longer than the capacity, a new
/// pool holds as many entries as its capacity: the entry at position `i` is
/// the `i`-th from the end of the run, and no entry of the run that came
/// before those is retained.
pub proof fn law_eviction_keeps_most_recent(
    threshold: Verbosity,
    capacity: nat,
    items: Seq<(Seq<char>, Verbosity)>,
)
    requires
        capacity < items.len() <= u32::MAX,
    ensures
        PoolView::initial(threshold, capacity).append_all(items).entries.len() == capacity,
        forall|i: int|
            0 <= i < capacity ==> #[trigger] PoolView::initial(threshold, capacity).append_all(
                items,
            ).entries[i] == (
                (items.len() - 1 - i) as u32,
                items[items.len() - 1 - i].0,
                items[items.len() - 1 - i].1,
            ),
        forall|i: int|
            0 <= i < capacity ==> (#[trigger] PoolView::initial(threshold, capacity).append_all(
                items,
            ).entries[i]).0 >= items.len() - capacity,
{
    lemma_append_all_from_initial(threshold, capacity, items);
}

/// A read does not depend on when it is made: two results of
/// [`LogPool::get_log`] on one pool with one filter hold the same entries
/// in the same order.
pub proof fn law_get_log_repeats(
    pool: LogPool,
    filter: Verbosity,
    first: Vec<LogEntry>,
    second: Vec<LogEntry>,
)
    requires
        first.deep_view() == pool@.retained(filter),
        second.deep_view() == pool@.retained(filter),
    ensures
        first.deep_view() == second.deep_view(),
{
}

/// A filter keeps all of a sequence if every element passes it.
pub proof fn lemma_filter_all<A>(s: Seq<A>, pred: spec_fn(A) -> bool)
    requires
        forall|i: int| 0 <= i < s.len() ==> pred(#[trigger] s[i]),
    ensures
        s.filter(pred) == s,
    decreases s.len(),
{
    reveal(Seq::filter);
    if s.len() > 0 {
        lemma_filter_all(s.drop_last(), pred);
        assert(s.drop_last().push(s.last()) =~= s);
    }
}

/// A filter keeps nothing of a sequence if no element passes it.
pub proof fn lemma_filter_nothing<A>(s: Seq<A>, pred: spec_fn(A) -> bool)
    requires
        forall|i: int| 0 <= i < s.len() ==> !pred(#[trigger] s[i]),
    ensures
        s.filter(pred) == Seq::<A>::empty(),
    decreases s.len(),
{
    reveal(Seq::filter);
    if s.len() > 0 {
        lemma_filter_nothing(s.drop_last(), pred);
    }
}

/// The filter `Debug` lets every retained entry through.
pub proof fn law_debug_filter_keeps_all(p: PoolView)
    ensures
        p.retained(Verbosity::Debug) == p.entries,
        p.window(0, p.entries.len() as int, Verbosity::Debug) == p.entries,
{
    lemma_filter_all(p.entries, at_most(Verbosity::Debug));
    assert(p.entries.subrange(0, p.entries.len() as int) =~= p.entries);
}

/// The filter `Silent` lets nothing through, as long as no entry was
/// tagged `Silent`.
pub proof fn law_silent_filter_keeps_nothing(p: PoolView)
    requires
        forall|i: int| 0 <= i < p.entries.len() ==> (#[trigger] p.entries[i]).2 != Verbosity::Silent,
    ensures
        p.retained(Verbosity::Silent) == Seq::<EntryModel>::empty(),
{
    lemma_filter_nothing(p.entries, at_most(Verbosity::Silent));
}

/// A filter is a threshold and a listing is an exact match: every entry
/// that a listing of a level shows is among those that the filter of that
/// level lets through, and an entry below the level is let through by the
/// filter though the listing leaves it out.
pub proof fn law_listing_is_exact(p: PoolView, level: Verbosity, i: int)
    requires
        0 <= i < p.entries.len(),
    ensures
        p.tagged(level).contains(p.entries[i]) <==> p.entries[i].2 == level,
        p.retained(level).contains(p.entries[i]) <==> p.entries[i].2.within(level),
{
    let e = p.entries[i];
    if e.2 == level {
        p.entries.lemma_filter_contains(exactly(level), i);
    }
    if e.2.within(level) {
        p.entries.lemma_filter_contains(at_most(level), i);
    }
    if p.tagged(level).contains(e) {
        let j = choose|j: int| 0 <= j < p.tagged(level).len() && p.tagged(level)[j] == e;
        p.entries.lemma_filter_pred(exactly(level), j);
    }
    if p.retained(level).contains(e) {
        let j = choose|j: int| 0 <= j < p.retained(level).len() && p.retained(level)[j] == e;
        p.entries.lemma_filter_pred(at_most(level), j);
    }
}

} // verus!
