//! What holds of every event stream, whatever the tree and the verdicts.

use vstd::prelude::*;
use crate::filters::{FileFilter, FilterError};
use crate::tree::{depth_change, entry_of, events_from, has_more, passes, rejected, DirItem, EventModel, ItemKind};

verus! {

/// Directories opened minus directories closed by `events`.
pub open spec fn nesting(events: Seq<EventModel>) -> int
    decreases events.len(),
{
    if events.len() == 0 {
        0
    } else {
        nesting(events.drop_last()) + depth_change(events.last())
    }
}

/// Every `OpenDir` is matched by a later `CloseDir`, and no `CloseDir` comes
/// without an `OpenDir` before it: the whole stream closes as many
/// directories as it opens, and no beginning of it closes more.
pub open spec fn well_nested(events: Seq<EventModel>) -> bool {
    &&& nesting(events) == 0
    &&& forall|k: int| 0 <= k <= events.len() ==> nesting(#[trigger] events.take(k)) >= 0
}

proof fn lemma_nesting_single(event: EventModel)
    ensures
        nesting(seq![event]) == depth_change(event),
{
    assert(seq![event].drop_last() =~= Seq::<EventModel>::empty());
    assert(nesting(Seq::<EventModel>::empty()) == 0);
    assert(seq![event].last() == event);
}

proof fn lemma_nesting_concat(a: Seq<EventModel>, b: Seq<EventModel>)
    ensures
        nesting(a + b) == nesting(a) + nesting(b),
    decreases b.len(),
{
    if b.len() == 0 {
        assert(a + b =~= a);
    } else {
        assert((a + b).drop_last() =~= a + b.drop_last());
        lemma_nesting_concat(a, b.drop_last());
    }
}

proof fn lemma_well_nested_empty()
    ensures
        well_nested(Seq::<EventModel>::empty()),
{
    let e = Seq::<EventModel>::empty();
    assert forall|k: int| 0 <= k <= e.len() implies nesting(#[trigger] e.take(k)) >= 0 by {
        assert(e.take(k) =~= e);
    }
}

proof fn lemma_well_nested_concat(a: Seq<EventModel>, b: Seq<EventModel>)
    requires
        well_nested(a),
        well_nested(b),
    ensures
        well_nested(a + b),
{
    lemma_nesting_concat(a, b);
    let s = a + b;
    assert forall|k: int| 0 <= k <= s.len() implies nesting(#[trigger] s.take(k)) >= 0 by {
        if k <= a.len() {
            assert(s.take(k) =~= a.take(k));
        } else {
            assert(s.take(k) =~= a + b.take(k - a.len()));
            lemma_nesting_concat(a, b.take(k - a.len()));
        }
    }
}

proof fn lemma_well_nested_single(event: EventModel)
    requires
        depth_change(event) == 0,
    ensures
        well_nested(seq![event]),
{
    let s = seq![event];
    lemma_nesting_single(event);
    assert forall|k: int| 0 <= k <= s.len() implies nesting(#[trigger] s.take(k)) >= 0 by {
        if k == 0 {
            assert(s.take(k) =~= Seq::<EventModel>::empty());
        } else {
            assert(s.take(k) =~= s);
        }
    }
}

proof fn lemma_well_nested_bracket(open: EventModel, inner: Seq<EventModel>, close: EventModel)
    requires
        depth_change(open) == 1,
        depth_change(close) == -1,
        well_nested(inner),
    ensures
        well_nested(seq![open] + inner + seq![close]),
{
    let s = seq![open] + inner + seq![close];
    lemma_nesting_single(open);
    lemma_nesting_single(close);
    lemma_nesting_concat(seq![open], inner);
    lemma_nesting_concat(seq![open] + inner, seq![close]);
    assert forall|k: int| 0 <= k <= s.len() implies nesting(#[trigger] s.take(k)) >= 0 by {
        if k == 0 {
            assert(s.take(k) =~= Seq::<EventModel>::empty());
        } else if k <= inner.len() + 1 {
            assert(s.take(k) =~= seq![open] + inner.take(k - 1));
            lemma_nesting_concat(seq![open], inner.take(k - 1));
        } else {
            assert(s.take(k) =~= s);
        }
    }
}

/// The events of any entries, under any verdicts, are well nested: the
/// directories opened and closed balance, and at no point of the stream have
/// more been closed than opened.
pub proof fn lemma_events_well_nested(items: Seq<DirItem>, from: int)
    ensures
        well_nested(events_from(items, from)),
    decreases items, items.len() - from,
{
    if from < 0 || from >= items.len() {
        lemma_well_nested_empty();
    } else {
        let rest = events_from(items, from + 1);
        lemma_events_well_nested(items, from + 1);
        match items[from].verdict {
            Err(err) => {
                lemma_well_nested_single(EventModel::Failure(err.message@));
                lemma_well_nested_concat(seq![EventModel::Failure(err.message@)], rest);
            },
            Ok(false) => {},
            Ok(true) => match items[from].kind {
                ItemKind::File => {
                    let e = EventModel::File(entry_of(items, from));
                    lemma_well_nested_single(e);
                    lemma_well_nested_concat(seq![e], rest);
                },
                ItemKind::Unreadable(text) => {
                    lemma_well_nested_single(EventModel::Failure(text@));
                    lemma_well_nested_concat(seq![EventModel::Failure(text@)], rest);
                },
                ItemKind::Dir(children) => {
                    let open = EventModel::OpenDir(entry_of(items, from));
                    lemma_events_well_nested(children@, 0);
                    lemma_well_nested_bracket(open, events_from(children@, 0), EventModel::CloseDir);
                    lemma_well_nested_concat(
                        seq![open] + events_from(children@, 0) + seq![EventModel::CloseDir],
                        rest,
                    );
                },
            },
        }
    }
}

proof fn lemma_has_more_without(items: Seq<DirItem>, at: int, from: int)
    requires
        0 <= at < items.len(),
        !passes(items[at]),
        0 <= from <= items.len(),
    ensures
        has_more(items, from) == has_more(items.remove(at), if from > at { from - 1 } else { from }),
{
    let fewer = items.remove(at);
    let shifted = if from > at { from - 1 } else { from };
    if has_more(items, from) {
        let j = choose|j: int| from <= j < items.len() && passes(#[trigger] items[j]);
        let k = if j < at { j } else { j - 1 };
        assert(fewer[k] == items[j]);
        assert(shifted <= k < fewer.len() && passes(fewer[k]));
    }
    if has_more(fewer, shifted) {
        let k = choose|k: int| shifted <= k < fewer.len() && passes(#[trigger] fewer[k]);
        let j = if k < at { k } else { k + 1 };
        assert(fewer[k] == items[j]);
        assert(from <= j < items.len() && passes(items[j]));
    }
}

proof fn lemma_events_without(items: Seq<DirItem>, at: int, from: int)
    requires
        0 <= at < items.len(),
        rejected(items[at]),
        0 <= from <= items.len(),
    ensures
        events_from(items, from) == events_from(items.remove(at), if from > at { from - 1 } else { from }),
    decreases items.len() - from,
{
    let fewer = items.remove(at);
    if from < items.len() {
        lemma_events_without(items, at, from + 1);
        lemma_has_more_without(items, at, from + 1);
        if from != at {
            let shifted = if from > at { from - 1 } else { from };
            assert(fewer[shifted] == items[from]);
        }
    }
}

/// An entry that the filter excludes leaves no trace: the events are those of
/// the same directory with that entry, and all that lies below it, taken
/// away. So no event mentions the entry or anything under it, and the
/// lookahead flags of its siblings do not count it.
pub proof fn lemma_excluded_entry_leaves_no_trace(items: Seq<DirItem>, at: int)
    requires
        0 <= at < items.len(),
        rejected(items[at]),
    ensures
        events_from(items, 0) == events_from(items.remove(at), 0),
{
    lemma_events_without(items, at, 0);
}

/// A filter that can only exclude a path keeps it, and all that lies below
/// it, out of the events: they are those of the directory without the
/// entry at that path.
pub proof fn lemma_excluding_filter_hides_path<F: FileFilter>(filter: F, items: Seq<DirItem>, at: int)
    requires
        0 <= at < items.len(),
        filter.admits(items[at].path@, items[at].verdict),
        forall|verdict: Result<bool, FilterError>| #[trigger]
            filter.admits(items[at].path@, verdict) ==> verdict == Ok::<bool, FilterError>(false),
    ensures
        events_from(items, 0) == events_from(items.remove(at), 0),
{
    lemma_excluded_entry_leaves_no_trace(items, at);
}

/// The event is about the entry at `path`.
pub open spec fn mentions(event: EventModel, path: Seq<char>) -> bool {
    match event {
        EventModel::File(entry) => entry.path == path,
        EventModel::OpenDir(entry) => entry.path == path,
        _ => false,
    }
}

/// `path` is the path of an entry at or after position `from` that the
/// filter includes, or of one that is reached from such an entry through
/// directories and entries that the filter includes.
pub open spec fn reachable(items: Seq<DirItem>, from: int, path: Seq<char>) -> bool
    decreases items, items.len() - from,
{
    if from < 0 || from >= items.len() {
        false
    } else {
        ||| reachable(items, from + 1, path)
        ||| passes(items[from]) && items[from].path@ == path
        ||| passes(items[from]) && match items[from].kind {
            ItemKind::Dir(children) => reachable(children@, 0, path),
            _ => false,
        }
    }
}

/// Every event is about an entry that the filter includes and that lies
/// under included directories only. So neither a path that the filter
/// excludes nor anything that can only be reached through it is mentioned
/// by any event.
pub proof fn lemma_events_mention_only_reachable(items: Seq<DirItem>, from: int, path: Seq<char>, k: int)
    requires
        0 <= from,
        0 <= k < events_from(items, from).len(),
        mentions(events_from(items, from)[k], path),
    ensures
        reachable(items, from, path),
    decreases items, items.len() - from,
{
    if from < items.len() {
        let rest = events_from(items, from + 1);
        match items[from].verdict {
            Err(err) => {
                if k >= 1 {
                    lemma_events_mention_only_reachable(items, from + 1, path, k - 1);
                }
            },
            Ok(false) => {
                lemma_events_mention_only_reachable(items, from + 1, path, k);
            },
            Ok(true) => match items[from].kind {
                ItemKind::File => {
                    if k >= 1 {
                        lemma_events_mention_only_reachable(items, from + 1, path, k - 1);
                    }
                },
                ItemKind::Unreadable(text) => {
                    if k >= 1 {
                        lemma_events_mention_only_reachable(items, from + 1, path, k - 1);
                    }
                },
                ItemKind::Dir(children) => {
                    let inner = events_from(children@, 0);
                    if 1 <= k <= inner.len() {
                        lemma_events_mention_only_reachable(children@, 0, path, k - 1);
                    } else if k >= inner.len() + 2 {
                        lemma_events_mention_only_reachable(items, from + 1, path, k - inner.len() - 2);
                    }
                },
            },
        }
    }
}

/// The lookahead flag of a yielded entry says exactly whether a later entry
/// of the same directory passes the filter.
pub proof fn lemma_lookahead_is_exact(items: Seq<DirItem>, at: int)
    requires
        0 <= at < items.len(),
    ensures
        entry_of(items, at).has_next_sibling <==> exists|j: int| at < j < items.len() && passes(#[trigger] items[j]),
{
    if has_more(items, at + 1) {
        let j = choose|j: int| at + 1 <= j < items.len() && passes(#[trigger] items[j]);
        assert(at < j < items.len() && passes(items[j]));
    }
    if exists|j: int| at < j < items.len() && passes(#[trigger] items[j]) {
        let j = choose|j: int| at < j < items.len() && passes(#[trigger] items[j]);
        assert(at + 1 <= j < items.len() && passes(items[j]));
    }
}

} // verus!
